use acp_traces::acp::Direction;
use acp_traces::clock::{between, capped, millis, Clock};
use acp_traces::genai::chat_text;
use acp_traces::record::{
    Attribute, AttributeValue, Instrument, Measurement, SpanKind, SpanRecord, Telemetry,
};
use acp_traces::spans::SpanManager;
use serde_json::Value;

const IN: Direction = Direction::EditorToAgent;
const OUT: Direction = Direction::AgentToEditor;

fn manager(record_content: bool) -> SpanManager {
    SpanManager::new(opentelemetry::global::tracer("test"), record_content)
}

fn value(text: &str) -> Value {
    serde_json::from_str(text).unwrap()
}

fn text_of<'a>(span: &'a SpanRecord, key: &str) -> Option<&'a str> {
    span.attributes.iter().find(|a| a.key == key).map(|a| match &a.value {
        AttributeValue::Text(s) => s.as_str(),
        AttributeValue::Integer(_) => panic!("{} is no text", key),
    })
}

fn integer_of(span: &SpanRecord, key: &str) -> Option<i64> {
    span.attributes.iter().find(|a| a.key == key).map(|a| match &a.value {
        AttributeValue::Integer(n) => *n,
        AttributeValue::Text(_) => panic!("{} is no integer", key),
    })
}

fn count_of(span: &SpanRecord, key: &str) -> usize {
    span.attributes.iter().filter(|a| a.key == key).count()
}

fn keys(span: &SpanRecord) -> Vec<&'static str> {
    span.attributes.iter().map(|a| a.key).collect()
}

fn nothing(t: &Telemetry) -> bool {
    t.closed.is_empty() && t.measurements.is_empty()
}

fn chunk(session: &str, text: &str) -> String {
    format!(
        r#"{{"method":"session/update","params":{{"sessionId":"{}","update":{{"sessionUpdate":"agent_message_chunk","content":{{"type":"text","text":"{}"}}}}}}}}"#,
        session, text
    )
}

#[test]
fn initialize_then_its_response_closes_one_span() {
    let mut mgr = manager(false);
    let t = mgr.process_message_at(
        IN,
        r#"{"id":1,"method":"initialize","params":{"clientInfo":{"name":"zed"}}}"#,
        10,
    );
    assert!(nothing(&t));
    assert_eq!(mgr.pending_requests(), 1);
    assert_eq!(mgr.client_name(), Some("zed".to_string()));
    assert_eq!(mgr.client_version(), None);
    assert_eq!(mgr.agent_name(), None);
    let t = mgr.process_message_at(
        OUT,
        r#"{"id":1,"result":{"agentInfo":{"name":"kiro","version":"1.0"}}}"#,
        20,
    );
    assert_eq!(mgr.pending_requests(), 0);
    assert_eq!(t.closed.len(), 1);
    assert!(t.measurements.is_empty());
    let span = &t.closed[0];
    assert_eq!(span.name, "initialize");
    assert_eq!(span.kind, SpanKind::Internal);
    assert_eq!(span.id, 1);
    assert_eq!(span.parent, Some(0));
    assert_eq!(span.error, None);
    assert_eq!(
        span.attributes,
        vec![
            Attribute::label("rpc.system", "jsonrpc"),
            Attribute::label("rpc.method", "initialize"),
            Attribute::label("acp.method.name", "initialize"),
            Attribute::label("network.transport", "pipe"),
            Attribute::label("gen_ai.agent.name", "kiro"),
            Attribute::label("gen_ai.agent.id", "kiro"),
        ]
    );
    assert_eq!(mgr.agent_name(), Some("kiro".to_string()));
    assert_eq!(mgr.agent_version(), Some("1.0".to_string()));
    assert_eq!(mgr.protocol_version(), None);
}

#[test]
fn streamed_output_is_reflected_in_the_output_message() {
    let mut mgr = manager(true);
    mgr.process_message_at(IN, r#"{"id":7,"method":"session/prompt","params":{"sessionId":"s1"}}"#, 0);
    let t = mgr.process_message_at(OUT, &chunk("s1", "hi"), 5);
    assert!(nothing(&t));
    let t = mgr.process_message_at(OUT, r#"{"id":7,"result":{"stopReason":"end_turn"}}"#, 9);
    assert_eq!(t.closed.len(), 1);
    let span = &t.closed[0];
    assert_eq!(span.name, "invoke_agent");
    assert_eq!(span.error, None);
    let message = value(text_of(span, "gen_ai.output.messages").unwrap());
    assert_eq!(message[0]["role"], "assistant");
    assert_eq!(message[0]["parts"][0]["type"], "text");
    assert_eq!(message[0]["parts"][0]["content"], "hi");
    assert_eq!(message[0]["finish_reason"], "stop");
    assert_eq!(
        text_of(span, "gen_ai.output.messages"),
        Some(r#"[{"finish_reason":"stop","parts":[{"content":"hi","type":"text"}],"role":"assistant"}]"#)
    );
    assert_eq!(text_of(span, "gen_ai.response.finish_reasons"), Some("[\"end_turn\"]"));
}

#[test]
fn chunk_for_a_session_that_was_never_prompted_is_passed_over() {
    let mut mgr = manager(true);
    let t = mgr.process_message_at(OUT, &chunk("s1", "hi"), 5);
    assert!(nothing(&t));
    assert_eq!(mgr.sessions(), 0);
    let t = mgr.process_message_at(OUT, r#"{"id":7,"result":{"stopReason":"end_turn"}}"#, 9);
    assert!(nothing(&t));
}

#[test]
fn completed_tool_call_closes_without_error() {
    let mut mgr = manager(false);
    mgr.process_message_at(IN, r#"{"id":1,"method":"session/prompt","params":{"sessionId":"s1"}}"#, 0);
    let t = mgr.process_message_at(
        OUT,
        r#"{"method":"session/update","params":{"sessionId":"s1","update":{"sessionUpdate":"tool_call","toolCallId":"t1","kind":"read","rawInput":{"p":1}}}}"#,
        1,
    );
    assert!(nothing(&t));
    let t = mgr.process_message_at(
        OUT,
        r#"{"method":"session/update","params":{"sessionId":"s1","update":{"sessionUpdate":"tool_call_update","toolCallId":"t1","status":"completed","rawOutput":{"ok":true}}}}"#,
        2,
    );
    assert_eq!(t.closed.len(), 1);
    let span = &t.closed[0];
    assert_eq!(span.error, None);
    assert_eq!(span.name, "execute_tool unknown tool");
    assert_eq!(span.kind, SpanKind::Internal);
    assert_eq!(span.parent, Some(0));
    assert_eq!(
        span.attributes,
        vec![
            Attribute::label("gen_ai.operation.name", "execute_tool"),
            Attribute::label("gen_ai.tool.name", "unknown tool"),
            Attribute::label("gen_ai.tool.call.id", "t1"),
            Attribute::label("gen_ai.tool.type", "datastore"),
            Attribute::label("gen_ai.conversation.id", "s1"),
            Attribute::label("acp.method.name", "session/update"),
            Attribute::label("acp.tool.kind", "read"),
            Attribute::label("network.transport", "pipe"),
        ]
    );
}

#[test]
fn failed_tool_call_is_marked() {
    let mut mgr = manager(true);
    mgr.process_message_at(IN, r#"{"id":1,"method":"session/prompt","params":{"sessionId":"s1"}}"#, 0);
    mgr.process_message_at(
        OUT,
        r#"{"method":"session/update","params":{"sessionId":"s1","update":{"sessionUpdate":"tool_call","toolCallId":"t1","title":"Run","rawInput":{"cmd":"ls"}}}}"#,
        1,
    );
    let t = mgr.process_message_at(
        OUT,
        r#"{"method":"session/update","params":{"sessionId":"s1","update":{"sessionUpdate":"tool_call_update","toolCallId":"t1","status":"failed","rawOutput":"boom"}}}"#,
        2,
    );
    assert_eq!(t.closed.len(), 1);
    let span = &t.closed[0];
    assert_eq!(span.name, "execute_tool Run");
    assert_eq!(span.error, Some("tool call failed".to_string()));
    assert_eq!(text_of(span, "error.type"), Some("tool_error"));
    assert_eq!(text_of(span, "gen_ai.tool.type"), Some("extension"));
    assert_eq!(text_of(span, "acp.tool.kind"), Some("other"));
    assert_eq!(text_of(span, "gen_ai.tool.call.arguments"), Some(r#"{"cmd":"ls"}"#));
    assert_eq!(text_of(span, "gen_ai.tool.call.result"), Some(r#""boom""#));
    assert_eq!(
        keys(span),
        vec![
            "gen_ai.operation.name",
            "gen_ai.tool.name",
            "gen_ai.tool.call.id",
            "gen_ai.tool.type",
            "gen_ai.conversation.id",
            "acp.method.name",
            "acp.tool.kind",
            "network.transport",
            "gen_ai.tool.call.arguments",
            "error.type",
            "gen_ai.tool.call.result",
        ]
    );
}

#[test]
fn progress_updates_leave_the_tool_span_open() {
    let mut mgr = manager(false);
    mgr.process_message_at(IN, r#"{"id":1,"method":"session/prompt","params":{"sessionId":"s1"}}"#, 0);
    mgr.process_message_at(
        OUT,
        r#"{"method":"session/update","params":{"sessionId":"s1","update":{"sessionUpdate":"tool_call","toolCallId":"t1"}}}"#,
        1,
    );
    for status in ["pending", "in_progress", "", "Completed", "done"] {
        let line = format!(
            r#"{{"method":"session/update","params":{{"sessionId":"s1","update":{{"sessionUpdate":"tool_call_update","toolCallId":"t1","status":"{}"}}}}}}"#,
            status
        );
        assert!(nothing(&mgr.process_message_at(OUT, &line, 2)), "{}", status);
    }
    let t = mgr.process_message_at(
        OUT,
        r#"{"method":"session/update","params":{"sessionId":"s1","update":{"sessionUpdate":"tool_call_update","toolCallId":"t1"}}}"#,
        3,
    );
    assert!(nothing(&t));
    let t = mgr.process_message_at(
        OUT,
        r#"{"method":"session/update","params":{"sessionId":"s1","update":{"sessionUpdate":"tool_call_update","toolCallId":"other","status":"completed"}}}"#,
        3,
    );
    assert!(nothing(&t));
    let t = mgr.process_message_at(
        OUT,
        r#"{"method":"session/update","params":{"sessionId":"s1","update":{"sessionUpdate":"tool_call_update","toolCallId":"t1","status":"completed"}}}"#,
        4,
    );
    assert_eq!(t.closed.len(), 1);
    let t = mgr.process_message_at(
        OUT,
        r#"{"method":"session/update","params":{"sessionId":"s1","update":{"sessionUpdate":"tool_call_update","toolCallId":"t1","status":"completed"}}}"#,
        5,
    );
    assert!(nothing(&t));
}

#[test]
fn shutdown_closes_an_outstanding_prompt_and_the_root_last() {
    let mut mgr = manager(false);
    mgr.process_message_at(IN, r#"{"id":1,"method":"initialize","params":{}}"#, 0);
    mgr.process_message_at(OUT, r#"{"id":1,"result":{}}"#, 1);
    mgr.process_message_at(IN, r#"{"id":2,"method":"session/prompt","params":{"sessionId":"s1"}}"#, 2);
    mgr.process_message_at(
        OUT,
        r#"{"method":"session/update","params":{"sessionId":"s1","update":{"sessionUpdate":"tool_call","toolCallId":"t1","title":"Edit"}}}"#,
        3,
    );
    mgr.process_message_at(OUT, r#"{"id":9,"method":"fs/read_text_file","params":{"sessionId":"s1","path":"/a"}}"#, 4);
    let t = mgr.shutdown();
    assert!(t.measurements.is_empty());
    let names: Vec<&str> = t.closed.iter().map(|s| s.name.as_str()).collect();
    assert_eq!(
        names,
        vec!["invoke_agent", "execute_tool Edit", "execute_tool fs/read_text_file", "acp_session"]
    );
    assert_eq!(t.closed[0].error, Some("session ended unexpectedly".to_string()));
    assert_eq!(t.closed[1].error, Some("session ended unexpectedly".to_string()));
    assert_eq!(t.closed[2].error, Some("process exited before response".to_string()));
    assert_eq!(t.closed[3].error, None);
    assert_eq!(t.closed[3].id, 0);
    assert_eq!(t.closed[3].parent, None);
    assert_eq!(t.closed[0].parent, Some(0));
    assert_eq!(t.closed[1].parent, Some(t.closed[0].id));
    assert_eq!(t.closed[2].parent, Some(t.closed[0].id));
    assert_eq!(mgr.pending_requests(), 0);
    assert_eq!(mgr.sessions(), 0);
    assert!(nothing(&mgr.shutdown()));
}

#[test]
fn response_to_an_unknown_id_is_a_no_op() {
    let mut mgr = manager(true);
    assert!(nothing(&mgr.process_message_at(OUT, r#"{"id":1,"result":{"stopReason":"end_turn"}}"#, 5)));
    mgr.process_message_at(IN, r#"{"id":1,"method":"session/new","params":{}}"#, 6);
    assert!(nothing(&mgr.process_message_at(OUT, r#"{"id":2,"result":{}}"#, 7)));
    assert!(nothing(&mgr.process_message_at(OUT, r#"{"id":"1","result":{}}"#, 7)));
    assert_eq!(mgr.pending_requests(), 1);
    assert_eq!(mgr.sessions(), 0);
    let t = mgr.process_message_at(OUT, r#"{"id":1,"result":{}}"#, 8);
    assert_eq!(t.closed.len(), 1);
    assert!(nothing(&mgr.process_message_at(OUT, r#"{"id":1,"result":{}}"#, 9)));
    assert!(nothing(&mgr.shutdown()));
}

#[test]
fn numeric_and_string_ids_are_different_keys() {
    let mut mgr = manager(false);
    mgr.process_message_at(IN, r#"{"id":1,"method":"a","params":{}}"#, 0);
    mgr.process_message_at(IN, r#"{"id":"1","method":"b","params":{}}"#, 0);
    assert_eq!(mgr.pending_requests(), 2);
    let t = mgr.process_message_at(OUT, r#"{"id":"1","result":{}}"#, 1);
    assert_eq!(t.closed[0].name, "b");
    assert_eq!(text_of(&t.closed[0], "jsonrpc.request.id"), Some("\"1\""));
    let t = mgr.process_message_at(OUT, r#"{"id":1,"result":{}}"#, 1);
    assert_eq!(t.closed[0].name, "a");
    assert_eq!(text_of(&t.closed[0], "jsonrpc.request.id"), Some("1"));
}

#[test]
fn prompt_duration_and_time_to_first_token_are_measured() {
    let mut mgr = manager(false);
    mgr.process_message_at(IN, r#"{"id":1,"method":"session/prompt","params":{"sessionId":"s1"}}"#, 1_000);
    mgr.process_message_at(OUT, &chunk("s1", "a"), 2_501_000);
    mgr.process_message_at(OUT, &chunk("s1", "b"), 9_000_000);
    let t = mgr.process_message_at(OUT, r#"{"id":1,"result":{"stopReason":"max_tokens"}}"#, 12_000_000);
    assert_eq!(
        t.measurements,
        vec![
            Measurement {
                instrument: Instrument::TimeToFirstToken,
                nanos: 2_500_000,
                operation: "invoke_agent",
            },
            Measurement {
                instrument: Instrument::OperationDuration,
                nanos: 11_999_000,
                operation: "invoke_agent",
            },
        ]
    );
    let span = &t.closed[0];
    assert_eq!(integer_of(span, "acp.time_to_first_token_ms"), Some(2));
    assert_eq!(count_of(span, "gen_ai.response.finish_reasons"), 1);
    assert_eq!(text_of(span, "gen_ai.response.finish_reasons"), Some("[\"max_tokens\"]"));
    assert_eq!(text_of(span, "gen_ai.output.messages"), None);
}

#[test]
fn prompt_without_chunks_measures_only_the_duration() {
    let mut mgr = manager(true);
    mgr.process_message_at(IN, r#"{"id":1,"method":"session/prompt","params":{"sessionId":"s1"}}"#, 50);
    let t = mgr.process_message_at(OUT, r#"{"id":1,"result":{}}"#, 50);
    assert_eq!(
        t.measurements,
        vec![Measurement { instrument: Instrument::OperationDuration, nanos: 0, operation: "invoke_agent" }]
    );
    let span = &t.closed[0];
    assert_eq!(count_of(span, "gen_ai.response.finish_reasons"), 0);
    assert_eq!(count_of(span, "gen_ai.output.messages"), 0);
    assert_eq!(count_of(span, "acp.time_to_first_token_ms"), 0);
}

#[test]
fn a_clock_that_went_back_gives_zero_durations() {
    let mut mgr = manager(false);
    mgr.process_message_at(IN, r#"{"id":1,"method":"session/prompt","params":{"sessionId":"s1"}}"#, 100);
    mgr.process_message_at(OUT, &chunk("s1", "a"), 40);
    let t = mgr.process_message_at(OUT, r#"{"id":1,"result":{}}"#, 60);
    assert_eq!(t.measurements[0].nanos, 0);
    assert_eq!(t.measurements[1].nanos, 0);
    assert_eq!(integer_of(&t.closed[0], "acp.time_to_first_token_ms"), Some(0));
    assert_eq!(between(100, 60), 0);
    assert_eq!(between(60, 100), 40);
    assert_eq!(between(u64::MAX, 0), 0);
    assert_eq!(between(0, u64::MAX), u64::MAX);
    assert_eq!(millis(999_999), 0);
    assert_eq!(millis(1_000_000), 1);
    assert_eq!(millis(u64::MAX), 18_446_744_073_709);
}

#[test]
fn output_without_stop_reason_has_no_finish_reason() {
    let mut mgr = manager(true);
    mgr.process_message_at(IN, r#"{"id":1,"method":"session/prompt","params":{"sessionId":"s1"}}"#, 0);
    mgr.process_message_at(OUT, &chunk("s1", "partial"), 1);
    let t = mgr.process_message_at(OUT, r#"{"id":1,"error":{"code":-32000,"message":"x"}}"#, 2);
    let span = &t.closed[0];
    assert_eq!(
        text_of(span, "gen_ai.output.messages"),
        Some(r#"[{"parts":[{"content":"partial","type":"text"}],"role":"assistant"}]"#)
    );
    assert_eq!(count_of(span, "gen_ai.response.finish_reasons"), 0);
    assert_eq!(span.error, Some(r#"{"code":-32000,"message":"x"}"#.to_string()));
    assert_eq!(text_of(span, "error.type"), Some("-32000"));
    assert_eq!(t.measurements.len(), 2);
    assert_eq!(t.measurements[1].instrument, Instrument::OperationDuration);
}

#[test]
fn content_is_never_recorded_when_the_switch_is_off() {
    let mut mgr = manager(false);
    let mut closed: Vec<SpanRecord> = Vec::new();
    let lines = [
        r#"{"id":1,"method":"session/prompt","params":{"sessionId":"s1","prompt":[{"type":"text","text":"secret"}]}}"#,
        r#"{"method":"session/update","params":{"sessionId":"s1","update":{"sessionUpdate":"agent_message_chunk","content":{"type":"text","text":"secret"}}}}"#,
        r#"{"method":"session/update","params":{"sessionId":"s1","update":{"sessionUpdate":"tool_call","toolCallId":"t","rawInput":"secret"}}}"#,
        r#"{"method":"session/update","params":{"sessionId":"s1","update":{"sessionUpdate":"tool_call_update","toolCallId":"t","status":"completed","rawOutput":"secret"}}}"#,
        r#"{"id":2,"method":"fs/write_text_file","params":{"sessionId":"s1","content":"secret"}}"#,
        r#"{"id":2,"result":{"written":"secret"}}"#,
        r#"{"id":1,"result":{"stopReason":"end_turn"}}"#,
    ];
    for line in lines {
        closed.extend(mgr.process_message_at(IN, line, 0).closed);
    }
    closed.extend(mgr.shutdown().closed);
    assert_eq!(closed.len(), 3);
    for span in &closed {
        for a in &span.attributes {
            assert!(
                !matches!(
                    a.key,
                    "gen_ai.input.messages"
                        | "gen_ai.output.messages"
                        | "gen_ai.tool.call.arguments"
                        | "gen_ai.tool.call.result"
                ),
                "{}",
                a.key
            );
            if let AttributeValue::Text(s) = &a.value {
                assert!(!s.contains("secret"), "{}", a.key);
            }
        }
    }
}

#[test]
fn prompt_span_carries_what_is_known_of_agent_and_client() {
    let mut mgr = manager(true);
    mgr.process_message_at(IN, r#"{"id":0,"method":"initialize","params":{"clientInfo":{"name":"zed","version":"0.9"}}}"#, 0);
    mgr.process_message_at(OUT, r#"{"id":0,"result":{"protocolVersion":3,"agentInfo":{"name":"kiro","version":"1.25.0"}}}"#, 0);
    assert_eq!(mgr.protocol_version(), Some(3));
    mgr.process_message_at(
        IN,
        r#"{"id":1,"method":"session/prompt","params":{"sessionId":"s1","prompt":[{"type":"text","text":"fix \"it\""},{"type":"text","text":"now"}]}}"#,
        0,
    );
    let t = mgr.process_message_at(OUT, r#"{"id":1,"result":{"stopReason":"refusal"}}"#, 0);
    let span = &t.closed[0];
    assert_eq!(span.name, "invoke_agent kiro");
    assert_eq!(span.kind, SpanKind::Client);
    assert_eq!(span.parent, Some(0));
    assert_eq!(
        span.attributes,
        vec![
            Attribute::label("gen_ai.operation.name", "invoke_agent"),
            Attribute::label("gen_ai.conversation.id", "s1"),
            Attribute::label("acp.method.name", "session/prompt"),
            Attribute::label("network.transport", "pipe"),
            Attribute::label("gen_ai.provider.name", "acp.kiro"),
            Attribute::label("gen_ai.agent.name", "kiro"),
            Attribute::label("gen_ai.agent.id", "kiro"),
            Attribute::label("acp.agent.version", "1.25.0"),
            Attribute::label("acp.client.name", "zed"),
            Attribute::label("acp.client.version", "0.9"),
            Attribute::text(
                "gen_ai.input.messages",
                r#"[{"parts":[{"content":"fix \"it\"\nnow","type":"text"}],"role":"user"}]"#
                    .to_string()
            ),
            Attribute::label("gen_ai.response.finish_reasons", "[\"refusal\"]"),
        ]
    );
}

#[test]
fn initialize_response_sets_the_protocol_version_and_tells_the_root() {
    let mut mgr = manager(false);
    mgr.process_message_at(IN, r#"{"id":1,"method":"initialize","params":{}}"#, 0);
    let t = mgr.process_message_at(
        OUT,
        r#"{"id":1,"result":{"protocolVersion":1,"agentInfo":{"name":"kiro"}}}"#,
        0,
    );
    assert_eq!(integer_of(&t.closed[0], "acp.protocol.version"), Some(1));
    assert_eq!(mgr.agent_version(), None);
    let t = mgr.shutdown();
    assert_eq!(t.closed.len(), 1);
    assert_eq!(t.closed[0].name, "acp_session");
    assert_eq!(
        t.closed[0].attributes,
        vec![
            Attribute::label("acp.method.name", "session"),
            Attribute::label("network.transport", "pipe"),
            Attribute::label("gen_ai.agent.name", "kiro"),
        ]
    );
}

#[test]
fn protocol_version_must_fit_a_signed_integer() {
    for (text, expected) in [
        ("9223372036854775807", Some(i64::MAX)),
        ("-9223372036854775808", Some(i64::MIN)),
        ("9223372036854775808", None),
        ("1.0", None),
        ("\"1\"", None),
    ] {
        let mut mgr = manager(false);
        mgr.process_message_at(IN, r#"{"id":1,"method":"initialize","params":{}}"#, 0);
        let line = format!(r#"{{"id":1,"result":{{"protocolVersion":{}}}}}"#, text);
        let t = mgr.process_message_at(OUT, &line, 0);
        assert_eq!(mgr.protocol_version(), expected, "{}", text);
        assert_eq!(integer_of(&t.closed[0], "acp.protocol.version"), expected, "{}", text);
    }
}

#[test]
fn error_responses_mark_their_spans() {
    let mut mgr = manager(true);
    mgr.process_message_at(IN, r#"{"id":1,"method":"initialize","params":{}}"#, 0);
    let t = mgr.process_message_at(OUT, r#"{"id":1,"error":{"message":"no"}}"#, 0);
    assert_eq!(t.closed[0].error, Some(r#"{"message":"no"}"#.to_string()));
    assert_eq!(text_of(&t.closed[0], "error.type"), Some("_OTHER"));

    mgr.process_message_at(IN, r#"{"id":2,"method":"terminal/create","params":{"command":"ls"}}"#, 0);
    let t = mgr.process_message_at(OUT, r#"{"id":2,"error":{"code":"E1"}}"#, 0);
    assert_eq!(t.closed[0].name, "execute_tool terminal/create");
    assert_eq!(t.closed[0].error, Some(r#"{"code":"E1"}"#.to_string()));
    assert_eq!(text_of(&t.closed[0], "error.type"), Some("\"E1\""));
    assert_eq!(text_of(&t.closed[0], "gen_ai.tool.call.result"), None);

    mgr.process_message_at(IN, r#"{"id":3,"method":"session/new","params":{}}"#, 0);
    let t = mgr.process_message_at(OUT, r#"{"id":3,"error":{"code":5}}"#, 0);
    assert_eq!(t.closed[0].name, "session/new");
    assert_eq!(t.closed[0].error, Some(r#"{"code":5}"#.to_string()));
    assert_eq!(text_of(&t.closed[0], "error.type"), None);
}

#[test]
fn tool_request_records_arguments_and_result() {
    let mut mgr = manager(true);
    mgr.process_message_at(IN, r#"{"id":1,"method":"session/prompt","params":{"sessionId":"s1"}}"#, 0);
    mgr.process_message_at(OUT, r#"{"id":"r1","method":"fs/read_text_file","params":{"sessionId":"s1","path":"/a"}}"#, 1);
    let t = mgr.process_message_at(IN, r#"{"id":"r1","result":{"content":"x"}}"#, 2);
    let span = &t.closed[0];
    assert_eq!(span.parent, Some(0));
    assert_eq!(
        span.attributes,
        vec![
            Attribute::label("gen_ai.operation.name", "execute_tool"),
            Attribute::label("gen_ai.tool.name", "fs/read_text_file"),
            Attribute::label("gen_ai.tool.call.id", "\"r1\""),
            Attribute::label("gen_ai.tool.type", "function"),
            Attribute::label("acp.method.name", "fs/read_text_file"),
            Attribute::label("network.transport", "pipe"),
            Attribute::label("gen_ai.conversation.id", "s1"),
            Attribute::label("gen_ai.tool.call.arguments", r#"{"path":"/a","sessionId":"s1"}"#),
            Attribute::label("gen_ai.tool.call.result", r#"{"content":"x"}"#),
        ]
    );
}

#[test]
fn tool_request_without_a_prompted_session_stands_under_the_root() {
    let mut mgr = manager(false);
    mgr.process_message_at(IN, r#"{"id":1,"method":"initialize","params":{}}"#, 0);
    mgr.process_message_at(OUT, r#"{"id":2,"method":"terminal/write","params":{"sessionId":"nobody"}}"#, 1);
    mgr.process_message_at(OUT, r#"{"id":3,"method":"terminal/resize","params":{}}"#, 1);
    let t = mgr.process_message_at(IN, r#"{"id":2,"result":null}"#, 2);
    assert_eq!(t.closed[0].parent, Some(0));
    assert_eq!(text_of(&t.closed[0], "gen_ai.conversation.id"), Some("nobody"));
    let t = mgr.process_message_at(IN, r#"{"id":3,"result":null}"#, 2);
    assert_eq!(t.closed[0].parent, Some(0));
    assert_eq!(text_of(&t.closed[0], "gen_ai.conversation.id"), None);
}

#[test]
fn spans_started_before_any_root_have_no_parent() {
    let mut mgr = manager(false);
    mgr.process_message_at(IN, r#"{"id":1,"method":"session/new","params":{}}"#, 0);
    let t = mgr.process_message_at(OUT, r#"{"id":1,"result":{}}"#, 0);
    assert_eq!(t.closed[0].id, 0);
    assert_eq!(t.closed[0].parent, None);
    assert!(nothing(&mgr.shutdown()));
}

#[test]
fn prompt_without_session_id_goes_to_the_unknown_session() {
    let mut mgr = manager(false);
    mgr.process_message_at(IN, r#"{"id":1,"method":"session/prompt","params":{}}"#, 0);
    assert_eq!(mgr.sessions(), 1);
    let t = mgr.process_message_at(OUT, r#"{"id":1,"result":{}}"#, 0);
    assert_eq!(text_of(&t.closed[0], "gen_ai.conversation.id"), Some("unknown"));
}

#[test]
fn a_second_prompt_of_a_session_closes_the_first_span() {
    let mut mgr = manager(false);
    assert!(nothing(&mgr.process_message_at(IN, r#"{"id":1,"method":"session/prompt","params":{"sessionId":"s1"}}"#, 0)));
    let t = mgr.process_message_at(IN, r#"{"id":2,"method":"session/prompt","params":{"sessionId":"s1"}}"#, 5);
    assert_eq!(t.closed.len(), 1);
    assert_eq!(t.closed[0].id, 0);
    assert_eq!(t.closed[0].error, None);
    assert!(t.measurements.is_empty());
    assert_eq!(mgr.sessions(), 1);
    assert_eq!(mgr.pending_requests(), 2);
    let t = mgr.process_message_at(OUT, r#"{"id":1,"result":{}}"#, 7);
    assert_eq!(t.closed.len(), 1);
    assert_eq!(t.closed[0].id, 1);
    assert_eq!(t.measurements[0].nanos, 7);
    let t = mgr.process_message_at(OUT, r#"{"id":2,"result":{}}"#, 9);
    assert!(nothing(&t));
    assert!(nothing(&mgr.shutdown()));
}

#[test]
fn a_request_under_a_waiting_id_closes_the_earlier_span() {
    let mut mgr = manager(false);
    mgr.process_message_at(IN, r#"{"id":1,"method":"session/new","params":{}}"#, 0);
    let t = mgr.process_message_at(IN, r#"{"id":1,"method":"session/load","params":{}}"#, 0);
    assert_eq!(t.closed.len(), 1);
    assert_eq!(t.closed[0].name, "session/new");
    assert_eq!(t.closed[0].error, None);
    assert_eq!(mgr.pending_requests(), 1);
    let t = mgr.process_message_at(OUT, r#"{"id":1,"result":{}}"#, 0);
    assert_eq!(t.closed[0].name, "session/load");
}

#[test]
fn a_reused_tool_call_id_closes_the_earlier_span() {
    let mut mgr = manager(false);
    mgr.process_message_at(IN, r#"{"id":1,"method":"session/prompt","params":{"sessionId":"s1"}}"#, 0);
    let call = |title: &str| {
        format!(
            r#"{{"method":"session/update","params":{{"sessionId":"s1","update":{{"sessionUpdate":"tool_call","toolCallId":"t1","title":"{}"}}}}}}"#,
            title
        )
    };
    assert!(nothing(&mgr.process_message_at(OUT, &call("first"), 1)));
    let t = mgr.process_message_at(OUT, &call("second"), 2);
    assert_eq!(t.closed.len(), 1);
    assert_eq!(t.closed[0].name, "execute_tool first");
    assert_eq!(t.closed[0].error, None);
    let t = mgr.shutdown();
    let names: Vec<&str> = t.closed.iter().map(|s| s.name.as_str()).collect();
    assert_eq!(names, vec!["invoke_agent", "execute_tool second"]);
}

#[test]
fn a_tool_call_of_an_unknown_session_is_closed_at_once() {
    let mut mgr = manager(false);
    let t = mgr.process_message_at(
        OUT,
        r#"{"method":"session/update","params":{"sessionId":"s1","update":{"sessionUpdate":"tool_call","toolCallId":"t1","title":"Read"}}}"#,
        1,
    );
    assert_eq!(t.closed.len(), 1);
    assert_eq!(t.closed[0].name, "execute_tool Read");
    assert_eq!(t.closed[0].parent, None);
    assert_eq!(t.closed[0].error, None);
    assert_eq!(mgr.sessions(), 0);
    assert!(nothing(&mgr.shutdown()));
}

#[test]
fn tool_calls_after_the_answer_still_stand_under_the_prompt_span() {
    let mut mgr = manager(false);
    mgr.process_message_at(IN, r#"{"id":1,"method":"session/prompt","params":{"sessionId":"s1"}}"#, 0);
    let t = mgr.process_message_at(OUT, r#"{"id":1,"result":{}}"#, 1);
    let prompt = t.closed[0].id;
    mgr.process_message_at(
        OUT,
        r#"{"method":"session/update","params":{"sessionId":"s1","update":{"sessionUpdate":"tool_call","toolCallId":"t1"}}}"#,
        2,
    );
    let t = mgr.shutdown();
    assert_eq!(t.closed.len(), 1);
    assert_eq!(t.closed[0].parent, Some(prompt));
    assert_eq!(t.closed[0].error, Some("session ended unexpectedly".to_string()));
}

#[test]
fn other_notifications_and_malformed_lines_are_passed_over() {
    let mut mgr = manager(true);
    mgr.process_message_at(IN, r#"{"id":1,"method":"session/prompt","params":{"sessionId":"s1"}}"#, 0);
    for line in [
        "",
        "garbage",
        r#"{"method":"session/cancel","params":{"sessionId":"s1"}}"#,
        r#"{"method":"session/update","params":{"update":{"sessionUpdate":"agent_message_chunk","content":{"text":"x"}}}}"#,
        r#"{"method":"session/update","params":{"sessionId":"s1","update":{"content":{"text":"x"}}}}"#,
        r#"{"method":"session/update","params":{"sessionId":"s1","update":{"sessionUpdate":"plan"}}}"#,
        r#"{"method":"session/update","params":{"sessionId":"s1","update":{"sessionUpdate":"tool_call"}}}"#,
        r#"{"method":"session/update","params":{"sessionId":"s1","update":{"sessionUpdate":"tool_call_update","status":"completed"}}}"#,
        r#"{"method":"session/update"}"#,
    ] {
        assert!(nothing(&mgr.process_message_at(OUT, line, 1)), "{}", line);
    }
    let t = mgr.process_message_at(OUT, r#"{"id":1,"result":{}}"#, 2);
    assert_eq!(count_of(&t.closed[0], "gen_ai.output.messages"), 0);
    assert_eq!(count_of(&t.closed[0], "acp.time_to_first_token_ms"), 0);
}

#[test]
fn a_new_prompt_forgets_the_output_of_the_last_one() {
    let mut mgr = manager(true);
    mgr.process_message_at(IN, r#"{"id":1,"method":"session/prompt","params":{"sessionId":"s1"}}"#, 0);
    mgr.process_message_at(OUT, &chunk("s1", "one"), 1);
    mgr.process_message_at(OUT, r#"{"id":1,"result":{"stopReason":"end_turn"}}"#, 2);
    mgr.process_message_at(IN, r#"{"id":2,"method":"session/prompt","params":{"sessionId":"s1"}}"#, 10);
    mgr.process_message_at(
        OUT,
        r#"{"method":"session/update","params":{"sessionId":"s1","update":{"sessionUpdate":"agent_message_chunk"}}}"#,
        13,
    );
    mgr.process_message_at(OUT, &chunk("s1", "two"), 14);
    mgr.process_message_at(OUT, &chunk("s1", "!"), 15);
    let t = mgr.process_message_at(OUT, r#"{"id":2,"result":{"stopReason":"cancelled"}}"#, 20);
    assert_eq!(
        text_of(&t.closed[0], "gen_ai.output.messages"),
        Some(chat_text("assistant", "two!", Some("cancelled")).as_str())
    );
    assert_eq!(t.measurements[0].nanos, 3);
    assert_eq!(t.measurements[1].nanos, 10);
    assert_eq!(mgr.sessions(), 1);
}

#[test]
fn chat_text_is_compact_json_with_escapes() {
    assert_eq!(
        chat_text("user", "a\"b\\c\n", None),
        r#"[{"parts":[{"content":"a\"b\\c\n","type":"text"}],"role":"user"}]"#
    );
    assert_eq!(
        chat_text("assistant", "", Some("length")),
        r#"[{"finish_reason":"length","parts":[{"content":"","type":"text"}],"role":"assistant"}]"#
    );
}

fn wait_for_the_clock(clock: &Clock) -> u64 {
    let from = clock.reading();
    let mut now = clock.reading();
    let mut rounds: u64 = 0;
    while now == from && rounds < 1_000_000_000 {
        now = clock.reading();
        rounds += 1;
    }
    now - from
}

#[test]
fn process_message_reads_the_clock() {
    let clock = Clock::start();
    let mut mgr = manager(false);
    assert!(nothing(&mgr.process_message(IN, r#"{"id":1,"method":"session/prompt","params":{"sessionId":"s1"}}"#)));
    let first = wait_for_the_clock(&clock);
    assert!(first > 0);
    assert!(nothing(&mgr.process_message(OUT, &chunk("s1", "x"))));
    let second = wait_for_the_clock(&clock);
    let t = mgr.process_message(OUT, r#"{"id":1,"result":{}}"#);
    assert_eq!(t.measurements.len(), 2);
    assert!(t.measurements[0].nanos >= first);
    assert!(t.measurements[1].nanos >= first + second);
    assert!(t.measurements[0].nanos < t.measurements[1].nanos);
    assert!(t.measurements[1].nanos <= clock.reading());
}

#[test]
fn handlers_can_be_driven_directly() {
    let mut mgr = manager(false);
    let t = mgr.handle_request(IN, value("5"), "session/new", &value("{}"), 0);
    assert!(nothing(&t));
    let t = mgr.handle_notification(OUT, "session/update", &value(r#"{"sessionId":"s"}"#), 0);
    assert!(nothing(&t));
    let err = value(r#"{"code":1}"#);
    let t = mgr.handle_response(value("5"), None, Some(&err), 0);
    assert_eq!(t.closed.len(), 1);
    assert_eq!(t.closed[0].error, Some(r#"{"code":1}"#.to_string()));
    let a = Attribute::integer("k", 4);
    assert_eq!(a.value, AttributeValue::Integer(4));
    let mut out = Telemetry::new();
    out.measure(Instrument::OperationDuration, 1, "op");
    assert_eq!(out.measurements.len(), 1);
}

#[test]
fn readings_are_capped_at_the_largest_count() {
    assert_eq!(capped(0), 0);
    assert_eq!(capped(1_500_000_000), 1_500_000_000);
    assert_eq!(capped(u64::MAX as u128), u64::MAX);
    assert_eq!(capped(u64::MAX as u128 + 1), u64::MAX);
    assert_eq!(capped(u128::MAX), u64::MAX);
}
