use acp_traces::acp::map_stop_reason_to_finish_reason;
use acp_traces::acp::Direction;
use acp_traces::genai::chat_text;
use acp_traces::spans::SpanManager;
use opentelemetry::global::BoxedTracer;
use opentelemetry::trace::{Span, SpanKind, Status, TraceContextExt, Tracer, TracerProvider};
use opentelemetry::Value as AttributeValue;
use opentelemetry_sdk::trace::{SdkTracerProvider, SpanData};
use std::sync::{Arc, Mutex};

#[derive(Clone, Debug)]
struct TestExporter {
    spans: Arc<Mutex<Vec<SpanData>>>,
}

impl TestExporter {
    fn new() -> Self {
        Self {
            spans: Arc::new(Mutex::new(Vec::new())),
        }
    }
    fn spans(&self) -> Vec<SpanData> {
        self.spans.lock().unwrap().clone()
    }
}

impl opentelemetry_sdk::trace::SpanExporter for TestExporter {
    fn export(
        &mut self,
        batch: Vec<SpanData>,
    ) -> std::pin::Pin<
        Box<dyn std::future::Future<Output = opentelemetry_sdk::error::OTelSdkResult> + Send>,
    > {
        self.spans.lock().unwrap().extend(batch);
        Box::pin(std::future::ready(Ok(())))
    }
}

fn setup() -> (SdkTracerProvider, TestExporter) {
    let exporter = TestExporter::new();
    let provider = SdkTracerProvider::builder()
        .with_simple_exporter(exporter.clone())
        .build();
    (provider, exporter)
}

fn manager(provider: &SdkTracerProvider, record_content: bool) -> SpanManager {
    SpanManager::new(BoxedTracer::new(Box::new(provider.tracer("test"))), record_content)
}

fn attribute(span: &SpanData, key: &str) -> Option<AttributeValue> {
    span.attributes
        .iter()
        .find(|kv| kv.key.as_str() == key)
        .map(|kv| kv.value.clone())
}

fn text(s: &str) -> Option<AttributeValue> {
    Some(AttributeValue::from(s.to_string()))
}

#[test]
fn child_span_shares_trace_id_with_parent_via_remote_context() {
    let (provider, exporter) = setup();
    let tracer = provider.tracer("test");

    let parent = tracer
        .span_builder("invoke_agent")
        .with_kind(SpanKind::Client)
        .start(&tracer);
    let parent_sc = parent.span_context().clone();
    let parent_trace_id = parent_sc.trace_id();
    let parent_span_id = parent_sc.span_id();

    let parent_cx = opentelemetry::Context::new().with_remote_span_context(parent_sc);
    let child = tracer
        .span_builder("execute_tool")
        .with_kind(SpanKind::Internal)
        .start_with_context(&tracer, &parent_cx);
    let child_trace_id = child.span_context().trace_id();

    assert_eq!(
        parent_trace_id, child_trace_id,
        "child must share parent trace ID"
    );

    drop(child);
    drop(parent);
    let _ = provider.force_flush();

    let spans = exporter.spans();
    assert_eq!(spans.len(), 2);
    let child_data = spans.iter().find(|s| s.name == "execute_tool").unwrap();
    assert_eq!(
        child_data.parent_span_id, parent_span_id,
        "child parent_span_id must match"
    );
}

#[test]
fn output_message_includes_finish_reason() {
    let finish = map_stop_reason_to_finish_reason("end_turn");
    let output_msg: serde_json::Value =
        serde_json::from_str(&chat_text("assistant", "Hello", Some(finish))).unwrap();

    let msg = &output_msg[0];
    assert_eq!(msg["role"], "assistant");
    assert_eq!(msg["finish_reason"], "stop");
    assert_eq!(msg["parts"][0]["type"], "text");
    assert_eq!(msg["parts"][0]["content"], "Hello");
}

#[test]
fn finish_reason_mappings() {
    assert_eq!(map_stop_reason_to_finish_reason("end_turn"), "stop");
    assert_eq!(map_stop_reason_to_finish_reason("max_tokens"), "length");
    assert_eq!(
        map_stop_reason_to_finish_reason("max_turn_requests"),
        "length"
    );
    assert_eq!(
        map_stop_reason_to_finish_reason("refusal"),
        "content_filter"
    );
    assert_eq!(map_stop_reason_to_finish_reason("cancelled"), "cancelled");
}

#[test]
fn exported_spans_form_one_trace_under_the_root() {
    let (provider, exporter) = setup();
    let mut mgr = manager(&provider, true);
    let d = Direction::EditorToAgent;
    mgr.process_message(d, r#"{"id":1,"method":"initialize","params":{"clientInfo":{"name":"zed"}}}"#);
    mgr.process_message(d, r#"{"id":1,"result":{"protocolVersion":1,"agentInfo":{"name":"kiro","version":"1.0"}}}"#);
    mgr.process_message(d, r#"{"id":2,"method":"session/prompt","params":{"sessionId":"s1","prompt":[{"type":"text","text":"hi"}]}}"#);
    mgr.process_message(d, r#"{"method":"session/update","params":{"sessionId":"s1","update":{"sessionUpdate":"tool_call","toolCallId":"t1","title":"Read","kind":"read"}}}"#);
    mgr.process_message(d, r#"{"method":"session/update","params":{"sessionId":"s1","update":{"sessionUpdate":"tool_call_update","toolCallId":"t1","status":"failed"}}}"#);
    mgr.process_message(d, r#"{"id":2,"result":{"stopReason":"end_turn"}}"#);
    mgr.shutdown();
    let _ = provider.force_flush();

    let spans = exporter.spans();
    let names: Vec<&str> = spans.iter().map(|s| s.name.as_ref()).collect();
    assert_eq!(
        names,
        vec!["initialize", "execute_tool Read", "invoke_agent kiro", "acp_session"]
    );
    let root = &spans[3];
    let prompt = &spans[2];
    let tool = &spans[1];
    let init = &spans[0];
    for s in &spans {
        assert_eq!(s.span_context.trace_id(), root.span_context.trace_id());
    }
    assert_eq!(init.parent_span_id, root.span_context.span_id());
    assert_eq!(prompt.parent_span_id, root.span_context.span_id());
    assert_eq!(tool.parent_span_id, prompt.span_context.span_id());
    assert_eq!(root.parent_span_id, opentelemetry::trace::SpanId::INVALID);

    assert_eq!(root.span_kind, SpanKind::Internal);
    assert_eq!(prompt.span_kind, SpanKind::Client);
    assert_eq!(attribute(root, "acp.method.name"), text("session"));
    assert_eq!(attribute(root, "gen_ai.agent.name"), text("kiro"));
    assert_eq!(attribute(init, "rpc.method"), text("initialize"));
    assert_eq!(attribute(init, "acp.protocol.version"), Some(AttributeValue::I64(1)));
    assert_eq!(attribute(tool, "gen_ai.tool.type"), text("datastore"));
    assert_eq!(attribute(tool, "error.type"), text("tool_error"));
    assert_eq!(tool.status, Status::error("tool call failed"));
    assert_eq!(prompt.status, Status::Unset);
    assert_eq!(
        attribute(prompt, "gen_ai.response.finish_reasons"),
        text("[\"end_turn\"]")
    );
    assert_eq!(
        attribute(prompt, "gen_ai.input.messages"),
        text(r#"[{"parts":[{"content":"hi","type":"text"}],"role":"user"}]"#)
    );
    assert_eq!(attribute(prompt, "acp.client.name"), text("zed"));
}

#[test]
fn shutdown_exports_open_spans_with_their_error() {
    let (provider, exporter) = setup();
    let mut mgr = manager(&provider, false);
    let d = Direction::EditorToAgent;
    mgr.process_message(d, r#"{"id":1,"method":"initialize","params":{}}"#);
    mgr.process_message(d, r#"{"id":2,"method":"session/prompt","params":{"sessionId":"s1"}}"#);
    assert!(exporter.spans().is_empty());
    mgr.shutdown();
    let _ = provider.force_flush();
    let spans = exporter.spans();
    let names: Vec<&str> = spans.iter().map(|s| s.name.as_ref()).collect();
    assert_eq!(names, vec!["invoke_agent", "initialize", "acp_session"]);
    assert_eq!(spans[0].status, Status::error("session ended unexpectedly"));
    assert_eq!(spans[1].status, Status::error("process exited before response"));
    assert_eq!(spans[2].status, Status::Unset);
}
