use acp_traces::acp::{
    classify, extract_agent_info, extract_chunk_text, extract_client_info, extract_prompt_text,
    extract_session_id, extract_stop_reason, extract_tool_call_id, extract_tool_call_kind,
    extract_tool_call_status, extract_tool_call_title, extract_update_member, extract_update_type,
    is_fs_or_terminal_method, map_stop_reason_to_finish_reason, map_tool_kind_to_type, parse,
    Direction, MessageType,
};
use acp_traces::text::{joined, same_text};
use serde_json::Value;

fn value(text: &str) -> Value {
    serde_json::from_str(text).unwrap()
}

#[test]
fn parse_request() {
    let line = r#"{"jsonrpc":"2.0","id":1,"method":"initialize","params":{"protocolVersion":1}}"#;
    match parse(line).unwrap() {
        MessageType::Request { id, method, params } => {
            assert_eq!(id, 1);
            assert_eq!(method, "initialize");
            assert_eq!(params["protocolVersion"], 1);
        }
        _ => panic!("expected request"),
    }
}

#[test]
fn parse_response() {
    let line = r#"{"jsonrpc":"2.0","id":1,"result":{"protocolVersion":1}}"#;
    match parse(line).unwrap() {
        MessageType::Response { id, result, error } => {
            assert_eq!(id, 1);
            assert!(result.is_some());
            assert!(error.is_none());
        }
        _ => panic!("expected response"),
    }
}

#[test]
fn parse_notification() {
    let line = r#"{"jsonrpc":"2.0","method":"session/update","params":{"sessionId":"s1","update":{"sessionUpdate":"agent_message_chunk","content":{"type":"text","text":"hello"}}}}"#;
    match parse(line).unwrap() {
        MessageType::Notification { method, params } => {
            assert_eq!(method, "session/update");
            assert_eq!(extract_update_type(&params), Some("agent_message_chunk"));
            assert_eq!(extract_chunk_text(&params), Some("hello"));
        }
        _ => panic!("expected notification"),
    }
}

#[test]
fn parse_error_response() {
    let line = r#"{"jsonrpc":"2.0","id":2,"error":{"code":-32600,"message":"Invalid Request"}}"#;
    match parse(line).unwrap() {
        MessageType::Response { error, .. } => {
            let err = error.unwrap();
            assert_eq!(err["code"], -32600);
        }
        _ => panic!("expected response"),
    }
}

#[test]
fn extract_prompt() {
    let params: Value = serde_json::from_str(r#"{"sessionId":"s1","prompt":[{"type":"text","text":"fix the bug"},{"type":"resource","resource":{"uri":"file:///main.rs","text":"fn main() {}"}}]}"#).unwrap();
    assert_eq!(extract_prompt_text(&params), Some("fix the bug".to_string()));
    assert_eq!(extract_session_id(&params), Some("s1"));
}

#[test]
fn tool_kind_mapping() {
    assert_eq!(map_tool_kind_to_type("read"), "datastore");
    assert_eq!(map_tool_kind_to_type("search"), "datastore");
    assert_eq!(map_tool_kind_to_type("fetch"), "datastore");
    assert_eq!(map_tool_kind_to_type("edit"), "extension");
    assert_eq!(map_tool_kind_to_type("think"), "extension");
    assert_eq!(map_tool_kind_to_type("execute"), "extension");
    assert_eq!(map_tool_kind_to_type("unknown"), "extension");
}

#[test]
fn agent_info_extraction() {
    let result: Value = serde_json::from_str(r#"{"protocolVersion":1,"agentInfo":{"name":"kiro","title":"Kiro","version":"1.25.0"}}"#).unwrap();
    let (name, version) = extract_agent_info(&result).unwrap();
    assert_eq!(name, "kiro");
    assert_eq!(version, Some("1.25.0"));
}

#[test]
fn fs_method_detection() {
    assert!(is_fs_or_terminal_method("fs/read_text_file"));
    assert!(is_fs_or_terminal_method("terminal/create"));
    assert!(!is_fs_or_terminal_method("session/prompt"));
}

#[test]
fn every_fs_and_terminal_method_is_detected() {
    for method in [
        "fs/read_text_file",
        "fs/write_text_file",
        "terminal/create",
        "terminal/write",
        "terminal/resize",
        "terminal/release",
    ] {
        assert!(is_fs_or_terminal_method(method), "{}", method);
    }
    assert!(!is_fs_or_terminal_method("terminal/kill"));
    assert!(!is_fs_or_terminal_method("fs/read_text_file "));
    assert!(!is_fs_or_terminal_method(""));
}

#[test]
fn remaining_tool_kinds_are_extensions() {
    for kind in ["delete", "move", "other", "", "READ", "reads"] {
        assert_eq!(map_tool_kind_to_type(kind), "extension", "{}", kind);
    }
}

#[test]
fn unknown_stop_reason_falls_back() {
    assert_eq!(map_stop_reason_to_finish_reason("something_else"), "error");
    assert_eq!(map_stop_reason_to_finish_reason(""), "error");
    assert_eq!(map_stop_reason_to_finish_reason("End_Turn"), "error");
}

#[test]
fn lines_that_are_no_message_give_nothing() {
    assert!(parse("").is_none());
    assert!(parse("not json").is_none());
    assert!(parse("{\"id\":1").is_none());
    assert!(parse("[1,2,3]").is_none());
    assert!(parse("\"method\"").is_none());
    assert!(parse("42").is_none());
    assert!(parse("null").is_none());
    assert!(parse("{}").is_none());
    assert!(parse(r#"{"jsonrpc":"2.0","params":{}}"#).is_none());
    assert!(parse(r#"{"id":1} trailing"#).is_none());
}

#[test]
fn request_without_params_has_null_params() {
    match parse(r#"{"id":"a","method":"session/new"}"#).unwrap() {
        MessageType::Request { id, method, params } => {
            assert_eq!(id, Value::String("a".to_string()));
            assert_eq!(method, "session/new");
            assert_eq!(params, Value::Null);
        }
        _ => panic!("expected request"),
    }
    match parse(r#"{"method":"session/cancel"}"#).unwrap() {
        MessageType::Notification { method, params } => {
            assert_eq!(method, "session/cancel");
            assert_eq!(params, Value::Null);
        }
        _ => panic!("expected notification"),
    }
}

#[test]
fn method_that_is_no_string_is_no_method() {
    match parse(r#"{"id":7,"method":12,"result":true}"#).unwrap() {
        MessageType::Response { id, result, error } => {
            assert_eq!(id, 7);
            assert_eq!(result, Some(Value::Bool(true)));
            assert_eq!(error, None);
        }
        _ => panic!("expected response"),
    }
    assert!(parse(r#"{"method":12}"#).is_none());
}

#[test]
fn response_mirrors_result_and_error() {
    match parse(r#"{"id":3,"result":null,"error":{"code":1}}"#).unwrap() {
        MessageType::Response { id, result, error } => {
            assert_eq!(id, 3);
            assert_eq!(result, Some(Value::Null));
            assert_eq!(error, Some(value(r#"{"code":1}"#)));
        }
        _ => panic!("expected response"),
    }
}

#[test]
fn null_id_still_counts_as_id() {
    match parse(r#"{"id":null,"method":"m","params":[1]}"#).unwrap() {
        MessageType::Request { id, method, params } => {
            assert_eq!(id, Value::Null);
            assert_eq!(method, "m");
            assert_eq!(params, value("[1]"));
        }
        _ => panic!("expected request"),
    }
}

#[test]
fn classify_agrees_with_parse() {
    let v = value(r#"{"id":5,"method":"fs/read_text_file","params":{"path":"/x"}}"#);
    match classify(&v).unwrap() {
        MessageType::Request { id, method, params } => {
            assert_eq!(id, 5);
            assert_eq!(method, "fs/read_text_file");
            assert_eq!(params, value(r#"{"path":"/x"}"#));
        }
        _ => panic!("expected request"),
    }
    assert!(classify(&value("[]")).is_none());
    assert!(classify(&value("{}")).is_none());
}

#[test]
fn prompt_text_joins_text_blocks_with_newlines() {
    let params = value(
        r#"{"prompt":[{"type":"text","text":"one"},{"type":"image","text":"skipped"},{"type":"text","text":"two"},{"type":"text","text":""},{"type":"text"},{"text":"no type"},{"type":"text","text":3}]}"#,
    );
    assert_eq!(extract_prompt_text(&params), Some("one\ntwo\n".to_string()));
}

#[test]
fn prompt_text_is_absent_without_text_blocks() {
    assert_eq!(extract_prompt_text(&value(r#"{"prompt":[]}"#)), None);
    assert_eq!(extract_prompt_text(&value(r#"{"prompt":[{"type":"resource"}]}"#)), None);
    assert_eq!(extract_prompt_text(&value(r#"{"prompt":"text"}"#)), None);
    assert_eq!(extract_prompt_text(&value(r#"{"prompt":{"type":"text","text":"x"}}"#)), None);
    assert_eq!(extract_prompt_text(&value(r#"{}"#)), None);
    assert_eq!(extract_prompt_text(&value(r#"null"#)), None);
    assert_eq!(extract_prompt_text(&value(r#"[{"type":"text","text":"x"}]"#)), None);
}

#[test]
fn single_empty_text_block_is_a_prompt() {
    assert_eq!(
        extract_prompt_text(&value(r#"{"prompt":[{"type":"text","text":""}]}"#)),
        Some(String::new())
    );
}

#[test]
fn extractors_give_nothing_on_wrong_types() {
    let params = value(
        r#"{"sessionId":5,"update":{"sessionUpdate":true,"content":"text","toolCallId":[],"title":{},"kind":1,"status":null}}"#,
    );
    assert_eq!(extract_session_id(&params), None);
    assert_eq!(extract_update_type(&params), None);
    assert_eq!(extract_chunk_text(&params), None);
    assert_eq!(extract_tool_call_id(&params), None);
    assert_eq!(extract_tool_call_title(&params), None);
    assert_eq!(extract_tool_call_kind(&params), None);
    assert_eq!(extract_tool_call_status(&params), None);
    assert_eq!(extract_stop_reason(&params), None);
    assert_eq!(extract_agent_info(&params), None);
    assert_eq!(extract_client_info(&params), None);
    let scalar = value("17");
    assert_eq!(extract_session_id(&scalar), None);
    assert_eq!(extract_update_type(&scalar), None);
    assert!(extract_update_member(&scalar, "rawInput").is_none());
}

#[test]
fn tool_call_fields_are_read_from_the_update() {
    let params = value(
        r#"{"sessionId":"s9","update":{"sessionUpdate":"tool_call","toolCallId":"t1","title":"Read file","kind":"read","status":"pending","rawInput":{"path":"/a"}}}"#,
    );
    assert_eq!(extract_session_id(&params), Some("s9"));
    assert_eq!(extract_update_type(&params), Some("tool_call"));
    assert_eq!(extract_tool_call_id(&params), Some("t1"));
    assert_eq!(extract_tool_call_title(&params), Some("Read file"));
    assert_eq!(extract_tool_call_kind(&params), Some("read"));
    assert_eq!(extract_tool_call_status(&params), Some("pending"));
    assert_eq!(extract_update_member(&params, "rawInput"), Some(&value(r#"{"path":"/a"}"#)));
    assert_eq!(extract_update_member(&params, "rawOutput"), None);
}

#[test]
fn identity_needs_a_name_and_may_have_a_version() {
    let params = value(r#"{"clientInfo":{"name":"zed"}}"#);
    assert_eq!(extract_client_info(&params), Some(("zed", None)));
    let params = value(r#"{"clientInfo":{"name":"zed","version":"0.200"}}"#);
    assert_eq!(extract_client_info(&params), Some(("zed", Some("0.200"))));
    let params = value(r#"{"clientInfo":{"name":"zed","version":2}}"#);
    assert_eq!(extract_client_info(&params), Some(("zed", None)));
    let params = value(r#"{"clientInfo":{"version":"0.200"}}"#);
    assert_eq!(extract_client_info(&params), None);
    let params = value(r#"{"agentInfo":{"name":"kiro"}}"#);
    assert_eq!(extract_client_info(&params), None);
    assert_eq!(extract_agent_info(&params), Some(("kiro", None)));
}

#[test]
fn stop_reason_is_read_from_the_result() {
    assert_eq!(extract_stop_reason(&value(r#"{"stopReason":"end_turn"}"#)), Some("end_turn"));
    assert_eq!(extract_stop_reason(&value(r#"{"stopReason":1}"#)), None);
    assert_eq!(extract_stop_reason(&value(r#"{}"#)), None);
}

#[test]
fn directions_compare_by_variant() {
    assert_eq!(Direction::EditorToAgent, Direction::EditorToAgent);
    assert_ne!(Direction::EditorToAgent, Direction::AgentToEditor);
    let copy = Direction::AgentToEditor;
    assert_eq!(copy, Direction::AgentToEditor);
}

#[test]
fn texts_compare_by_their_characters() {
    assert!(same_text("", ""));
    assert!(same_text("session/update", "session/update"));
    assert!(!same_text("session/update", "session/updat"));
    assert!(!same_text("a", "b"));
    assert!(!same_text("é", "e"));
    assert!(same_text("日本語", "日本語"));
    assert_eq!(joined("execute_tool ", "Read"), "execute_tool Read");
    assert_eq!(joined("", ""), "");
}
