//! The message classifier: one line of the conversation becomes a request, a
//! response or a notification, and the fields that telemetry needs are read
//! out of its payload. Nothing here keeps state.

use crate::json::{
    as_items, as_text, document, duplicate, member, null_value, parse_value, parsed, Document,
};
use crate::text::{chars, same_text};
use serde_json::Value;
use vstd::prelude::*;
use vstd::string::*;

verus! {

/// Which way a line travelled.
#[derive(Debug, Clone, Copy, PartialEq, Eq, Structural)]
pub enum Direction {
    EditorToAgent,
    AgentToEditor,
}

/// A classified line.
#[derive(Debug)]
pub enum MessageType {
    Request { id: Value, method: String, params: Value },
    Response { id: Value, result: Option<Value>, error: Option<Value> },
    Notification { method: String, params: Value },
}

/// A classified line over documents.
pub ghost enum Message {
    Request { id: Document, method: Seq<char>, params: Document },
    Response { id: Document, result: Option<Document>, error: Option<Document> },
    Notification { method: Seq<char>, params: Document },
}

/// The document that a value holds, where there is a value.
pub open spec fn document_of(v: Option<Value>) -> Option<Document> {
    match v {
        Some(v) => Some(document(v)),
        None => None,
    }
}

/// The document that a value holds, where there is a reference to one.
pub open spec fn document_at(v: Option<&Value>) -> Option<Document> {
    match v {
        Some(v) => Some(document(*v)),
        None => None,
    }
}

impl View for MessageType {
    type V = Message;

    open spec fn view(&self) -> Message {
        match *self {
            MessageType::Request { id, method, params } => Message::Request {
                id: document(id),
                method: method@,
                params: document(params),
            },
            MessageType::Response { id, result, error } => Message::Response {
                id: document(id),
                result: document_of(result),
                error: document_of(error),
            },
            MessageType::Notification { method, params } => Message::Notification {
                method: method@,
                params: document(params),
            },
        }
    }
}

/// The message that a classified line stands for, where there is one.
pub open spec fn message_of(m: Option<MessageType>) -> Option<Message> {
    match m {
        Some(m) => Some(m@),
        None => None,
    }
}

/// The text of a member that is a string.
pub open spec fn text_member(d: Document, key: Seq<char>) -> Option<Seq<char>> {
    match d.member(key) {
        Some(m) => m.text(),
        None => None,
    }
}

/// The payload of a request or notification: its `params`, or null.
pub open spec fn payload(d: Document) -> Document {
    match d.member("params"@) {
        Some(p) => p,
        None => Document::Null,
    }
}

/// How a document is classified. With a string `method` it is a request where
/// it has an `id` and a notification where it has none; without one it is a
/// response where it has an `id`; everything else, and so everything that is
/// no object, is nothing.
pub open spec fn classified(d: Document) -> Option<Message> {
    match (text_member(d, "method"@), d.member("id"@)) {
        (Some(method), Some(id)) => Some(Message::Request { id, method, params: payload(d) }),
        (Some(method), None) => Some(Message::Notification { method, params: payload(d) }),
        (None, Some(id)) => Some(
            Message::Response { id, result: d.member("result"@), error: d.member("error"@) },
        ),
        (None, None) => None,
    }
}

/// A copy of a member, where the object has it.
fn member_copy(v: &Value, key: &str) -> (r: Option<Value>)
    ensures
        document_of(r) == document(*v).member(key@),
{
    match member(v, key) {
        Some(m) => Some(duplicate(m)),
        None => None,
    }
}

/// The text of a member that is a string.
fn member_text<'a>(v: &'a Value, key: &str) -> (r: Option<&'a str>)
    ensures
        chars(r) == text_member(document(*v), key@),
{
    match member(v, key) {
        Some(m) => as_text(m),
        None => None,
    }
}

/// Classifies a JSON value.
pub fn classify(v: &Value) -> (r: Option<MessageType>)
    ensures
        message_of(r) == classified(document(*v)),
{
    match member_text(v, "method") {
        Some(method) => {
            let params = match member(v, "params") {
                Some(p) => duplicate(p),
                None => null_value(),
            };
            match member(v, "id") {
                Some(id) => Some(
                    MessageType::Request { id: duplicate(id), method: method.to_owned(), params },
                ),
                None => Some(MessageType::Notification { method: method.to_owned(), params }),
            }
        },
        None => match member(v, "id") {
            Some(id) => Some(
                MessageType::Response {
                    id: duplicate(id),
                    result: member_copy(v, "result"),
                    error: member_copy(v, "error"),
                },
            ),
            None => None,
        },
    }
}

/// Classifies one line of text: nothing where the line is not JSON, else what
/// `classify` makes of the document it denotes.
pub fn parse(line: &str) -> (r: Option<MessageType>)
    ensures
        match parsed(line@) {
            Some(d) => message_of(r) == classified(d),
            None => r is None,
        },
{
    match parse_value(line) {
        Some(v) => classify(&v),
        None => None,
    }
}

/// The session that a payload names.
pub open spec fn session_id(params: Document) -> Option<Seq<char>> {
    text_member(params, "sessionId"@)
}

/// A member of a payload's `update` object.
pub open spec fn update_member(params: Document, field: Seq<char>) -> Option<Document> {
    match params.member("update"@) {
        Some(update) => update.member(field),
        None => None,
    }
}

/// The text of a member of a payload's `update` object.
pub open spec fn update_text(params: Document, field: Seq<char>) -> Option<Seq<char>> {
    match update_member(params, field) {
        Some(m) => m.text(),
        None => None,
    }
}

/// The text of a streamed chunk: `update.content.text`.
pub open spec fn chunk_text(params: Document) -> Option<Seq<char>> {
    match update_member(params, "content"@) {
        Some(content) => text_member(content, "text"@),
        None => None,
    }
}

/// The name, and the version where one is given, under `holder`.
pub open spec fn identity(d: Document, holder: Seq<char>) -> Option<
    (Seq<char>, Option<Seq<char>>),
> {
    match d.member(holder) {
        Some(info) => match text_member(info, "name"@) {
            Some(name) => Some((name, text_member(info, "version"@))),
            None => None,
        },
        None => None,
    }
}

/// The characters of a name and version as the extractors hand them out.
pub open spec fn identity_chars(r: Option<(&str, Option<&str>)>) -> Option<
    (Seq<char>, Option<Seq<char>>),
> {
    match r {
        Some((name, version)) => Some((name@, chars(version))),
        None => None,
    }
}

/// The text of a prompt block: that of its `text` member where its `type` is
/// the string `text`.
pub open spec fn block_text(block: Document) -> Option<Seq<char>> {
    if text_member(block, "type"@) == Some("text"@) {
        text_member(block, "text"@)
    } else {
        None
    }
}

/// The texts of the text blocks among `blocks`, in their order.
pub open spec fn block_texts(blocks: Seq<Document>) -> Seq<Seq<char>>
    decreases blocks.len(),
{
    if blocks.len() == 0 {
        seq![]
    } else {
        let before = block_texts(blocks.drop_last());
        match block_text(blocks.last()) {
            Some(t) => before.push(t),
            None => before,
        }
    }
}

/// The texts joined by single newlines.
pub open spec fn lines(texts: Seq<Seq<char>>) -> Seq<char>
    decreases texts.len(),
{
    if texts.len() == 0 {
        seq![]
    } else if texts.len() == 1 {
        texts[0]
    } else {
        lines(texts.drop_last()) + seq!['\n'] + texts.last()
    }
}

/// The text of a prompt: the text blocks of an array-valued `prompt`, joined by
/// newlines; nothing where there is no such array or no text block in it.
pub open spec fn prompt_text(params: Document) -> Option<Seq<char>> {
    match params.member("prompt"@) {
        Some(prompt) => match prompt.items() {
            Some(blocks) => if block_texts(blocks).len() == 0 {
                None
            } else {
                Some(lines(block_texts(blocks)))
            },
            None => None,
        },
        None => None,
    }
}

/// The session that a payload names: its `sessionId`, where that is a string.
pub fn extract_session_id(params: &Value) -> (r: Option<&str>)
    ensures
        chars(r) == session_id(document(*params)),
{
    member_text(params, "sessionId")
}

/// A member of the payload's `update` object.
pub fn extract_update_member<'a>(params: &'a Value, field: &str) -> (r: Option<&'a Value>)
    ensures
        r matches Some(m) ==> update_member(document(*params), field@) == Some(document(*m)),
        r is None ==> update_member(document(*params), field@) is None,
{
    match member(params, "update") {
        Some(update) => member(update, field),
        None => None,
    }
}

fn extract_update_text<'a>(params: &'a Value, field: &str) -> (r: Option<&'a str>)
    ensures
        chars(r) == update_text(document(*params), field@),
{
    match extract_update_member(params, field) {
        Some(m) => as_text(m),
        None => None,
    }
}

/// One step of reading a prompt's blocks: the text of a text block is added to
/// what was gathered, after a newline where something was.
fn append_block(out: &mut String, found: &mut bool, block: &Value)
    requires
        *old(found) || old(out)@.len() == 0,
    ensures
        match block_text(document(*block)) {
            Some(t) => *final(found) && final(out)@ == (if *old(found) {
                old(out)@ + seq!['\n'] + t
            } else {
                t
            }),
            None => *final(found) == *old(found) && final(out)@ == old(out)@,
        },
{
    let is_text = match member_text(block, "type") {
        Some(kind) => same_text(kind, "text"),
        None => false,
    };
    if is_text {
        match member_text(block, "text") {
            Some(t) => {
                if *found {
                    proof {
                        reveal_strlit("\n");
                        assert("\n"@ =~= seq!['\n']);
                    }
                    out.append("\n");
                }
                out.append(t);
                *found = true;
                assert(out@ =~= (if *old(found) {
                    old(out)@ + seq!['\n'] + t@
                } else {
                    t@
                }));
            },
            None => {},
        }
    }
}

/// The text of a prompt: the text blocks of its `prompt` array, joined by
/// newlines; nothing where there is no such array or no text block in it.
pub fn extract_prompt_text(params: &Value) -> (r: Option<String>)
    ensures
        match r {
            Some(text) => prompt_text(document(*params)) == Some(text@),
            None => prompt_text(document(*params)) is None,
        },
{
    let blocks = match member(params, "prompt") {
        Some(prompt) => match as_items(prompt) {
            Some(blocks) => blocks,
            None => { return None; },
        },
        None => { return None; },
    };
    let ghost docs = blocks@.map_values(|x: Value| document(x));
    let mut out = String::new();
    let mut found = false;
    let mut i: usize = 0;
    while i < blocks.len()
        invariant
            i <= blocks.len(),
            docs == blocks@.map_values(|x: Value| document(x)),
            found == (block_texts(docs.take(i as int)).len() > 0),
            out@ == lines(block_texts(docs.take(i as int))),
        decreases blocks.len() - i,
    {
        proof {
            let next = docs.take(i + 1);
            assert(next.drop_last() =~= docs.take(i as int));
            assert(next.last() == document(blocks@[i as int]));
            let before = block_texts(docs.take(i as int));
            match block_text(next.last()) {
                Some(t) => {
                    assert(before.push(t).drop_last() =~= before);
                },
                None => {},
            }
        }
        append_block(&mut out, &mut found, &blocks[i]);
        i += 1;
    }
    proof {
        assert(docs.take(blocks.len() as int) =~= docs);
    }
    if found {
        Some(out)
    } else {
        None
    }
}

/// The kind of a session update: `update.sessionUpdate`.
pub fn extract_update_type(params: &Value) -> (r: Option<&str>)
    ensures
        chars(r) == update_text(document(*params), "sessionUpdate"@),
{
    extract_update_text(params, "sessionUpdate")
}

/// The text of a streamed chunk: `update.content.text`.
pub fn extract_chunk_text(params: &Value) -> (r: Option<&str>)
    ensures
        chars(r) == chunk_text(document(*params)),
{
    match extract_update_member(params, "content") {
        Some(content) => member_text(content, "text"),
        None => None,
    }
}

/// The id of a tool call: `update.toolCallId`.
pub fn extract_tool_call_id(params: &Value) -> (r: Option<&str>)
    ensures
        chars(r) == update_text(document(*params), "toolCallId"@),
{
    extract_update_text(params, "toolCallId")
}

/// The title of a tool call: `update.title`.
pub fn extract_tool_call_title(params: &Value) -> (r: Option<&str>)
    ensures
        chars(r) == update_text(document(*params), "title"@),
{
    extract_update_text(params, "title")
}

/// The kind of a tool call: `update.kind`.
pub fn extract_tool_call_kind(params: &Value) -> (r: Option<&str>)
    ensures
        chars(r) == update_text(document(*params), "kind"@),
{
    extract_update_text(params, "kind")
}

/// The status of a tool call: `update.status`.
pub fn extract_tool_call_status(params: &Value) -> (r: Option<&str>)
    ensures
        chars(r) == update_text(document(*params), "status"@),
{
    extract_update_text(params, "status")
}

/// The name and version under `holder`.
fn extract_identity<'a>(d: &'a Value, holder: &str) -> (r: Option<(&'a str, Option<&'a str>)>)
    ensures
        identity_chars(r) == identity(document(*d), holder@),
{
    let info = match member(d, holder) {
        Some(info) => info,
        None => { return None; },
    };
    match member_text(info, "name") {
        Some(name) => Some((name, member_text(info, "version"))),
        None => None,
    }
}

/// The agent's name, and its version where one is given, from the result of
/// `initialize`.
pub fn extract_agent_info(result: &Value) -> (r: Option<(&str, Option<&str>)>)
    ensures
        identity_chars(r) == identity(document(*result), "agentInfo"@),
{
    extract_identity(result, "agentInfo")
}

/// The client's name, and its version where one is given, from the payload of
/// `initialize`.
pub fn extract_client_info(params: &Value) -> (r: Option<(&str, Option<&str>)>)
    ensures
        identity_chars(r) == identity(document(*params), "clientInfo"@),
{
    extract_identity(params, "clientInfo")
}

/// Why the agent stopped: the `stopReason` of a prompt's result.
pub fn extract_stop_reason(result: &Value) -> (r: Option<&str>)
    ensures
        chars(r) == text_member(document(*result), "stopReason"@),
{
    member_text(result, "stopReason")
}

/// The telemetry tool type of a tool kind: reading kinds are a data store,
/// every other kind, known or not, is an extension.
pub open spec fn tool_type(kind: Seq<char>) -> Seq<char> {
    if kind == "read"@ || kind == "search"@ || kind == "fetch"@ {
        "datastore"@
    } else {
        "extension"@
    }
}

/// The telemetry tool type of a tool kind: `datastore` for `read`, `search` and
/// `fetch`, `extension` for every other input.
pub fn map_tool_kind_to_type(kind: &str) -> (r: &'static str)
    ensures
        r@ == tool_type(kind@),
{
    if same_text(kind, "read") || same_text(kind, "search") || same_text(kind, "fetch") {
        "datastore"
    } else {
        "extension"
    }
}

/// Whether a method is one of the file-system and terminal methods that the
/// agent asks the editor to run.
pub open spec fn fs_or_terminal(method: Seq<char>) -> bool {
    ||| method == "fs/read_text_file"@
    ||| method == "fs/write_text_file"@
    ||| method == "terminal/create"@
    ||| method == "terminal/write"@
    ||| method == "terminal/resize"@
    ||| method == "terminal/release"@
}

/// Whether a method is exactly one of the six file-system and terminal
/// methods.
pub fn is_fs_or_terminal_method(method: &str) -> (r: bool)
    ensures
        r == fs_or_terminal(method@),
{
    same_text(method, "fs/read_text_file") || same_text(method, "fs/write_text_file")
        || same_text(method, "terminal/create") || same_text(method, "terminal/write")
        || same_text(method, "terminal/resize") || same_text(method, "terminal/release")
}

/// The finish reason that a stop reason is reported as.
pub open spec fn finish_reason(stop: Seq<char>) -> Seq<char> {
    if stop == "end_turn"@ {
        "stop"@
    } else if stop == "max_tokens"@ || stop == "max_turn_requests"@ {
        "length"@
    } else if stop == "refusal"@ {
        "content_filter"@
    } else if stop == "cancelled"@ {
        "cancelled"@
    } else {
        "error"@
    }
}

/// The finish reason that a stop reason is recorded as; `error` for a stop
/// reason that is not known.
pub fn map_stop_reason_to_finish_reason(reason: &str) -> (r: &'static str)
    ensures
        r@ == finish_reason(reason@),
{
    if same_text(reason, "end_turn") {
        "stop"
    } else if same_text(reason, "max_tokens") || same_text(reason, "max_turn_requests") {
        "length"
    } else if same_text(reason, "refusal") {
        "content_filter"
    } else if same_text(reason, "cancelled") {
        "cancelled"
    } else {
        "error"
    }
}

} // verus!
