//! The span manager: it takes the lines of the conversation in the order in
//! which they were seen, keeps the requests, sessions and tool calls that are
//! under way, starts and ends their spans on the tracing back end, and reports
//! what each line closed and measured.

use crate::acp::{
    document_at, extract_agent_info, extract_chunk_text, extract_client_info, extract_prompt_text,
    extract_session_id, extract_stop_reason, extract_tool_call_id, extract_tool_call_kind,
    extract_tool_call_status, extract_tool_call_title, extract_update_member, extract_update_type,
    is_fs_or_terminal_method, map_stop_reason_to_finish_reason, map_tool_kind_to_type, parse,
    tool_type, update_member, Direction, Message, MessageType,
};
use crate::clock::{between, millis, Clock};
use crate::genai::chat_text;
use crate::json::{as_integer, document, member, render};
use crate::laws::order::step_keeps_wf;
use crate::model::{
    agent_attributes, answer_attributes, answer_measurements, blank_session, failed,
    input_attributes, known, pending_span, pending_spans, recorded, root_attributes,
    rpc_attributes, session_spans, sessions_spans, tool_call_attributes, tool_request_attributes,
    ManagerView, Outcome, PendingView, SessionView,
};
use crate::otel::{link_view, live_view, LiveSpan, SpanLink};
use crate::record::{
    attribute_views, telemetry_adds, text_attribute, text_view, Attribute, Instrument,
    MeasurementView, SpanKind, SpanView, Telemetry, TelemetryView,
};
use crate::table::{find, lookup, position_is_first, rows, Entry};
use crate::text::{chars, joined, same_text};
use opentelemetry::global::BoxedTracer;
use serde_json::Value;
use vstd::prelude::*;
use vstd::string::*;

verus! {

/// What is kept of a session from its first prompt on.
struct SessionState {
    prompt_span: Option<LiveSpan>,
    prompt_span_context: Option<SpanLink>,
    prompt_start: Option<u64>,
    first_chunk_time: Option<u64>,
    accumulated_output: String,
    tool_spans: Vec<Entry<LiveSpan>>,
}

impl View for SessionState {
    type V = SessionView;

    closed spec fn view(&self) -> SessionView {
        SessionView {
            prompt: live_view(self.prompt_span),
            link: link_view(self.prompt_span_context),
            prompt_start: self.prompt_start,
            first_chunk: self.first_chunk_time,
            output: self.accumulated_output@,
            tools: rows(self.tool_spans@),
        }
    }
}

/// A request that waits for its response.
struct PendingRequest {
    span: Option<LiveSpan>,
    method: String,
    session_id: Option<String>,
    start: u64,
}

impl View for PendingRequest {
    type V = PendingView;

    closed spec fn view(&self) -> PendingView {
        PendingView {
            span: live_view(self.span),
            method: self.method@,
            session: text_view(self.session_id),
            start: self.start,
        }
    }
}

/// The correlator. It is owned by the one consumer of the tapped lines, so
/// nothing of it is shared or locked.
pub struct SpanManager {
    tracer: BoxedTracer,
    clock: Clock,
    record_content: bool,
    agent_name: Option<String>,
    agent_version: Option<String>,
    client_name: Option<String>,
    client_version: Option<String>,
    protocol_version: Option<i64>,
    sessions: Vec<Entry<SessionState>>,
    pending: Vec<Entry<PendingRequest>>,
    /// Root span for the whole conversation: parents the other spans.
    session_span: Option<LiveSpan>,
    session_span_context: Option<SpanLink>,
    started: u64,
}

impl View for SpanManager {
    type V = ManagerView;

    closed spec fn view(&self) -> ManagerView {
        ManagerView {
            record_content: self.record_content,
            agent_name: text_view(self.agent_name),
            agent_version: text_view(self.agent_version),
            client_name: text_view(self.client_name),
            client_version: text_view(self.client_version),
            protocol_version: self.protocol_version,
            sessions: rows(self.sessions@),
            pending: rows(self.pending@),
            root: live_view(self.session_span),
            root_link: link_view(self.session_span_context),
            started: self.started,
        }
    }
}

/// A copy of a text that may be absent.
fn copy_text(s: &Option<String>) -> (r: Option<String>)
    ensures
        text_view(r) == text_view(*s),
{
    match s {
        Some(s) => Some(s.clone()),
        None => None,
    }
}

/// An owned copy of a text that may be absent.
fn owned(s: Option<&str>) -> (r: Option<String>)
    ensures
        text_view(r) == chars(s),
{
    match s {
        Some(s) => Some(s.to_owned()),
        None => None,
    }
}

/// Ends a span, where there is one, and reports it.
fn finish_any(span: Option<LiveSpan>, out: &mut Telemetry)
    ensures
        final(out)@ == old(out)@.closing_any(live_view(span)),
{
    match span {
        Some(span) => {
            let record = span.finish();
            out.close(record);
        },
        None => {},
    }
}

/// The attributes of the root span.
fn root_attrs() -> (r: Vec<Attribute>)
    ensures
        attribute_views(r@) == root_attributes(),
{
    let r = vec![
        Attribute::label("acp.method.name", "session"),
        Attribute::label("network.transport", "pipe"),
    ];
    assert(attribute_views(r@) =~= root_attributes());
    r
}

/// The attributes of the span of a plain method call.
fn rpc_attrs(method: &str) -> (r: Vec<Attribute>)
    ensures
        attribute_views(r@) == rpc_attributes(method@),
{
    let r = vec![
        Attribute::label("rpc.system", "jsonrpc"),
        Attribute::text("rpc.method", method.to_owned()),
        Attribute::text("acp.method.name", method.to_owned()),
        Attribute::label("network.transport", "pipe"),
    ];
    assert(attribute_views(r@) =~= rpc_attributes(method@));
    r
}

/// Adds one attribute.
fn add_one(attributes: &mut Vec<Attribute>, a: Attribute)
    ensures
        attribute_views(final(attributes)@) == attribute_views(old(attributes)@).push(a@),
{
    attributes.push(a);
    assert(attribute_views(attributes@) =~= attribute_views(old(attributes)@).push(a@));
}

/// Adds the attribute `key`, where there is a value for it.
fn add_known(attributes: &mut Vec<Attribute>, key: &'static str, value: Option<&str>)
    ensures
        attribute_views(final(attributes)@) == attribute_views(old(attributes)@) + known(
            key@,
            chars(value),
        ),
{
    match value {
        Some(v) => {
            add_one(attributes, Attribute::text(key, v.to_owned()));
            assert(attribute_views(attributes@) =~= attribute_views(old(attributes)@) + known(
                key@,
                chars(value),
            ));
        },
        None => {
            assert(attribute_views(attributes@) =~= attribute_views(old(attributes)@) + known(
                key@,
                chars(value),
            ));
        },
    }
}

/// Adds the attribute `key` with the JSON text of a value, where content is
/// recorded and there is a value.
fn add_recorded(
    attributes: &mut Vec<Attribute>,
    record_content: bool,
    key: &'static str,
    content: Option<&Value>,
)
    ensures
        attribute_views(final(attributes)@) == attribute_views(old(attributes)@) + recorded(
            record_content,
            key@,
            match content {
                Some(v) => Some(document(*v)),
                None => None,
            },
        ),
{
    let ghost piece = recorded(
        record_content,
        key@,
        match content {
            Some(v) => Some(document(*v)),
            None => None,
        },
    );
    if record_content {
        match content {
            Some(v) => {
                add_one(attributes, Attribute::text(key, render(v)));
            },
            None => {},
        }
    }
    assert(attribute_views(attributes@) =~= attribute_views(old(attributes)@) + piece);
}

/// Adds what a prompt span says of the agent, once the agent is known.
fn add_agent(attributes: &mut Vec<Attribute>, agent_name: &Option<String>)
    ensures
        attribute_views(final(attributes)@) == attribute_views(old(attributes)@)
            + agent_attributes(text_view(*agent_name)),
{
    match agent_name {
        Some(name) => {
            let provider = joined("acp.", name.as_str());
            add_one(attributes, Attribute::text("gen_ai.provider.name", provider));
            add_one(attributes, Attribute::text("gen_ai.agent.name", name.clone()));
            add_one(attributes, Attribute::text("gen_ai.agent.id", name.clone()));
        },
        None => {},
    }
    assert(attribute_views(attributes@) =~= attribute_views(old(attributes)@) + agent_attributes(
        text_view(*agent_name),
    ));
}

/// Adds the input message of a prompt, where content is recorded and the
/// prompt has text.
fn add_input(attributes: &mut Vec<Attribute>, record_content: bool, params: &Value)
    ensures
        attribute_views(final(attributes)@) == attribute_views(old(attributes)@)
            + input_attributes(record_content, document(*params)),
{
    if record_content {
        match extract_prompt_text(params) {
            Some(text) => {
                add_one(
                    attributes,
                    Attribute::text(
                        "gen_ai.input.messages",
                        chat_text("user", text.as_str(), None),
                    ),
                );
            },
            None => {},
        }
    }
    assert(attribute_views(attributes@) =~= attribute_views(old(attributes)@) + input_attributes(
        record_content,
        document(*params),
    ));
}

/// The attributes of the span of a file-system or terminal request.
fn tool_request_attrs(record_content: bool, key: &str, method: &str, params: &Value) -> (r: Vec<
    Attribute,
>)
    ensures
        attribute_views(r@) == tool_request_attributes(
            record_content,
            key@,
            method@,
            document(*params),
        ),
{
    let mut r = vec![
        Attribute::label("gen_ai.operation.name", "execute_tool"),
        Attribute::text("gen_ai.tool.name", method.to_owned()),
        Attribute::text("gen_ai.tool.call.id", key.to_owned()),
        Attribute::label("gen_ai.tool.type", "function"),
        Attribute::text("acp.method.name", method.to_owned()),
        Attribute::label("network.transport", "pipe"),
    ];
    assert(attribute_views(r@) =~= seq![
        text_attribute("gen_ai.operation.name"@, "execute_tool"@),
        text_attribute("gen_ai.tool.name"@, method@),
        text_attribute("gen_ai.tool.call.id"@, key@),
        text_attribute("gen_ai.tool.type"@, "function"@),
        text_attribute("acp.method.name"@, method@),
        text_attribute("network.transport"@, "pipe"@),
    ]);
    add_known(&mut r, "gen_ai.conversation.id", extract_session_id(params));
    add_recorded(&mut r, record_content, "gen_ai.tool.call.arguments", Some(params));
    r
}

/// Marks a span as failed by an error payload, where there is one: the
/// payload's JSON text is the message, its code the error kind.
fn mark_failed(span: &mut LiveSpan, error: Option<&Value>)
    ensures
        final(span)@ == failed(old(span)@, document_at(error)),
{
    match error {
        Some(e) => {
            span.fail(render(e));
            let kind = match member(e, "code") {
                Some(code) => render(code),
                None => "_OTHER".to_owned(),
            };
            span.attach(Attribute::text("error.type", kind));
        },
        None => {},
    }
}

/// The attributes of the span of a tool call that a notification reports.
fn tool_call_attrs(record_content: bool, session: &str, call: &str, params: &Value) -> (r: Vec<
    Attribute,
>)
    ensures
        attribute_views(r@) == tool_call_attributes(
            record_content,
            session@,
            call@,
            document(*params),
        ),
{
    let title = match extract_tool_call_title(params) {
        Some(t) => t,
        None => "unknown tool",
    };
    let kind = match extract_tool_call_kind(params) {
        Some(k) => k,
        None => "other",
    };
    let mut r = vec![
        Attribute::label("gen_ai.operation.name", "execute_tool"),
        Attribute::text("gen_ai.tool.name", title.to_owned()),
        Attribute::text("gen_ai.tool.call.id", call.to_owned()),
        Attribute::label("gen_ai.tool.type", map_tool_kind_to_type(kind)),
        Attribute::text("gen_ai.conversation.id", session.to_owned()),
        Attribute::label("acp.method.name", "session/update"),
        Attribute::text("acp.tool.kind", kind.to_owned()),
        Attribute::label("network.transport", "pipe"),
    ];
    assert(attribute_views(r@) =~= seq![
        text_attribute("gen_ai.operation.name"@, "execute_tool"@),
        text_attribute("gen_ai.tool.name"@, title@),
        text_attribute("gen_ai.tool.call.id"@, call@),
        text_attribute("gen_ai.tool.type"@, tool_type(kind@)),
        text_attribute("gen_ai.conversation.id"@, session@),
        text_attribute("acp.method.name"@, "session/update"@),
        text_attribute("acp.tool.kind"@, kind@),
        text_attribute("network.transport"@, "pipe"@),
    ]);
    add_recorded(
        &mut r,
        record_content,
        "gen_ai.tool.call.arguments",
        extract_update_member(params, "rawInput"),
    );
    r
}

/// Ends the tool spans of a session because the conversation ended.
fn end_tools(tools: &mut Vec<Entry<LiveSpan>>, out: &mut Telemetry)
    ensures
        final(tools)@.len() == 0,
        final(out)@ == (TelemetryView {
            closed: old(out)@.closed + rows(old(tools)@).map_values(
                |tool: (Seq<char>, SpanView)|
                    tool.1.with_error("session ended unexpectedly"@),
            ),
            ..old(out)@
        }),
{
    let ghost all = rows(tools@);
    let ghost ended = 0int;
    assert(out@.closed =~= old(out)@.closed + all.take(0).map_values(
        |tool: (Seq<char>, SpanView)|
            tool.1.with_error("session ended unexpectedly"@),
    ));
    assert(rows(tools@) =~= all.skip(0));
    while tools.len() > 0
        invariant
            0 <= ended <= all.len(),
            rows(tools@) == all.skip(ended),
            out@.measurements == old(out)@.measurements,
            out@.closed == old(out)@.closed + all.take(ended).map_values(
                |tool: (Seq<char>, SpanView)|
                    tool.1.with_error("session ended unexpectedly"@),
            ),
        decreases tools.len(),
    {
        let ghost before = tools@;
        let ghost closed = out@.closed;
        let entry = tools.remove(0);
        assert(entry == before[0]);
        assert(rows(before)[0] == (entry.key@, entry.value@));
        assert(all.skip(ended).len() == before.len());
        assert(all.skip(ended)[0] == all[ended]);
        let mut span = entry.value;
        span.fail("session ended unexpectedly".to_owned());
        out.close(span.finish());
        proof {
            assert(rows(tools@) =~= all.skip(ended + 1)) by {
                assert(rows(tools@) =~= rows(before).drop_first());
            }
            assert(all.take(ended + 1) =~= all.take(ended).push(all[ended]));
            assert(out@.closed =~= old(out)@.closed + all.take(ended + 1).map_values(
                |tool: (Seq<char>, SpanView)|
                    tool.1.with_error("session ended unexpectedly"@),
            ));
            ended = ended + 1;
        }
    }
    assert(all.take(ended) =~= all);
}

/// Ends the spans of a session because the conversation ended: the prompt
/// span and then the tool spans.
fn end_session(session: SessionState, out: &mut Telemetry)
    ensures
        final(out)@ == (TelemetryView {
            closed: old(out)@.closed + session_spans(session@),
            ..old(out)@
        }),
{
    let ghost whole = session@;
    let mut session = session;
    match session.prompt_span.take() {
        Some(span) => {
            let mut span = span;
            span.fail("session ended unexpectedly".to_owned());
            out.close(span.finish());
        },
        None => {},
    }
    let ghost first = out@.closed;
    end_tools(&mut session.tool_spans, out);
    assert(out@.closed =~= old(out)@.closed + session_spans(whole)) by {
        assert(first =~= old(out)@.closed + (match whole.prompt {
            Some(span) => seq![span.with_error("session ended unexpectedly"@)],
            None => seq![],
        }));
    }
}

/// Ends the span of a request that never got a response.
fn end_pending(entry: PendingRequest, out: &mut Telemetry)
    ensures
        final(out)@ == (TelemetryView {
            closed: old(out)@.closed + pending_span(entry@),
            ..old(out)@
        }),
{
    match entry.span {
        Some(span) => {
            let mut span = span;
            span.fail("process exited before response".to_owned());
            out.close(span.finish());
        },
        None => {},
    }
    assert(out@.closed =~= old(out)@.closed + pending_span(entry@));
}

/// The text as a reference, where there is one.
fn borrowed(s: &Option<String>) -> (r: Option<&str>)
    ensures
        chars(r) == text_view(*s),
{
    match s {
        Some(s) => Some(s.as_str()),
        None => None,
    }
}

impl SpanManager {
    /// A manager that has seen nothing, with the tracer that its spans are
    /// started on. With `record_content`, prompts, output, tool arguments and
    /// tool results are copied into attributes; without it, none of them is.
    pub fn new(tracer: BoxedTracer, record_content: bool) -> (r: Self)
        ensures
            r@ == ManagerView::initial(record_content),
            r@.wf(),
    {
        let r = SpanManager {
            tracer,
            clock: Clock::start(),
            record_content,
            agent_name: None,
            agent_version: None,
            client_name: None,
            client_version: None,
            protocol_version: None,
            sessions: Vec::new(),
            pending: Vec::new(),
            session_span: None,
            session_span_context: None,
            started: 0,
        };
        assert(r@.sessions =~= seq![]);
        assert(r@.pending =~= seq![]);
        r
    }

    /// The agent's name, once the response to `initialize` has told it.
    pub fn agent_name(&self) -> (r: Option<String>)
        ensures
            text_view(r) == self@.agent_name,
    {
        copy_text(&self.agent_name)
    }

    /// The agent's version, where the response to `initialize` gave one.
    pub fn agent_version(&self) -> (r: Option<String>)
        ensures
            text_view(r) == self@.agent_version,
    {
        copy_text(&self.agent_version)
    }

    /// The client's name, once an `initialize` request has told it.
    pub fn client_name(&self) -> (r: Option<String>)
        ensures
            text_view(r) == self@.client_name,
    {
        copy_text(&self.client_name)
    }

    /// The client's version, where the `initialize` request gave one.
    pub fn client_version(&self) -> (r: Option<String>)
        ensures
            text_view(r) == self@.client_version,
    {
        copy_text(&self.client_version)
    }

    /// The protocol version that the agent answered `initialize` with.
    pub fn protocol_version(&self) -> (r: Option<i64>)
        ensures
            r == self@.protocol_version,
    {
        self.protocol_version
    }

    /// How many requests wait for their response.
    pub fn pending_requests(&self) -> (r: usize)
        ensures
            r == self@.pending.len(),
    {
        self.pending.len()
    }

    /// How many sessions have been prompted.
    pub fn sessions(&self) -> (r: usize)
        ensures
            r == self@.sessions.len(),
    {
        self.sessions.len()
    }

    /// The number of the next span, which is then counted.
    fn next_span(&mut self) -> (id: u64)
        ensures
            id == old(self)@.started,
            final(self)@ == old(self)@.counted(),
    {
        let id = self.started;
        self.started = if id == u64::MAX {
            0
        } else {
            id + 1
        };
        id
    }

    /// Starts a span as a child of the root span, or on its own where there is
    /// no root span yet.
    fn start_under_root(&mut self, name: String, kind: SpanKind, attributes: Vec<Attribute>) -> (r:
        LiveSpan)
        ensures
            r@ == old(self)@.under_root(name@, kind, attribute_views(attributes@)),
            final(self)@ == old(self)@.counted(),
    {
        let id = self.next_span();
        let parent = self.session_span_context.as_ref();
        LiveSpan::start(&self.tracer, id, parent, name, kind, attributes)
    }

    /// Puts a request among the pending ones. A request that waited under the
    /// same id gives way: its span is ended and reported.
    fn file(&mut self, key: String, entry: PendingRequest, out: &mut Telemetry)
        ensures
            final(self)@ == old(self)@.filed(key@, entry@).state,
            final(out)@ == old(out)@.then_all(old(self)@.filed(key@, entry@).telemetry),
    {
        proof {
            telemetry_adds(
                out@,
                match lookup(self@.pending, key@) {
                    Some(before) => before.span,
                    None => None,
                },
            );
        }
        let ghost row = (key@, entry@);
        match find(&self.pending, key.as_str()) {
            Some(i) => {
                let mut before = entry;
                core::mem::swap(&mut self.pending[i].value, &mut before);
                self.pending[i].key = key;
                assert(self@.pending =~= old(self)@.pending.update(i as int, row));
                finish_any(before.span, out);
            },
            None => {
                self.pending.push(Entry { key, value: entry });
                assert(self@.pending =~= old(self)@.pending.push(row));
            },
        }
    }

    /// An `initialize` request: the client is remembered, the root span is
    /// started where there is none, and the request's span under it.
    fn initialize(&mut self, key: String, params: &Value, now: u64) -> (out: Telemetry)
        ensures
            (Outcome { state: final(self)@, telemetry: out@ }) == old(self)@.initialize(
                key@,
                document(*params),
                now,
            ),
    {
        match extract_client_info(params) {
            Some((name, version)) => {
                self.client_name = Some(name.to_owned());
                self.client_version = owned(version);
            },
            None => {},
        }
        assert(self@ == old(self)@.with_client(document(*params)));
        if self.session_span.is_none() {
            let id = self.next_span();
            let root = LiveSpan::start(
                &self.tracer,
                id,
                None,
                "acp_session".to_owned(),
                SpanKind::Internal,
                root_attrs(),
            );
            self.session_span_context = Some(root.link());
            self.session_span = Some(root);
        }
        assert(self@ == old(self)@.with_client(document(*params)).with_root());
        let span = self.start_under_root(
            "initialize".to_owned(),
            SpanKind::Internal,
            rpc_attrs("initialize"),
        );
        let mut out = Telemetry::new();
        let ghost ready = self@;
        let entry = PendingRequest {
            span: Some(span),
            method: "initialize".to_owned(),
            session_id: None,
            start: now,
        };
        self.file(key, entry, &mut out);
        proof {
            telemetry_adds(ready.filed(key@, entry@).telemetry, None);
        }
        out
    }

    /// The attributes that a prompt span starts with.
    fn prompt_attrs(&self, session: &str, params: &Value) -> (r: Vec<Attribute>)
        ensures
            attribute_views(r@) == self@.prompt_attributes(session@, document(*params)),
    {
        let mut r = vec![
            Attribute::label("gen_ai.operation.name", "invoke_agent"),
            Attribute::text("gen_ai.conversation.id", session.to_owned()),
            Attribute::label("acp.method.name", "session/prompt"),
            Attribute::label("network.transport", "pipe"),
        ];
        assert(attribute_views(r@) =~= seq![
            text_attribute("gen_ai.operation.name"@, "invoke_agent"@),
            text_attribute("gen_ai.conversation.id"@, session@),
            text_attribute("acp.method.name"@, "session/prompt"@),
            text_attribute("network.transport"@, "pipe"@),
        ]);
        add_agent(&mut r, &self.agent_name);
        add_known(&mut r, "acp.agent.version", borrowed(&self.agent_version));
        add_known(&mut r, "acp.client.name", borrowed(&self.client_name));
        add_known(&mut r, "acp.client.version", borrowed(&self.client_version));
        add_input(&mut r, self.record_content, params);
        r
    }

    /// A `session/prompt` request: the session is made where it is new, and its
    /// prompt span is started; a prompt span that was still open is ended.
    fn prompt(&mut self, key: String, params: &Value, now: u64) -> (out: Telemetry)
        ensures
            (Outcome { state: final(self)@, telemetry: out@ }) == old(self)@.prompt(
                key@,
                document(*params),
                now,
            ),
    {
        let id = match extract_session_id(params) {
            Some(id) => id.to_owned(),
            None => "unknown".to_owned(),
        };
        let name = match &self.agent_name {
            Some(agent) => joined("invoke_agent ", agent.as_str()),
            None => "invoke_agent".to_owned(),
        };
        let attributes = self.prompt_attrs(id.as_str(), params);
        let span = self.start_under_root(name, SpanKind::Client, attributes);
        let link = span.link();
        let mut out = Telemetry::new();
        let ghost before = match lookup(old(self)@.sessions, id@) {
            Some(s) => s,
            None => blank_session(),
        };
        let ghost session = SessionView {
            prompt: Some(span@),
            link: Some(span@.id),
            prompt_start: Some(now),
            first_chunk: None,
            output: seq![],
            tools: before.tools,
        };
        match find(&self.sessions, id.as_str()) {
            Some(i) => {
                let replaced = self.sessions[i].value.prompt_span.take();
                self.sessions[i].value.prompt_span = Some(span);
                self.sessions[i].value.prompt_span_context = Some(link);
                self.sessions[i].value.prompt_start = Some(now);
                self.sessions[i].value.first_chunk_time = None;
                self.sessions[i].value.accumulated_output = String::new();
                proof {
                    position_is_first(old(self)@.sessions, id@);
                    assert(self@.sessions[i as int] == (id@, session));
                }
                assert(self@.sessions =~= old(self)@.sessions.update(i as int, (id@, session)));
                finish_any(replaced, &mut out);
            },
            None => {
                let fresh = SessionState {
                    prompt_span: Some(span),
                    prompt_span_context: Some(link),
                    prompt_start: Some(now),
                    first_chunk_time: None,
                    accumulated_output: String::new(),
                    tool_spans: Vec::new(),
                };
                assert(fresh@.tools =~= seq![]);
                self.sessions.push(Entry { key: id.clone(), value: fresh });
                assert(self@.sessions =~= old(self)@.sessions.push((id@, session)));
            },
        }
        let entry = PendingRequest {
            span: None,
            method: "session/prompt".to_owned(),
            session_id: Some(id),
            start: now,
        };
        self.file(key, entry, &mut out);
        out
    }

    /// The latest prompt span of a session, for the spans started under it.
    fn parent_context_for_session(&self, session: Option<&str>) -> (r: Option<&SpanLink>)
        ensures
            match r {
                Some(link) => self@.prompt_link(chars(session)) == Some(link@),
                None => self@.prompt_link(chars(session)) is None,
            },
    {
        match session {
            Some(id) => match find(&self.sessions, id) {
                Some(i) => self.sessions[i].value.prompt_span_context.as_ref(),
                None => None,
            },
            None => None,
        }
    }

    /// A file-system or terminal request: its span is started under the
    /// session's prompt span, or under the root span where the request names no
    /// session that was prompted.
    fn tool_request(&mut self, key: String, method: &str, params: &Value, now: u64) -> (out:
        Telemetry)
        ensures
            (Outcome { state: final(self)@, telemetry: out@ }) == old(self)@.tool_request(
                key@,
                method@,
                document(*params),
                now,
            ),
    {
        let session = extract_session_id(params);
        let attributes = tool_request_attrs(self.record_content, key.as_str(), method, params);
        let id = self.next_span();
        let parent = match self.parent_context_for_session(session) {
            Some(link) => Some(link),
            None => self.session_span_context.as_ref(),
        };
        let span = LiveSpan::start(
            &self.tracer,
            id,
            parent,
            joined("execute_tool ", method),
            SpanKind::Internal,
            attributes,
        );
        let mut out = Telemetry::new();
        let ghost counted = self@;
        let entry = PendingRequest {
            span: Some(span),
            method: method.to_owned(),
            session_id: owned(session),
            start: now,
        };
        self.file(key, entry, &mut out);
        proof {
            telemetry_adds(counted.filed(key@, entry@).telemetry, None);
        }
        out
    }

    /// Any other request: its span is started under the root span.
    fn other_request(&mut self, key: String, method: &str, params: &Value, now: u64) -> (out:
        Telemetry)
        ensures
            (Outcome { state: final(self)@, telemetry: out@ }) == old(self)@.other_request(
                key@,
                method@,
                document(*params),
                now,
            ),
    {
        let mut attributes = rpc_attrs(method);
        add_one(&mut attributes, Attribute::text("jsonrpc.request.id", key.clone()));
        let span = self.start_under_root(method.to_owned(), SpanKind::Internal, attributes);
        let mut out = Telemetry::new();
        let ghost counted = self@;
        let entry = PendingRequest {
            span: Some(span),
            method: method.to_owned(),
            session_id: owned(extract_session_id(params)),
            start: now,
        };
        self.file(key, entry, &mut out);
        proof {
            telemetry_adds(counted.filed(key@, entry@).telemetry, None);
        }
        out
    }

    /// A request: a span is started for it, by its method, and the request is
    /// kept under the JSON text of its id until its response comes.
    pub fn handle_request(
        &mut self,
        _direction: Direction,
        id: Value,
        method: &str,
        params: &Value,
        now: u64,
    ) -> (out: Telemetry)
        ensures
            (Outcome { state: final(self)@, telemetry: out@ }) == old(self)@.request(
                document(id),
                method@,
                document(*params),
                now,
            ),
            old(self)@.wf() ==> final(self)@.wf(),
    {
        proof {
            if old(self)@.wf() {
                step_keeps_wf(
                    old(self)@,
                    Message::Request {
                        id: document(id),
                        method: method@,
                        params: document(*params),
                    },
                    now,
                );
            }
        }
        let key = render(&id);
        if same_text(method, "initialize") {
            self.initialize(key, params, now)
        } else if same_text(method, "session/prompt") {
            self.prompt(key, params, now)
        } else if is_fs_or_terminal_method(method) {
            self.tool_request(key, method, params, now)
        } else {
            self.other_request(key, method, params, now)
        }
    }

    /// The response to `initialize`: the agent and the protocol version are
    /// remembered and set on the span, the root span is told the agent's name,
    /// and the span is ended.
    fn initialized(
        &mut self,
        entry: PendingRequest,
        result: Option<&Value>,
        error: Option<&Value>,
    ) -> (out: Telemetry)
        ensures
            (Outcome { state: final(self)@, telemetry: out@ }) == old(self)@.initialized(
                entry@,
                document_at(result),
                document_at(error),
            ),
    {
        let mut out = Telemetry::new();
        let mut span = match entry.span {
            Some(span) => span,
            None => { return out; },
        };
        let mut found: Vec<Attribute> = Vec::new();
        assert(attribute_views(found@) =~= seq![]);
        match result {
            Some(r) => {
                match extract_agent_info(r) {
                    Some((name, version)) => {
                        self.agent_name = Some(name.to_owned());
                        self.agent_version = owned(version);
                        add_one(&mut found, Attribute::text("gen_ai.agent.name", name.to_owned()));
                        add_one(&mut found, Attribute::text("gen_ai.agent.id", name.to_owned()));
                    },
                    None => {},
                }
                self.protocol_version = match member(r, "protocolVersion") {
                    Some(v) => as_integer(v),
                    None => None,
                };
                match self.protocol_version {
                    Some(n) => {
                        add_one(&mut found, Attribute::integer("acp.protocol.version", n));
                    },
                    None => {},
                }
            },
            None => {},
        }
        assert(self@ == old(self)@.with_agent(document_at(result)));
        assert(attribute_views(found@) =~= ManagerView::agent_found(document_at(result)));
        span.attach_all(found);
        mark_failed(&mut span, error);
        match &self.agent_name {
            Some(name) => match &mut self.session_span {
                Some(root) => {
                    root.attach(Attribute::text("gen_ai.agent.name", name.clone()));
                },
                None => {},
            },
            None => {},
        }
        out.close(span.finish());
        out
    }

    /// The response to a prompt: what the answer says is set on the session's
    /// prompt span, the span is ended, and the time the prompt took is
    /// measured.
    fn prompted(
        &mut self,
        entry: PendingRequest,
        result: Option<&Value>,
        error: Option<&Value>,
        now: u64,
    ) -> (out: Telemetry)
        ensures
            (Outcome { state: final(self)@, telemetry: out@ }) == old(self)@.prompted(
                entry@,
                document_at(result),
                document_at(error),
                now,
            ),
    {
        let mut out = Telemetry::new();
        let id = match &entry.session_id {
            Some(id) => id,
            None => { return out; },
        };
        let i = match find(&self.sessions, id.as_str()) {
            Some(i) => i,
            None => { return out; },
        };
        proof {
            position_is_first(old(self)@.sessions, id@);
        }
        let ghost session = old(self)@.sessions[i as int].1;
        if self.sessions[i].value.prompt_span.is_none() {
            return out;
        }
        let mut span = self.sessions[i].value.prompt_span.take().unwrap();
        assert(self@.sessions =~= old(self)@.sessions.update(
            i as int,
            (id@, SessionView { prompt: None, ..session }),
        ));
        let stop = match result {
            Some(r) => extract_stop_reason(r),
            None => None,
        };
        let mut said: Vec<Attribute> = Vec::new();
        assert(attribute_views(said@) =~= seq![]);
        match stop {
            Some(reason) => {
                add_one(
                    &mut said,
                    Attribute::text(
                        "gen_ai.response.finish_reasons",
                        joined(joined("[\"", reason).as_str(), "\"]"),
                    ),
                );
            },
            None => {},
        }
        if self.record_content && !self.sessions[i].value.accumulated_output.as_str().is_empty() {
            let finish: Option<&str> = match stop {
                Some(reason) => Some(map_stop_reason_to_finish_reason(reason)),
                None => None,
            };
            add_one(
                &mut said,
                Attribute::text(
                    "gen_ai.output.messages",
                    chat_text(
                        "assistant",
                        self.sessions[i].value.accumulated_output.as_str(),
                        finish,
                    ),
                ),
            );
        }
        let first_token = match (
            self.sessions[i].value.first_chunk_time,
            self.sessions[i].value.prompt_start,
        ) {
            (Some(first), Some(start)) => Some(between(start, first)),
            _ => None,
        };
        match first_token {
            Some(t) => {
                add_one(&mut said, Attribute::integer("acp.time_to_first_token_ms", millis(t)));
            },
            None => {},
        }
        assert(attribute_views(said@) =~= answer_attributes(
            self@.record_content,
            session,
            document_at(result),
        ));
        span.attach_all(said);
        mark_failed(&mut span, error);
        out.close(span.finish());
        match first_token {
            Some(t) => {
                out.measure(Instrument::TimeToFirstToken, t, "invoke_agent");
            },
            None => {},
        }
        out.measure(Instrument::OperationDuration, between(entry.start, now), "invoke_agent");
        assert(out@.closed =~= old(self)@.prompted(
            entry@,
            document_at(result),
            document_at(error),
            now,
        ).telemetry.closed);
        assert(out@.measurements =~= answer_measurements(session, entry@.start, now));
        out
    }

    /// The response to a file-system or terminal request.
    fn tool_answered(
        &mut self,
        entry: PendingRequest,
        result: Option<&Value>,
        error: Option<&Value>,
    ) -> (out: Telemetry)
        ensures
            (Outcome { state: final(self)@, telemetry: out@ }) == old(self)@.tool_answered(
                entry@,
                document_at(result),
                document_at(error),
            ),
    {
        let mut out = Telemetry::new();
        match entry.span {
            Some(span) => {
                let mut span = span;
                let mut said: Vec<Attribute> = Vec::new();
                assert(attribute_views(said@) =~= seq![]);
                add_recorded(&mut said, self.record_content, "gen_ai.tool.call.result", result);
                assert(attribute_views(said@) =~= recorded(
                    self@.record_content,
                    "gen_ai.tool.call.result"@,
                    document_at(result),
                ));
                span.attach_all(said);
                mark_failed(&mut span, error);
                out.close(span.finish());
            },
            None => {},
        }
        out
    }

    /// The response to any other request.
    fn answered(&mut self, entry: PendingRequest, error: Option<&Value>) -> (out: Telemetry)
        ensures
            (Outcome { state: final(self)@, telemetry: out@ }) == old(self)@.answered(
                entry@,
                document_at(error),
            ),
    {
        let mut out = Telemetry::new();
        match entry.span {
            Some(span) => {
                let mut span = span;
                match error {
                    Some(e) => {
                        span.fail(render(e));
                    },
                    None => {},
                }
                out.close(span.finish());
            },
            None => {},
        }
        out
    }

    /// A response: the request that waited under its id leaves the pending
    /// ones and its span is ended. A response that no request waits for is
    /// passed over.
    pub fn handle_response(
        &mut self,
        id: Value,
        result: Option<&Value>,
        error: Option<&Value>,
        now: u64,
    ) -> (out: Telemetry)
        ensures
            (Outcome { state: final(self)@, telemetry: out@ }) == old(self)@.response(
                document(id),
                document_at(result),
                document_at(error),
                now,
            ),
            old(self)@.wf() ==> final(self)@.wf(),
    {
        proof {
            if old(self)@.wf() {
                step_keeps_wf(
                    old(self)@,
                    Message::Response {
                        id: document(id),
                        result: document_at(result),
                        error: document_at(error),
                    },
                    now,
                );
            }
        }
        let key = render(&id);
        let i = match find(&self.pending, key.as_str()) {
            Some(i) => i,
            None => { return Telemetry::new(); },
        };
        let entry = self.pending.remove(i).value;
        assert(self@.pending =~= old(self)@.pending.remove(i as int));
        if same_text(entry.method.as_str(), "initialize") {
            self.initialized(entry, result, error)
        } else if same_text(entry.method.as_str(), "session/prompt") {
            self.prompted(entry, result, error, now)
        } else if is_fs_or_terminal_method(entry.method.as_str()) {
            self.tool_answered(entry, result, error)
        } else {
            self.answered(entry, error)
        }
    }

    /// A chunk of the agent's message: the first one of a prompt is timed, and
    /// its text is added to the session's output.
    fn chunk(&mut self, id: &str, params: &Value, now: u64) -> (out: Telemetry)
        ensures
            (Outcome { state: final(self)@, telemetry: out@ }) == old(self)@.chunk(
                id@,
                document(*params),
                now,
            ),
    {
        match find(&self.sessions, id) {
            Some(i) => {
                proof {
                    position_is_first(old(self)@.sessions, id@);
                }
                if self.sessions[i].value.first_chunk_time.is_none() {
                    self.sessions[i].value.first_chunk_time = Some(now);
                }
                match extract_chunk_text(params) {
                    Some(text) => {
                        self.sessions[i].value.accumulated_output.append(text);
                    },
                    None => {
                        assert(self.sessions[i as int].value.accumulated_output@ =~= old(
                            self,
                        ).sessions[i as int].value.accumulated_output@ + Seq::<char>::empty());
                    },
                }
                assert(self@.sessions =~= old(self)@.chunk(
                    id@,
                    document(*params),
                    now,
                ).state.sessions);
            },
            None => {},
        }
        Telemetry::new()
    }

    /// A tool call is reported: its span is started under the session's latest
    /// prompt span and kept in the session under the call's id.
    fn tool_call(&mut self, id: &str, params: &Value) -> (out: Telemetry)
        ensures
            (Outcome { state: final(self)@, telemetry: out@ }) == old(self)@.tool_call(
                id@,
                document(*params),
            ),
    {
        let mut out = Telemetry::new();
        let call = match extract_tool_call_id(params) {
            Some(call) => call,
            None => { return out; },
        };
        let title = match extract_tool_call_title(params) {
            Some(t) => t,
            None => "unknown tool",
        };
        let attributes = tool_call_attrs(self.record_content, id, call, params);
        let number = self.next_span();
        let span = LiveSpan::start(
            &self.tracer,
            number,
            self.parent_context_for_session(Some(id)),
            joined("execute_tool ", title),
            SpanKind::Internal,
            attributes,
        );
        match find(&self.sessions, id) {
            Some(i) => {
                proof {
                    position_is_first(old(self)@.sessions, id@);
                }
                let ghost session = old(self)@.sessions[i as int].1;
                match find(&self.sessions[i].value.tool_spans, call) {
                    Some(j) => {
                        proof {
                            position_is_first(session.tools, call@);
                        }
                        let mut before = span;
                        core::mem::swap(
                            &mut self.sessions[i].value.tool_spans[j].value,
                            &mut before,
                        );
                        assert(self.sessions[i as int].value@.tools =~= session.tools.update(
                            j as int,
                            (call@, span@),
                        ));
                        out.close(before.finish());
                    },
                    None => {
                        self.sessions[i].value.tool_spans.push(
                            Entry { key: call.to_owned(), value: span },
                        );
                        assert(self.sessions[i as int].value@.tools =~= session.tools.push(
                            (call@, span@),
                        ));
                    },
                }
                assert(self@.sessions =~= old(self)@.tool_call(
                    id@,
                    document(*params),
                ).state.sessions);
            },
            None => {
                out.close(span.finish());
            },
        }
        out
    }

    /// An update of a tool call: where the status is `completed` or `failed`,
    /// the call's span is ended; any other status leaves it open.
    fn tool_update(&mut self, id: &str, params: &Value) -> (out: Telemetry)
        ensures
            (Outcome { state: final(self)@, telemetry: out@ }) == old(self)@.tool_update(
                id@,
                document(*params),
            ),
    {
        let mut out = Telemetry::new();
        let call = match extract_tool_call_id(params) {
            Some(call) => call,
            None => { return out; },
        };
        let status = match extract_tool_call_status(params) {
            Some(s) => s,
            None => "",
        };
        proof {
            reveal_strlit("");
            reveal_strlit("failed");
            reveal_strlit("completed");
            assert(""@ =~= Seq::<char>::empty());
        }
        let is_failed = same_text(status, "failed");
        if !(same_text(status, "completed") || is_failed) {
            return out;
        }
        let i = match find(&self.sessions, id) {
            Some(i) => i,
            None => { return out; },
        };
        let j = match find(&self.sessions[i].value.tool_spans, call) {
            Some(j) => j,
            None => { return out; },
        };
        proof {
            position_is_first(old(self)@.sessions, id@);
        }
        let ghost session = old(self)@.sessions[i as int].1;
        let mut span = self.sessions[i].value.tool_spans.remove(j).value;
        assert(self.sessions[i as int].value@.tools =~= session.tools.remove(j as int));
        assert(self@.sessions =~= old(self)@.tool_update(id@, document(*params)).state.sessions);
        if is_failed {
            span.fail("tool call failed".to_owned());
            span.attach(Attribute::label("error.type", "tool_error"));
        }
        let mut said: Vec<Attribute> = Vec::new();
        assert(attribute_views(said@) =~= seq![]);
        add_recorded(
            &mut said,
            self.record_content,
            "gen_ai.tool.call.result",
            extract_update_member(params, "rawOutput"),
        );
        assert(attribute_views(said@) =~= recorded(
            self@.record_content,
            "gen_ai.tool.call.result"@,
            update_member(document(*params), "rawOutput"@),
        ));
        span.attach_all(said);
        out.close(span.finish());
        out
    }

    /// A notification: only session updates that name their session and their
    /// kind are looked at.
    pub fn handle_notification(
        &mut self,
        _direction: Direction,
        method: &str,
        params: &Value,
        now: u64,
    ) -> (out: Telemetry)
        ensures
            (Outcome { state: final(self)@, telemetry: out@ }) == old(self)@.notification(
                method@,
                document(*params),
                now,
            ),
            old(self)@.wf() ==> final(self)@.wf(),
    {
        proof {
            if old(self)@.wf() {
                step_keeps_wf(
                    old(self)@,
                    Message::Notification { method: method@, params: document(*params) },
                    now,
                );
            }
        }
        if !same_text(method, "session/update") {
            return Telemetry::new();
        }
        let id = match extract_session_id(params) {
            Some(id) => id,
            None => { return Telemetry::new(); },
        };
        let kind = match extract_update_type(params) {
            Some(kind) => kind,
            None => { return Telemetry::new(); },
        };
        if same_text(kind, "agent_message_chunk") {
            self.chunk(id, params, now)
        } else if same_text(kind, "tool_call") {
            self.tool_call(id, params)
        } else if same_text(kind, "tool_call_update") {
            self.tool_update(id, params)
        } else {
            Telemetry::new()
        }
    }

    /// One line of the conversation, seen at `now` nanoseconds on the
    /// manager's clock. A line that is no message is passed over.
    pub fn process_message_at(&mut self, direction: Direction, line: &str, now: u64) -> (out:
        Telemetry)
        ensures
            (Outcome { state: final(self)@, telemetry: out@ }) == old(self)@.seen(line@, now),
            old(self)@.wf() ==> final(self)@.wf(),
    {
        match parse(line) {
            Some(MessageType::Request { id, method, params }) => self.handle_request(
                direction,
                id,
                method.as_str(),
                &params,
                now,
            ),
            Some(MessageType::Response { id, result, error }) => self.handle_response(
                id,
                result.as_ref(),
                error.as_ref(),
                now,
            ),
            Some(MessageType::Notification { method, params }) => self.handle_notification(
                direction,
                method.as_str(),
                &params,
                now,
            ),
            None => Telemetry::new(),
        }
    }

    /// One line of the conversation, seen now.
    pub fn process_message(&mut self, direction: Direction, line: &str) -> (out: Telemetry)
        ensures
            exists|now: u64|
                (Outcome { state: final(self)@, telemetry: out@ }) == #[trigger] old(self)@.seen(
                    line@,
                    now,
                ),
            old(self)@.wf() ==> final(self)@.wf(),
    {
        let now = self.clock.reading();
        self.process_message_at(direction, line, now)
    }

    /// The end of the conversation: every span that is still open is ended,
    /// those of sessions and of pending requests marked as failed, and the root
    /// span last.
    pub fn shutdown(&mut self) -> (out: Telemetry)
        ensures
            (Outcome { state: final(self)@, telemetry: out@ }) == old(self)@.shutdown(),
            final(self)@.wf(),
    {
        let mut out = Telemetry::new();
        while self.sessions.len() > 0
            invariant
                out@.measurements == Seq::<MeasurementView>::empty(),
                out@.closed + sessions_spans(rows(self.sessions@)) == sessions_spans(
                    old(self)@.sessions,
                ),
                self.pending == old(self).pending,
                self.session_span == old(self).session_span,
                self.session_span_context == old(self).session_span_context,
                self.started == old(self).started,
                self.record_content == old(self).record_content,
                self.agent_name == old(self).agent_name,
                self.agent_version == old(self).agent_version,
                self.client_name == old(self).client_name,
                self.client_version == old(self).client_version,
                self.protocol_version == old(self).protocol_version,
            decreases self.sessions.len(),
        {
            let ghost before = rows(self.sessions@);
            let ghost closed = out@.closed;
            let session = self.sessions.remove(0).value;
            assert(rows(self.sessions@) =~= before.drop_first());
            assert(session@ == before.first().1);
            end_session(session, &mut out);
            assert(out@.closed + sessions_spans(rows(self.sessions@)) =~= closed
                + sessions_spans(before));
        }
        let ghost after_sessions = out@.closed;
        assert(after_sessions =~= sessions_spans(old(self)@.sessions));
        while self.pending.len() > 0
            invariant
                out@.measurements == Seq::<MeasurementView>::empty(),
                self.sessions@.len() == 0,
                out@.closed + pending_spans(rows(self.pending@)) == after_sessions + pending_spans(
                    old(self)@.pending,
                ),
                self.session_span == old(self).session_span,
                self.session_span_context == old(self).session_span_context,
                self.started == old(self).started,
                self.record_content == old(self).record_content,
                self.agent_name == old(self).agent_name,
                self.agent_version == old(self).agent_version,
                self.client_name == old(self).client_name,
                self.client_version == old(self).client_version,
                self.protocol_version == old(self).protocol_version,
            decreases self.pending.len(),
        {
            let ghost before = rows(self.pending@);
            let ghost closed = out@.closed;
            let entry = self.pending.remove(0).value;
            assert(rows(self.pending@) =~= before.drop_first());
            assert(entry@ == before.first().1);
            end_pending(entry, &mut out);
            assert(out@.closed + pending_spans(rows(self.pending@)) =~= closed + pending_spans(
                before,
            ));
        }
        let ghost after_pending = out@.closed;
        assert(after_pending =~= sessions_spans(old(self)@.sessions) + pending_spans(
            old(self)@.pending,
        ));
        finish_any(self.session_span.take(), &mut out);
        assert(out@.closed =~= old(self)@.last_spans());
        assert(self@.sessions =~= seq![]);
        assert(self@.pending =~= seq![]);
        out
    }
}

} // verus!
