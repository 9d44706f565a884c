//! The correlator as a state machine over plain values: what it remembers
//! between lines, and what each kind of message does to that and reports.
//!
//! Three lifetimes overlap in the state. A request waits for its response in
//! `pending`; a session, once prompted, stays until shutdown and carries the
//! streamed output of its current prompt; a tool call lives in its session from
//! its `tool_call` update to the update that completes or fails it.

use crate::acp::{
    chunk_text, classified, finish_reason, fs_or_terminal, identity, prompt_text, session_id,
    text_member, tool_type, update_member, update_text, Message,
};
use crate::clock::{span_between, whole_millis};
use crate::genai::chat;
use crate::json::{parsed, rendered, Document};
use crate::record::{
    integer_attribute, text_attribute, AttributeView, Instrument, MeasurementView, SpanKind,
    SpanView, TelemetryView,
};
use crate::table::{distinct, lookup, put, without, Rows};
use vstd::prelude::*;

verus! {

/// A request that waits for its response. The prompt method has no span of its
/// own here: its span lives on the session.
pub ghost struct PendingView {
    pub span: Option<SpanView>,
    pub method: Seq<char>,
    pub session: Option<Seq<char>>,
    pub start: u64,
}

/// A session: the span of the prompt that is being answered, the number of the
/// latest prompt span for the spans that are started under it, when the prompt
/// was sent and when its first chunk came, the output streamed so far, and the
/// tool calls that are under way.
pub ghost struct SessionView {
    pub prompt: Option<SpanView>,
    pub link: Option<u64>,
    pub prompt_start: Option<u64>,
    pub first_chunk: Option<u64>,
    pub output: Seq<char>,
    pub tools: Rows<SpanView>,
}

/// All that the correlator remembers.
pub ghost struct ManagerView {
    pub record_content: bool,
    pub agent_name: Option<Seq<char>>,
    pub agent_version: Option<Seq<char>>,
    pub client_name: Option<Seq<char>>,
    pub client_version: Option<Seq<char>>,
    pub protocol_version: Option<i64>,
    pub sessions: Rows<SessionView>,
    pub pending: Rows<PendingView>,
    pub root: Option<SpanView>,
    pub root_link: Option<u64>,
    pub started: u64,
}

/// A state with what the step that led to it reported.
pub ghost struct Outcome {
    pub state: ManagerView,
    pub telemetry: TelemetryView,
}

/// The number of the span that is started after span `id`.
pub open spec fn following(id: u64) -> u64 {
    if id == u64::MAX {
        0
    } else {
        (id + 1) as u64
    }
}

/// The value, or `default` where there is none.
pub open spec fn or_text(value: Option<Seq<char>>, default: Seq<char>) -> Seq<char> {
    match value {
        Some(v) => v,
        None => default,
    }
}

/// The attribute `key`, where there is a value for it.
pub open spec fn known(key: Seq<char>, value: Option<Seq<char>>) -> Seq<AttributeView> {
    match value {
        Some(v) => seq![text_attribute(key, v)],
        None => seq![],
    }
}

/// The attribute `key` with the JSON text of a document, where content is
/// recorded and there is a document.
pub open spec fn recorded(record_content: bool, key: Seq<char>, content: Option<Document>) -> Seq<
    AttributeView,
> {
    match content {
        Some(d) => if record_content {
            seq![text_attribute(key, rendered(d))]
        } else {
            seq![]
        },
        None => seq![],
    }
}

/// The attributes of the root span.
pub open spec fn root_attributes() -> Seq<AttributeView> {
    seq![
        text_attribute("acp.method.name"@, "session"@),
        text_attribute("network.transport"@, "pipe"@),
    ]
}

/// The attributes of the span of a plain method call.
pub open spec fn rpc_attributes(method: Seq<char>) -> Seq<AttributeView> {
    seq![
        text_attribute("rpc.system"@, "jsonrpc"@),
        text_attribute("rpc.method"@, method),
        text_attribute("acp.method.name"@, method),
        text_attribute("network.transport"@, "pipe"@),
    ]
}

/// What a prompt span says of the agent, once the agent is known.
pub open spec fn agent_attributes(agent_name: Option<Seq<char>>) -> Seq<AttributeView> {
    match agent_name {
        Some(name) => seq![
            text_attribute("gen_ai.provider.name"@, "acp."@ + name),
            text_attribute("gen_ai.agent.name"@, name),
            text_attribute("gen_ai.agent.id"@, name),
        ],
        None => seq![],
    }
}

/// The input message of a prompt, where content is recorded and the prompt
/// has text.
pub open spec fn input_attributes(record_content: bool, params: Document) -> Seq<AttributeView> {
    match prompt_text(params) {
        Some(text) => if record_content {
            seq![text_attribute("gen_ai.input.messages"@, rendered(chat("user"@, text, None)))]
        } else {
            seq![]
        },
        None => seq![],
    }
}

/// The attributes of the span of a file-system or terminal request.
pub open spec fn tool_request_attributes(
    record_content: bool,
    key: Seq<char>,
    method: Seq<char>,
    params: Document,
) -> Seq<AttributeView> {
    seq![
        text_attribute("gen_ai.operation.name"@, "execute_tool"@),
        text_attribute("gen_ai.tool.name"@, method),
        text_attribute("gen_ai.tool.call.id"@, key),
        text_attribute("gen_ai.tool.type"@, "function"@),
        text_attribute("acp.method.name"@, method),
        text_attribute("network.transport"@, "pipe"@),
    ] + known("gen_ai.conversation.id"@, session_id(params)) + recorded(
        record_content,
        "gen_ai.tool.call.arguments"@,
        Some(params),
    )
}

/// The title of a tool call.
pub open spec fn tool_title(params: Document) -> Seq<char> {
    or_text(update_text(params, "title"@), "unknown tool"@)
}

/// The kind of a tool call.
pub open spec fn tool_kind(params: Document) -> Seq<char> {
    or_text(update_text(params, "kind"@), "other"@)
}

/// The attributes of the span of a tool call that a notification reports.
pub open spec fn tool_call_attributes(
    record_content: bool,
    session: Seq<char>,
    call: Seq<char>,
    params: Document,
) -> Seq<AttributeView> {
    seq![
        text_attribute("gen_ai.operation.name"@, "execute_tool"@),
        text_attribute("gen_ai.tool.name"@, tool_title(params)),
        text_attribute("gen_ai.tool.call.id"@, call),
        text_attribute("gen_ai.tool.type"@, tool_type(tool_kind(params))),
        text_attribute("gen_ai.conversation.id"@, session),
        text_attribute("acp.method.name"@, "session/update"@),
        text_attribute("acp.tool.kind"@, tool_kind(params)),
        text_attribute("network.transport"@, "pipe"@),
    ] + recorded(record_content, "gen_ai.tool.call.arguments"@, update_member(params, "rawInput"@))
}

/// The error kind of an error payload: its code as JSON text, or a fixed word
/// where it has none.
pub open spec fn error_kind(error: Document) -> Seq<char> {
    match error.member("code"@) {
        Some(code) => rendered(code),
        None => "_OTHER"@,
    }
}

/// The span marked as failed by an error payload, where there is one.
pub open spec fn failed(span: SpanView, error: Option<Document>) -> SpanView {
    match error {
        Some(e) => span.with_error(rendered(e)).with_attribute(
            text_attribute("error.type"@, error_kind(e)),
        ),
        None => span,
    }
}

/// The value of the finish-reasons attribute for one stop reason.
pub open spec fn finish_reasons(stop: Seq<char>) -> Seq<char> {
    "[\""@ + stop + "\"]"@
}

/// The finish reason of a stop reason that may be absent.
pub open spec fn finish_of(stop: Option<Seq<char>>) -> Option<Seq<char>> {
    match stop {
        Some(reason) => Some(finish_reason(reason)),
        None => None,
    }
}

/// The stop reason of a prompt's result.
pub open spec fn stop_reason(result: Option<Document>) -> Option<Seq<char>> {
    match result {
        Some(r) => text_member(r, "stopReason"@),
        None => None,
    }
}

/// The output message of a prompt, where content is recorded and there was
/// output.
pub open spec fn output_attributes(
    record_content: bool,
    output: Seq<char>,
    stop: Option<Seq<char>>,
) -> Seq<AttributeView> {
    if record_content && output.len() > 0 {
        seq![
            text_attribute(
                "gen_ai.output.messages"@,
                rendered(chat("assistant"@, output, finish_of(stop))),
            ),
        ]
    } else {
        seq![]
    }
}

/// The time from a prompt to its first chunk, where both are known.
pub open spec fn time_to_first_token(session: SessionView) -> Option<u64> {
    match (session.first_chunk, session.prompt_start) {
        (Some(first), Some(start)) => Some(span_between(start, first)),
        _ => None,
    }
}

/// What the answer to a prompt sets on the prompt span before it ends.
pub open spec fn answer_attributes(
    record_content: bool,
    session: SessionView,
    result: Option<Document>,
) -> Seq<AttributeView> {
    known("gen_ai.response.finish_reasons"@, match stop_reason(result) {
        Some(reason) => Some(finish_reasons(reason)),
        None => None,
    }) + output_attributes(record_content, session.output, stop_reason(result)) + (
    match time_to_first_token(session) {
        Some(t) => seq![integer_attribute("acp.time_to_first_token_ms"@, whole_millis(t))],
        None => seq![],
    })
}

/// The measurements that the answer to a prompt takes.
pub open spec fn answer_measurements(session: SessionView, start: u64, now: u64) -> Seq<
    MeasurementView,
> {
    (match time_to_first_token(session) {
        Some(t) => seq![
            MeasurementView {
                instrument: Instrument::TimeToFirstToken,
                nanos: t,
                operation: "invoke_agent"@,
            },
        ],
        None => seq![],
    }).push(
        MeasurementView {
            instrument: Instrument::OperationDuration,
            nanos: span_between(start, now),
            operation: "invoke_agent"@,
        },
    )
}

/// A session that has not been prompted.
pub open spec fn blank_session() -> SessionView {
    SessionView {
        prompt: None,
        link: None,
        prompt_start: None,
        first_chunk: None,
        output: seq![],
        tools: seq![],
    }
}

/// The spans of a session, closed because the conversation ended: the prompt
/// span and then the tool spans, each marked as failed.
pub open spec fn session_spans(session: SessionView) -> Seq<SpanView> {
    (match session.prompt {
        Some(span) => seq![span.with_error("session ended unexpectedly"@)],
        None => seq![],
    }) + session.tools.map_values(
        |tool: (Seq<char>, SpanView)| tool.1.with_error("session ended unexpectedly"@),
    )
}

/// The spans of all sessions, session by session.
pub open spec fn sessions_spans(sessions: Rows<SessionView>) -> Seq<SpanView>
    decreases sessions.len(),
{
    if sessions.len() == 0 {
        seq![]
    } else {
        session_spans(sessions.first().1) + sessions_spans(sessions.drop_first())
    }
}

/// The span of a request that never got a response, marked as failed.
pub open spec fn pending_span(entry: PendingView) -> Seq<SpanView> {
    match entry.span {
        Some(span) => seq![span.with_error("process exited before response"@)],
        None => seq![],
    }
}

/// The spans of the requests that never got a response.
pub open spec fn pending_spans(pending: Rows<PendingView>) -> Seq<SpanView>
    decreases pending.len(),
{
    if pending.len() == 0 {
        seq![]
    } else {
        pending_span(pending.first().1) + pending_spans(pending.drop_first())
    }
}

/// The root span, where it is open.
pub open spec fn root_span(root: Option<SpanView>) -> Seq<SpanView> {
    match root {
        Some(span) => seq![span],
        None => seq![],
    }
}

/// A waiting prompt has no span of its own.
pub open spec fn bare_prompt(entry: PendingView) -> bool {
    entry.method == "session/prompt"@ ==> entry.span is None
}

/// No waiting prompt has a span of its own: its span lives on its session.
pub open spec fn bare(pending: Rows<PendingView>) -> bool {
    forall|i: int| 0 <= i < pending.len() ==> bare_prompt(#[trigger] pending[i].1)
}

/// No session stands twice, and no tool call stands twice in its session.
pub open spec fn tidy(sessions: Rows<SessionView>) -> bool {
    &&& distinct(sessions)
    &&& forall|i: int| 0 <= i < sessions.len() ==> distinct(#[trigger] sessions[i].1.tools)
}

impl ManagerView {
    /// The state before the first line.
    pub open spec fn initial(record_content: bool) -> ManagerView {
        ManagerView {
            record_content,
            agent_name: None,
            agent_version: None,
            client_name: None,
            client_version: None,
            protocol_version: None,
            sessions: seq![],
            pending: seq![],
            root: None,
            root_link: None,
            started: 0,
        }
    }

    /// No key stands twice in a table: at most one request waits under an id,
    /// a session stands once, and a tool call stands once in its session. And
    /// a waiting prompt has no span among the waiting requests.
    pub open spec fn wf(self) -> bool {
        distinct(self.pending) && bare(self.pending) && tidy(self.sessions)
    }

    /// Nothing changes and nothing is reported.
    pub open spec fn quiet(self) -> Outcome {
        Outcome { state: self, telemetry: TelemetryView::nothing() }
    }

    /// The next span, started under the root span where there is one.
    pub open spec fn under_root(
        self,
        name: Seq<char>,
        kind: SpanKind,
        attributes: Seq<AttributeView>,
    ) -> SpanView {
        SpanView { id: self.started, parent: self.root_link, name, kind, attributes, error: None }
    }

    /// The parent for a span that belongs to a session: the session's latest
    /// prompt span.
    pub open spec fn prompt_link(self, session: Option<Seq<char>>) -> Option<u64> {
        match session {
            Some(id) => match lookup(self.sessions, id) {
                Some(s) => s.link,
                None => None,
            },
            None => None,
        }
    }

    /// The state after one more span was started.
    pub open spec fn counted(self) -> ManagerView {
        ManagerView { started: following(self.started), ..self }
    }

    /// The request is put among the pending ones. A request that waited under
    /// the same id gives way, and its span is closed.
    pub open spec fn filed(self, key: Seq<char>, entry: PendingView) -> Outcome {
        Outcome {
            state: ManagerView { pending: put(self.pending, key, entry), ..self },
            telemetry: TelemetryView::nothing().closing_any(
                match lookup(self.pending, key) {
                    Some(before) => before.span,
                    None => None,
                },
            ),
        }
    }

    /// The state that knows the client from an `initialize` request.
    pub open spec fn with_client(self, params: Document) -> ManagerView {
        match identity(params, "clientInfo"@) {
            Some((name, version)) => ManagerView {
                client_name: Some(name),
                client_version: version,
                ..self
            },
            None => self,
        }
    }

    /// The state with the root span open.
    pub open spec fn with_root(self) -> ManagerView {
        if self.root is None {
            ManagerView {
                root: Some(
                    SpanView {
                        id: self.started,
                        parent: None,
                        name: "acp_session"@,
                        kind: SpanKind::Internal,
                        attributes: root_attributes(),
                        error: None,
                    },
                ),
                root_link: Some(self.started),
                ..self
            }.counted()
        } else {
            self
        }
    }

    /// An `initialize` request.
    pub open spec fn initialize(self, key: Seq<char>, params: Document, now: u64) -> Outcome {
        let ready = self.with_client(params).with_root();
        ready.counted().filed(
            key,
            PendingView {
                span: Some(
                    ready.under_root(
                        "initialize"@,
                        SpanKind::Internal,
                        rpc_attributes("initialize"@),
                    ),
                ),
                method: "initialize"@,
                session: None,
                start: now,
            },
        )
    }

    /// The name of a prompt span.
    pub open spec fn prompt_name(self) -> Seq<char> {
        match self.agent_name {
            Some(name) => "invoke_agent "@ + name,
            None => "invoke_agent"@,
        }
    }

    /// The attributes that a prompt span starts with.
    pub open spec fn prompt_attributes(self, session: Seq<char>, params: Document) -> Seq<
        AttributeView,
    > {
        seq![
            text_attribute("gen_ai.operation.name"@, "invoke_agent"@),
            text_attribute("gen_ai.conversation.id"@, session),
            text_attribute("acp.method.name"@, "session/prompt"@),
            text_attribute("network.transport"@, "pipe"@),
        ] + agent_attributes(self.agent_name) + known("acp.agent.version"@, self.agent_version)
            + known("acp.client.name"@, self.client_name) + known(
            "acp.client.version"@,
            self.client_version,
        ) + input_attributes(self.record_content, params)
    }

    /// A `session/prompt` request. The session is made where it is new. Its
    /// prompt span is started and becomes the parent of what the session does
    /// from now on; a prompt span that was still open gives way and is closed.
    pub open spec fn prompt(self, key: Seq<char>, params: Document, now: u64) -> Outcome {
        let id = prompt_session(params);
        let before = match lookup(self.sessions, id) {
            Some(s) => s,
            None => blank_session(),
        };
        let span = self.under_root(
            self.prompt_name(),
            SpanKind::Client,
            self.prompt_attributes(id, params),
        );
        let session = SessionView {
            prompt: Some(span),
            link: Some(span.id),
            prompt_start: Some(now),
            first_chunk: None,
            output: seq![],
            tools: before.tools,
        };
        let prompted = ManagerView { sessions: put(self.sessions, id, session), ..self };
        let next = prompted.counted().filed(
            key,
            PendingView {
                span: None,
                method: "session/prompt"@,
                session: Some(id),
                start: now,
            },
        );
        Outcome {
            state: next.state,
            telemetry: TelemetryView::nothing().closing_any(before.prompt).then_all(
                next.telemetry,
            ),
        }
    }

    /// A file-system or terminal request: a tool that the agent runs through
    /// the editor. Its span stands under the session's prompt span, or under
    /// the root span where the request names no session that was prompted.
    pub open spec fn tool_request(
        self,
        key: Seq<char>,
        method: Seq<char>,
        params: Document,
        now: u64,
    ) -> Outcome {
        let parent = match self.prompt_link(session_id(params)) {
            Some(id) => Some(id),
            None => self.root_link,
        };
        self.counted().filed(
            key,
            PendingView {
                span: Some(
                    SpanView {
                        id: self.started,
                        parent,
                        name: "execute_tool "@ + method,
                        kind: SpanKind::Internal,
                        attributes: tool_request_attributes(
                            self.record_content,
                            key,
                            method,
                            params,
                        ),
                        error: None,
                    },
                ),
                method,
                session: session_id(params),
                start: now,
            },
        )
    }

    /// Any other request.
    pub open spec fn other_request(
        self,
        key: Seq<char>,
        method: Seq<char>,
        params: Document,
        now: u64,
    ) -> Outcome {
        self.counted().filed(
            key,
            PendingView {
                span: Some(
                    self.under_root(
                        method,
                        SpanKind::Internal,
                        rpc_attributes(method).push(text_attribute("jsonrpc.request.id"@, key)),
                    ),
                ),
                method,
                session: session_id(params),
                start: now,
            },
        )
    }

    /// A request, by its method. Requests are kept under the JSON text of
    /// their id.
    pub open spec fn request(
        self,
        id: Document,
        method: Seq<char>,
        params: Document,
        now: u64,
    ) -> Outcome {
        let key = rendered(id);
        if method == "initialize"@ {
            self.initialize(key, params, now)
        } else if method == "session/prompt"@ {
            self.prompt(key, params, now)
        } else if fs_or_terminal(method) {
            self.tool_request(key, method, params, now)
        } else {
            self.other_request(key, method, params, now)
        }
    }

    /// The state that knows the agent and the protocol version from the result
    /// of `initialize`.
    pub open spec fn with_agent(self, result: Option<Document>) -> ManagerView {
        match result {
            Some(r) => {
                let version = match r.member("protocolVersion"@) {
                    Some(v) => v.integer(),
                    None => None,
                };
                match identity(r, "agentInfo"@) {
                    Some((name, agent_version)) => ManagerView {
                        agent_name: Some(name),
                        agent_version,
                        protocol_version: version,
                        ..self
                    },
                    None => ManagerView { protocol_version: version, ..self },
                }
            },
            None => self,
        }
    }

    /// What the result of `initialize` sets on its span.
    pub open spec fn agent_found(result: Option<Document>) -> Seq<AttributeView> {
        match result {
            Some(r) => (match identity(r, "agentInfo"@) {
                Some((name, _)) => seq![
                    text_attribute("gen_ai.agent.name"@, name),
                    text_attribute("gen_ai.agent.id"@, name),
                ],
                None => seq![],
            }) + (match r.member("protocolVersion"@) {
                Some(v) => match v.integer() {
                    Some(n) => seq![integer_attribute("acp.protocol.version"@, n)],
                    None => seq![],
                },
                None => seq![],
            }),
            None => seq![],
        }
    }

    /// The root span, told the agent's name where both are there.
    pub open spec fn root_told(self) -> Option<SpanView> {
        match (self.agent_name, self.root) {
            (Some(name), Some(root)) => Some(
                root.with_attribute(text_attribute("gen_ai.agent.name"@, name)),
            ),
            _ => self.root,
        }
    }

    /// The response to `initialize`.
    pub open spec fn initialized(
        self,
        entry: PendingView,
        result: Option<Document>,
        error: Option<Document>,
    ) -> Outcome {
        match entry.span {
            Some(span) => {
                let known = self.with_agent(result);
                Outcome {
                    state: ManagerView { root: known.root_told(), ..known },
                    telemetry: TelemetryView::nothing().closing(
                        failed(span.with_attributes(Self::agent_found(result)), error),
                    ),
                }
            },
            None => self.quiet(),
        }
    }

    /// The response to a prompt: the prompt span of the session is closed, and
    /// the time the prompt took is measured, whether it succeeded or not.
    pub open spec fn prompted(
        self,
        entry: PendingView,
        result: Option<Document>,
        error: Option<Document>,
        now: u64,
    ) -> Outcome {
        match entry.session {
            Some(id) => match lookup(self.sessions, id) {
                Some(session) => match session.prompt {
                    Some(span) => Outcome {
                        state: ManagerView {
                            sessions: put(
                                self.sessions,
                                id,
                                SessionView { prompt: None, ..session },
                            ),
                            ..self
                        },
                        telemetry: TelemetryView {
                            closed: seq![
                                failed(
                                    span.with_attributes(
                                        answer_attributes(self.record_content, session, result),
                                    ),
                                    error,
                                ),
                            ],
                            measurements: answer_measurements(session, entry.start, now),
                        },
                    },
                    None => self.quiet(),
                },
                None => self.quiet(),
            },
            None => self.quiet(),
        }
    }

    /// The response to a file-system or terminal request.
    pub open spec fn tool_answered(
        self,
        entry: PendingView,
        result: Option<Document>,
        error: Option<Document>,
    ) -> Outcome {
        match entry.span {
            Some(span) => Outcome {
                state: self,
                telemetry: TelemetryView::nothing().closing(
                    failed(
                        span.with_attributes(
                            recorded(self.record_content, "gen_ai.tool.call.result"@, result),
                        ),
                        error,
                    ),
                ),
            },
            None => self.quiet(),
        }
    }

    /// The response to any other request.
    pub open spec fn answered(self, entry: PendingView, error: Option<Document>) -> Outcome {
        match entry.span {
            Some(span) => Outcome {
                state: self,
                telemetry: TelemetryView::nothing().closing(
                    match error {
                        Some(e) => span.with_error(rendered(e)),
                        None => span,
                    },
                ),
            },
            None => self.quiet(),
        }
    }

    /// A response. One whose id no request is waiting under changes nothing
    /// and reports nothing; otherwise the request leaves the pending ones and
    /// is answered by its method.
    pub open spec fn response(
        self,
        id: Document,
        result: Option<Document>,
        error: Option<Document>,
        now: u64,
    ) -> Outcome {
        let key = rendered(id);
        match lookup(self.pending, key) {
            Some(entry) => {
                let rest = ManagerView { pending: without(self.pending, key), ..self };
                if entry.method == "initialize"@ {
                    rest.initialized(entry, result, error)
                } else if entry.method == "session/prompt"@ {
                    rest.prompted(entry, result, error, now)
                } else if fs_or_terminal(entry.method) {
                    rest.tool_answered(entry, result, error)
                } else {
                    rest.answered(entry, error)
                }
            },
            None => self.quiet(),
        }
    }

    /// A chunk of the agent's message: the first one of a prompt is timed, and
    /// its text is added to the session's output.
    pub open spec fn chunk(self, id: Seq<char>, params: Document, now: u64) -> Outcome {
        match lookup(self.sessions, id) {
            Some(session) => ManagerView {
                sessions: put(
                    self.sessions,
                    id,
                    SessionView {
                        first_chunk: match session.first_chunk {
                            Some(t) => Some(t),
                            None => Some(now),
                        },
                        output: session.output + or_text(chunk_text(params), seq![]),
                        ..session
                    },
                ),
                ..self
            }.quiet(),
            None => self.quiet(),
        }
    }

    /// A tool call is reported: its span is started under the session's latest
    /// prompt span and kept in the session under the call's id. A call that was
    /// kept under the same id gives way and is closed; in a session that was
    /// never prompted there is nowhere to keep the span, and it is closed at
    /// once.
    pub open spec fn tool_call(self, id: Seq<char>, params: Document) -> Outcome {
        match update_text(params, "toolCallId"@) {
            Some(call) => {
                let span = SpanView {
                    id: self.started,
                    parent: self.prompt_link(Some(id)),
                    name: "execute_tool "@ + tool_title(params),
                    kind: SpanKind::Internal,
                    attributes: tool_call_attributes(self.record_content, id, call, params),
                    error: None,
                };
                match lookup(self.sessions, id) {
                    Some(session) => Outcome {
                        state: ManagerView {
                            sessions: put(
                                self.sessions,
                                id,
                                SessionView { tools: put(session.tools, call, span), ..session },
                            ),
                            ..self
                        }.counted(),
                        telemetry: TelemetryView::nothing().closing_any(
                            lookup(session.tools, call),
                        ),
                    },
                    None => Outcome {
                        state: self.counted(),
                        telemetry: TelemetryView::nothing().closing(span),
                    },
                }
            },
            None => self.quiet(),
        }
    }

    /// Whether a status ends a tool call.
    pub open spec fn terminal(status: Seq<char>) -> bool {
        status == "completed"@ || status == "failed"@
    }

    /// The span of a tool call as its last update leaves it.
    pub open spec fn tool_ended(self, span: SpanView, params: Document) -> SpanView {
        let marked = if update_text(params, "status"@) == Some("failed"@) {
            span.with_error("tool call failed"@).with_attribute(
                text_attribute("error.type"@, "tool_error"@),
            )
        } else {
            span
        };
        marked.with_attributes(
            recorded(
                self.record_content,
                "gen_ai.tool.call.result"@,
                update_member(params, "rawOutput"@),
            ),
        )
    }

    /// An update of a tool call: the span is closed where the status is
    /// `completed` or `failed`, and stays as it is for any other status.
    pub open spec fn tool_update(self, id: Seq<char>, params: Document) -> Outcome {
        match (update_text(params, "toolCallId"@), lookup(self.sessions, id)) {
            (Some(call), Some(session)) => match lookup(session.tools, call) {
                Some(span) => if Self::terminal(or_text(update_text(params, "status"@), seq![])) {
                    Outcome {
                        state: ManagerView {
                            sessions: put(
                                self.sessions,
                                id,
                                SessionView { tools: without(session.tools, call), ..session },
                            ),
                            ..self
                        },
                        telemetry: TelemetryView::nothing().closing(self.tool_ended(span, params)),
                    }
                } else {
                    self.quiet()
                },
                None => self.quiet(),
            },
            _ => self.quiet(),
        }
    }

    /// A notification. Only session updates that name their session and their
    /// kind are looked at.
    pub open spec fn notification(self, method: Seq<char>, params: Document, now: u64) -> Outcome {
        if method == "session/update"@ {
            match (session_id(params), update_text(params, "sessionUpdate"@)) {
                (Some(id), Some(kind)) => if kind == "agent_message_chunk"@ {
                    self.chunk(id, params, now)
                } else if kind == "tool_call"@ {
                    self.tool_call(id, params)
                } else if kind == "tool_call_update"@ {
                    self.tool_update(id, params)
                } else {
                    self.quiet()
                },
                _ => self.quiet(),
            }
        } else {
            self.quiet()
        }
    }

    /// One message.
    pub open spec fn step(self, message: Message, now: u64) -> Outcome {
        match message {
            Message::Request { id, method, params } => self.request(id, method, params, now),
            Message::Response { id, result, error } => self.response(id, result, error, now),
            Message::Notification { method, params } => self.notification(method, params, now),
        }
    }

    /// One line that classifies as `message`, or as nothing.
    pub open spec fn line(self, message: Option<Message>, now: u64) -> Outcome {
        match message {
            Some(m) => self.step(m, now),
            None => self.quiet(),
        }
    }

    /// One line of text, seen at `now`: what the message that it classifies as
    /// does, and nothing where the line is no JSON text or no message.
    pub open spec fn seen(self, text: Seq<char>, now: u64) -> Outcome {
        match parsed(text) {
            Some(d) => self.line(classified(d), now),
            None => self.quiet(),
        }
    }

    /// The spans that are open, as they are closed when the conversation
    /// ends: those of the sessions, those of the pending requests, and the root
    /// span.
    pub open spec fn last_spans(self) -> Seq<SpanView> {
        sessions_spans(self.sessions) + pending_spans(self.pending) + root_span(self.root)
    }

    /// The end of the conversation: every span that is still open is closed,
    /// those of sessions and of pending requests marked as failed, and the root
    /// span last.
    pub open spec fn shutdown(self) -> Outcome {
        Outcome {
            state: ManagerView { sessions: seq![], pending: seq![], root: None, ..self },
            telemetry: TelemetryView { closed: self.last_spans(), measurements: seq![] },
        }
    }
}

/// The session that a prompt is for.
pub open spec fn prompt_session(params: Document) -> Seq<char> {
    or_text(session_id(params), "unknown"@)
}

/// The state after a sequence of messages, each with the time it was seen at.
pub open spec fn run(s: ManagerView, messages: Seq<(Message, u64)>) -> ManagerView
    decreases messages.len(),
{
    if messages.len() == 0 {
        s
    } else {
        run(s, messages.drop_last()).step(messages.last().0, messages.last().1).state
    }
}

/// How many spans a sequence of messages closes.
pub open spec fn closed_during(s: ManagerView, messages: Seq<(Message, u64)>) -> nat
    decreases messages.len(),
{
    if messages.len() == 0 {
        0
    } else {
        closed_during(s, messages.drop_last()) + run(s, messages.drop_last()).step(
            messages.last().0,
            messages.last().1,
        ).telemetry.closed.len()
    }
}

} // verus!
