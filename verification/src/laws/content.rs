//! Content recording: while it is off, no attribute holds content.

use crate::acp::{fs_or_terminal, session_id, update_member, update_text, Message};
use crate::json::{rendered, Document};
use crate::model::{
    agent_attributes, answer_attributes, blank_session, failed, finish_reasons, input_attributes,
    known, or_text, output_attributes, pending_spans, prompt_session, recorded, root_attributes,
    root_span, rpc_attributes, session_spans, sessions_spans, stop_reason, tool_call_attributes,
    tool_request_attributes, ManagerView, PendingView, SessionView,
};
use crate::record::{text_attribute, AttributeView, SpanView};
use crate::table::{lookup, looked_up_has, put, put_keeps_all, without, without_keeps_all, Rows};
use vstd::prelude::*;

verus! {

/// Whether an attribute holds content of the conversation: a prompt, the
/// agent's output, or the arguments or the result of a tool.
pub open spec fn is_content_key(key: Seq<char>) -> bool {
    ||| key == "gen_ai.input.messages"@
    ||| key == "gen_ai.output.messages"@
    ||| key == "gen_ai.tool.call.arguments"@
    ||| key == "gen_ai.tool.call.result"@
}

/// None of the attributes holds content.
pub open spec fn plain(attributes: Seq<AttributeView>) -> bool {
    forall|i: int| 0 <= i < attributes.len() ==> !is_content_key(#[trigger] attributes[i].key)
}

/// The span has no attribute that holds content.
pub open spec fn plain_span(span: Option<SpanView>) -> bool {
    match span {
        Some(span) => plain(span.attributes),
        None => true,
    }
}

/// No span of the session has an attribute that holds content.
pub open spec fn plain_session(x: SessionView) -> bool {
    plain_span(x.prompt) && plain_tools(x.tools)
}

/// No span of the waiting request has an attribute that holds content.
pub open spec fn plain_pending(entry: PendingView) -> bool {
    plain_span(entry.span)
}

/// No span of any session has an attribute that holds content.
pub open spec fn plain_sessions(sessions: Rows<SessionView>) -> bool {
    forall|i: int| 0 <= i < sessions.len() ==> plain_session(#[trigger] sessions[i].1)
}

/// No span of any waiting request has an attribute that holds content.
pub open spec fn plain_requests(pending: Rows<PendingView>) -> bool {
    forall|i: int| 0 <= i < pending.len() ==> plain_pending(#[trigger] pending[i].1)
}

/// No tool span has an attribute that holds content.
pub open spec fn plain_tools(tools: Rows<SpanView>) -> bool {
    forall|j: int| 0 <= j < tools.len() ==> plain(#[trigger] tools[j].1.attributes)
}

/// Content recording is off, and no open span has an attribute that holds
/// content.
pub open spec fn keeps_content_out(s: ManagerView) -> bool {
    &&& !s.record_content
    &&& plain_span(s.root)
    &&& plain_sessions(s.sessions)
    &&& plain_requests(s.pending)
}

/// The names of the attributes that say how the conversation went are not
/// names of attributes that hold content.
proof fn metadata_keys_are_plain()
    ensures
        !is_content_key("acp.method.name"@),
        !is_content_key("network.transport"@),
        !is_content_key("rpc.system"@),
        !is_content_key("rpc.method"@),
        !is_content_key("jsonrpc.request.id"@),
        !is_content_key("gen_ai.operation.name"@),
        !is_content_key("gen_ai.conversation.id"@),
        !is_content_key("gen_ai.provider.name"@),
        !is_content_key("gen_ai.agent.name"@),
        !is_content_key("gen_ai.agent.id"@),
        !is_content_key("acp.agent.version"@),
        !is_content_key("acp.client.name"@),
        !is_content_key("acp.client.version"@),
        !is_content_key("gen_ai.tool.name"@),
        !is_content_key("gen_ai.tool.call.id"@),
        !is_content_key("gen_ai.tool.type"@),
        !is_content_key("acp.tool.kind"@),
        !is_content_key("acp.protocol.version"@),
        !is_content_key("error.type"@),
        !is_content_key("gen_ai.response.finish_reasons"@),
        !is_content_key("acp.time_to_first_token_ms"@),
{
    reveal_strlit("gen_ai.input.messages");
    reveal_strlit("gen_ai.output.messages");
    reveal_strlit("gen_ai.tool.call.arguments");
    reveal_strlit("gen_ai.tool.call.result");
    reveal_strlit("acp.method.name");
    reveal_strlit("network.transport");
    reveal_strlit("rpc.system");
    reveal_strlit("rpc.method");
    reveal_strlit("jsonrpc.request.id");
    reveal_strlit("gen_ai.operation.name");
    reveal_strlit("gen_ai.conversation.id");
    reveal_strlit("gen_ai.provider.name");
    reveal_strlit("gen_ai.agent.name");
    reveal_strlit("gen_ai.agent.id");
    reveal_strlit("acp.agent.version");
    reveal_strlit("acp.client.name");
    reveal_strlit("acp.client.version");
    reveal_strlit("gen_ai.tool.name");
    reveal_strlit("gen_ai.tool.call.id");
    reveal_strlit("gen_ai.tool.type");
    reveal_strlit("acp.tool.kind");
    reveal_strlit("acp.protocol.version");
    reveal_strlit("error.type");
    reveal_strlit("gen_ai.response.finish_reasons");
    reveal_strlit("acp.time_to_first_token_ms");
    assert("gen_ai.input.messages"@.len() == 21);
    assert("gen_ai.output.messages"@.len() == 22);
    assert("gen_ai.tool.call.arguments"@.len() == 26);
    assert("gen_ai.tool.call.result"@.len() == 23);
    assert("gen_ai.input.messages"@[7] == 'i');
    assert("gen_ai.operation.name"@[7] == 'o');
    assert("gen_ai.output.messages"@[7] == 'o');
    assert("gen_ai.conversation.id"@[7] == 'c');
    assert("gen_ai.tool.call.arguments"@[0] == 'g');
    assert("acp.time_to_first_token_ms"@[0] == 'a');
    assert("acp.method.name"@.len() == 15);
    assert("network.transport"@.len() == 17);
    assert("rpc.system"@.len() == 10);
    assert("rpc.method"@.len() == 10);
    assert("jsonrpc.request.id"@.len() == 18);
    assert("gen_ai.provider.name"@.len() == 20);
    assert("gen_ai.agent.name"@.len() == 17);
    assert("gen_ai.agent.id"@.len() == 15);
    assert("acp.agent.version"@.len() == 17);
    assert("acp.client.name"@.len() == 15);
    assert("acp.client.version"@.len() == 18);
    assert("gen_ai.tool.name"@.len() == 16);
    assert("gen_ai.tool.call.id"@.len() == 19);
    assert("gen_ai.tool.type"@.len() == 16);
    assert("acp.tool.kind"@.len() == 13);
    assert("acp.protocol.version"@.len() == 20);
    assert("error.type"@.len() == 10);
    assert("gen_ai.response.finish_reasons"@.len() == 30);
}

/// With content recording off, no span starts with an attribute that holds
/// content, and no attribute that is set later holds content.
proof fn attributes_are_plain(
    s: ManagerView,
    key: Seq<char>,
    method: Seq<char>,
    session: Seq<char>,
    call: Seq<char>,
    params: Document,
    result: Option<Document>,
    x: SessionView,
)
    requires
        !s.record_content,
    ensures
        plain(root_attributes()),
        plain(rpc_attributes(method)),
        plain(rpc_attributes(method).push(text_attribute("jsonrpc.request.id"@, key))),
        plain(s.prompt_attributes(session, params)),
        plain(tool_request_attributes(false, key, method, params)),
        plain(tool_call_attributes(false, session, call, params)),
        plain(ManagerView::agent_found(result)),
        plain(answer_attributes(false, x, result)),
        plain(recorded(false, "gen_ai.tool.call.result"@, result)),
{
    metadata_keys_are_plain();
    let a = seq![
        text_attribute("gen_ai.operation.name"@, "invoke_agent"@),
        text_attribute("gen_ai.conversation.id"@, session),
        text_attribute("acp.method.name"@, "session/prompt"@),
        text_attribute("network.transport"@, "pipe"@),
    ];
    let b = agent_attributes(s.agent_name);
    let c = known("acp.agent.version"@, s.agent_version);
    let d = known("acp.client.name"@, s.client_name);
    let e = known("acp.client.version"@, s.client_version);
    let f = input_attributes(false, params);
    assert(plain(a));
    assert(plain(b));
    assert(plain(c));
    assert(plain(d));
    assert(plain(e));
    assert(f =~= seq![]);
    assert(s.prompt_attributes(session, params) =~= a + b + c + d + e);
    assert(plain(a + b + c + d + e));
    let g = known(
        "gen_ai.response.finish_reasons"@,
        match stop_reason(result) {
            Some(reason) => Some(finish_reasons(reason)),
            None => None,
        },
    );
    assert(plain(g));
    assert(output_attributes(false, x.output, stop_reason(result)) =~= seq![]);
    assert(plain(answer_attributes(false, x, result)));
    assert(plain(tool_request_attributes(false, key, method, params)));
    assert(plain(tool_call_attributes(false, session, call, params)));
    assert(plain(ManagerView::agent_found(result)));
}

/// Adding attributes that hold no content to a span that holds none, and
/// marking it as failed, gives a span that holds none.
proof fn plain_stays_plain(span: SpanView, more: Seq<AttributeView>, error: Option<Document>)
    requires
        plain(span.attributes),
        plain(more),
    ensures
        plain(span.with_attributes(more).attributes),
        plain(failed(span.with_attributes(more), error).attributes),
        plain(failed(span, error).attributes),
        forall|message: Seq<char>| plain(#[trigger] span.with_error(message).attributes),
        forall|message: Seq<char>|
            plain(
                #[trigger] span.with_error(message).with_attribute(
                    text_attribute("error.type"@, "tool_error"@),
                ).attributes,
            ),
        forall|name: Seq<char>|
            plain(#[trigger] span.with_attribute(text_attribute("gen_ai.agent.name"@, name)).attributes),
{
    metadata_keys_are_plain();
}

/// A request keeps content out.
proof fn request_keeps_content_out(
    s: ManagerView,
    id: Document,
    method: Seq<char>,
    params: Document,
    now: u64,
)
    requires
        keeps_content_out(s),
    ensures
        keeps_content_out(s.request(id, method, params, now).state),
        forall|k: int|
            0 <= k < s.request(id, method, params, now).telemetry.closed.len() ==> plain(
                (#[trigger] s.request(id, method, params, now).telemetry.closed[k]).attributes,
            ),
{
    let key = rendered(id);
    let session = prompt_session(params);
    attributes_are_plain(s, key, method, session, seq![], params, None, blank_session());
    looked_up_has(s.pending, key, |e: PendingView| plain_pending(e));
    looked_up_has(s.sessions, session, |x: SessionView| plain_session(x));
    assert forall|e: PendingView| plain_pending(e) implies plain_requests(
        #[trigger] put(s.pending, key, e),
    ) by {
        put_keeps_all(s.pending, key, e, |e: PendingView| plain_pending(e));
    }
    assert forall|x: SessionView| plain_session(x) implies plain_sessions(
        #[trigger] put(s.sessions, session, x),
    ) by {
        put_keeps_all(s.sessions, session, x, |x: SessionView| plain_session(x));
    }
    let next = s.request(id, method, params, now);
    if method == "initialize"@ {
        let ready = s.with_client(params).with_root();
        assert(ready.pending == s.pending && ready.sessions == s.sessions);
        assert(plain_span(ready.root));
    } else if method == "session/prompt"@ {
        let before = match lookup(s.sessions, session) {
            Some(x) => x,
            None => blank_session(),
        };
        assert(plain_session(before));
    } else if fs_or_terminal(method) {
    } else {
    }
}

/// A response keeps content out.
proof fn response_keeps_content_out(
    s: ManagerView,
    id: Document,
    result: Option<Document>,
    error: Option<Document>,
    now: u64,
)
    requires
        keeps_content_out(s),
    ensures
        keeps_content_out(s.response(id, result, error, now).state),
        forall|k: int|
            0 <= k < s.response(id, result, error, now).telemetry.closed.len() ==> plain(
                (#[trigger] s.response(id, result, error, now).telemetry.closed[k]).attributes,
            ),
{
    let key = rendered(id);
    looked_up_has(s.pending, key, |e: PendingView| plain_pending(e));
    without_keeps_all(s.pending, key, |e: PendingView| plain_pending(e));
    match lookup(s.pending, key) {
        Some(entry) => {
            let rest = ManagerView { pending: without(s.pending, key), ..s };
            assert(keeps_content_out(rest));
            let session = or_text(entry.session, seq![]);
            looked_up_has(s.sessions, session, |x: SessionView| plain_session(x));
            let x = match lookup(s.sessions, session) {
                Some(x) => x,
                None => blank_session(),
            };
            attributes_are_plain(s, key, seq![], session, seq![], Document::Null, result, x);
            assert forall|y: SessionView| plain_session(y) implies plain_sessions(
                #[trigger] put(s.sessions, session, y),
            ) by {
                put_keeps_all(s.sessions, session, y, |x: SessionView| plain_session(x));
            }
            match entry.span {
                Some(span) => {
                    plain_stays_plain(span, ManagerView::agent_found(result), error);
                    plain_stays_plain(
                        span,
                        recorded(false, "gen_ai.tool.call.result"@, result),
                        error,
                    );
                },
                None => {},
            }
            match x.prompt {
                Some(span) => {
                    plain_stays_plain(span, answer_attributes(false, x, result), error);
                },
                None => {},
            }
            match s.root {
                Some(root) => {
                    plain_stays_plain(root, seq![], None);
                },
                None => {},
            }
            if entry.method == "initialize"@ {
                let next = rest.initialized(entry, result, error);
                assert(next.state.sessions == s.sessions);
                assert(next.state.pending == rest.pending);
            } else if entry.method == "session/prompt"@ {
            } else if fs_or_terminal(entry.method) {
            } else {
            }
        },
        None => {},
    }
}

/// A notification keeps content out.
proof fn notification_keeps_content_out(s: ManagerView, method: Seq<char>, params: Document, now: u64)
    requires
        keeps_content_out(s),
    ensures
        keeps_content_out(s.notification(method, params, now).state),
        forall|k: int|
            0 <= k < s.notification(method, params, now).telemetry.closed.len() ==> plain(
                (#[trigger] s.notification(method, params, now).telemetry.closed[k]).attributes,
            ),
{
    match (session_id(params), update_text(params, "toolCallId"@)) {
        (Some(session), call) => {
            let call = or_text(call, seq![]);
            attributes_are_plain(
                s,
                seq![],
                seq![],
                session,
                call,
                params,
                None,
                blank_session(),
            );
            looked_up_has(s.sessions, session, |x: SessionView| plain_session(x));
            assert forall|y: SessionView| plain_session(y) implies plain_sessions(
                #[trigger] put(s.sessions, session, y),
            ) by {
                put_keeps_all(s.sessions, session, y, |x: SessionView| plain_session(x));
            }
            match lookup(s.sessions, session) {
                Some(x) => {
                    let p = |t: SpanView| plain(t.attributes);
                    looked_up_has(x.tools, call, p);
                    without_keeps_all(x.tools, call, p);
                    assert(plain_tools(without(x.tools, call)));
                    assert forall|t: SpanView| plain(t.attributes) implies plain_tools(
                        #[trigger] put(x.tools, call, t),
                    ) by {
                        put_keeps_all(x.tools, call, t, p);
                    }
                    match lookup(x.tools, call) {
                        Some(span) => {
                            plain_stays_plain(span, seq![], None);
                            let marked = span.with_error("tool call failed"@).with_attribute(
                                text_attribute("error.type"@, "tool_error"@),
                            );
                            plain_stays_plain(marked, seq![], None);
                            assert(recorded(
                                false,
                                "gen_ai.tool.call.result"@,
                                update_member(params, "rawOutput"@),
                            ) =~= seq![]);
                        },
                        None => {},
                    }
                },
                None => {},
            }
        },
        _ => {},
    }
}

/// No span that the end of the conversation closes for a session or for a
/// waiting request has an attribute that holds content, where none of the
/// open spans has one.
proof fn last_spans_are_plain(sessions: Rows<SessionView>, pending: Rows<PendingView>)
    requires
        plain_sessions(sessions),
        plain_requests(pending),
    ensures
        forall|k: int|
            0 <= k < sessions_spans(sessions).len() ==> plain(
                (#[trigger] sessions_spans(sessions)[k]).attributes,
            ),
        forall|k: int|
            0 <= k < pending_spans(pending).len() ==> plain(
                (#[trigger] pending_spans(pending)[k]).attributes,
            ),
    decreases sessions.len() + pending.len(),
{
    if sessions.len() > 0 {
        let rest = sessions.drop_first();
        assert forall|i: int| 0 <= i < rest.len() implies plain_session(#[trigger] rest[i].1) by {
            assert(rest[i] == sessions[i + 1]);
        }
        last_spans_are_plain(rest, pending);
        let x = sessions.first().1;
        assert(plain_session(sessions[0].1));
        let first = session_spans(x);
        assert forall|k: int| 0 <= k < first.len() implies plain((#[trigger] first[k]).attributes) by {
            let head: int = if x.prompt is Some {
                1
            } else {
                0
            };
            if k >= head {
                assert(plain(x.tools[k - head].1.attributes));
            }
        }
    } else if pending.len() > 0 {
        let rest = pending.drop_first();
        assert forall|i: int| 0 <= i < rest.len() implies plain_pending(#[trigger] rest[i].1) by {
            assert(rest[i] == pending[i + 1]);
        }
        last_spans_are_plain(sessions, rest);
        assert(plain_pending(pending[0].1));
    }
}

/// Content stays out while recording is off. Recording is never switched on
/// or off by a message. In a state without recording in which no open span has
/// an attribute for a prompt, for output, or for the arguments or the result of
/// a tool, no message and no end of the conversation closes a span that has
/// one, and no message leaves an open span that has one. The state before the
/// first line is such a state.
pub proof fn content_stays_out(s: ManagerView, message: Message, now: u64)
    requires
        keeps_content_out(s),
    ensures
        keeps_content_out(s.step(message, now).state),
        forall|k: int|
            0 <= k < s.step(message, now).telemetry.closed.len() ==> plain(
                (#[trigger] s.step(message, now).telemetry.closed[k]).attributes,
            ),
        keeps_content_out(s.shutdown().state),
        forall|k: int|
            0 <= k < s.shutdown().telemetry.closed.len() ==> plain(
                (#[trigger] s.shutdown().telemetry.closed[k]).attributes,
            ),
        keeps_content_out(ManagerView::initial(false)),
{
    match message {
        Message::Request { id, method, params } => request_keeps_content_out(
            s,
            id,
            method,
            params,
            now,
        ),
        Message::Response { id, result, error } => response_keeps_content_out(
            s,
            id,
            result,
            error,
            now,
        ),
        Message::Notification { method, params } => notification_keeps_content_out(
            s,
            method,
            params,
            now,
        ),
    }
    last_spans_are_plain(s.sessions, s.pending);
    let a = sessions_spans(s.sessions);
    let b = pending_spans(s.pending);
    let c = root_span(s.root);
    assert forall|k: int| 0 <= k < (a + b + c).len() implies plain(
        (#[trigger] (a + b + c)[k]).attributes,
    ) by {
        if k < a.len() {
            assert((a + b + c)[k] == a[k]);
        } else if k < a.len() + b.len() {
            assert((a + b + c)[k] == b[k - a.len()]);
        } else {
            assert((a + b + c)[k] == c[k - a.len() - b.len()]);
        }
    }
}

/// Recording is never switched on or off.
pub proof fn recording_is_fixed(s: ManagerView, message: Message, now: u64)
    ensures
        s.step(message, now).state.record_content == s.record_content,
        s.shutdown().state.record_content == s.record_content,
{
    match message {
        Message::Request { id, method, params } => {
            let next = s.request(id, method, params, now);
            if method == "initialize"@ {
                let ready = s.with_client(params).with_root();
                assert(ready.record_content == s.record_content);
            }
        },
        Message::Response { id, result, error } => {},
        Message::Notification { method, params } => {},
    }
}

} // verus!
