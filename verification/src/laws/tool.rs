//! The end of the conversation: nothing stays open, and a tool call that was
//! never completed is closed with the rest.

use crate::acp::{session_id, update_text, Message};
use crate::json::{rendered, Document};
use crate::model::{
    failed, or_text, pending_spans, prompt_session, root_span, run, session_spans, sessions_spans,
    tool_call_attributes, tool_title, ManagerView, PendingView, SessionView,
};
use crate::record::{SpanKind, SpanView};
use crate::table::{
    lookup, lookup_is_a_row, put, put_then_lookup, without, without_then_lookup, Rows,
};
use vstd::prelude::*;

verus! {

/// The span of the tool call `call` of `session`, where it is under way.
pub open spec fn tool_at(s: ManagerView, session: Seq<char>, call: Seq<char>) -> Option<SpanView> {
    match lookup(s.sessions, session) {
        Some(x) => lookup(x.tools, call),
        None => None,
    }
}

/// Whether a message leaves the tool call `call` of `session` alone: it is
/// neither a report of a tool call under the same id in that session nor an
/// update that completes or fails it.
pub open spec fn leaves_tool(message: Message, session: Seq<char>, call: Seq<char>) -> bool {
    match message {
        Message::Notification { method, params } => !(method == "session/update"@ && session_id(
            params,
        ) == Some(session) && update_text(params, "toolCallId"@) == Some(call) && (update_text(
            params,
            "sessionUpdate"@,
        ) == Some("tool_call"@) || (update_text(params, "sessionUpdate"@) == Some(
            "tool_call_update"@,
        ) && ManagerView::terminal(or_text(update_text(params, "status"@), seq![]))))),
        _ => true,
    }
}

/// Tool spans change only by their own updates. A message that is neither a
/// report of the tool call `call` in `session` nor an update that completes or
/// fails it leaves the call as it was: not under way where it was not, and
/// under way with the same span where it was. So a tool span is opened only by
/// a `tool_call` update and closed only by an update that completes or fails
/// it, or by the end of the conversation.
pub proof fn tool_spans_change_only_by_their_updates(
    s: ManagerView,
    message: Message,
    now: u64,
    session: Seq<char>,
    call: Seq<char>,
)
    requires
        leaves_tool(message, session, call),
    ensures
        tool_at(s.step(message, now).state, session, call) == tool_at(s, session, call),
{
    let tools = match lookup(s.sessions, session) {
        Some(x) => x.tools,
        None => seq![],
    };
    assert(lookup(Seq::<(Seq<char>, SpanView)>::empty(), call) is None);
    match message {
        Message::Request { id, method, params } => {
            let sid = prompt_session(params);
            assert forall|y: SessionView|
                lookup(#[trigger] put(s.sessions, sid, y), session) == (if sid == session {
                    Some(y)
                } else {
                    lookup(s.sessions, session)
                }) by {
                put_then_lookup(s.sessions, sid, y);
            }
            if method == "initialize"@ {
                let ready = s.with_client(params).with_root();
                assert(ready.sessions == s.sessions);
            }
        },
        Message::Response { id, result, error } => {
            match lookup(s.pending, rendered(id)) {
                Some(entry) => {
                    match entry.session {
                        Some(sid) => {
                            assert forall|y: SessionView|
                                lookup(#[trigger] put(s.sessions, sid, y), session) == (if sid
                                    == session {
                                    Some(y)
                                } else {
                                    lookup(s.sessions, session)
                                }) by {
                                put_then_lookup(s.sessions, sid, y);
                            }
                        },
                        None => {},
                    }
                    let rest = ManagerView { pending: without(s.pending, rendered(id)), ..s };
                    if entry.method == "initialize"@ {
                        assert(rest.initialized(entry, result, error).state.sessions
                            == s.sessions);
                    }
                },
                None => {},
            }
        },
        Message::Notification { method, params } => {
            match session_id(params) {
                Some(sid) => {
                    assert forall|y: SessionView|
                        lookup(#[trigger] put(s.sessions, sid, y), session) == (if sid
                            == session {
                            Some(y)
                        } else {
                            lookup(s.sessions, session)
                        }) by {
                        put_then_lookup(s.sessions, sid, y);
                    }
                    match update_text(params, "toolCallId"@) {
                        Some(other) => {
                            if sid == session && other != call {
                                without_then_lookup(tools, other);
                                assert forall|t: SpanView|
                                    lookup(#[trigger] put(tools, other, t), call) == lookup(
                                        tools,
                                        call,
                                    ) by {
                                    put_then_lookup(tools, other, t);
                                }
                            }
                        },
                        None => {},
                    }
                },
                None => {},
            }
        },
    }
}

/// Messages that leave a tool call alone leave its span open and as it was.
proof fn tool_waits_through(
    s: ManagerView,
    messages: Seq<(Message, u64)>,
    session: Seq<char>,
    call: Seq<char>,
    span: SpanView,
)
    requires
        tool_at(s, session, call) == Some(span),
        forall|i: int| 0 <= i < messages.len() ==> leaves_tool(#[trigger] messages[i].0, session, call),
    ensures
        tool_at(run(s, messages), session, call) == Some(span),
    decreases messages.len(),
{
    if messages.len() > 0 {
        let front = messages.drop_last();
        assert forall|i: int| 0 <= i < front.len() implies leaves_tool(
            #[trigger] front[i].0,
            session,
            call,
        ) by {
            assert(front[i] == messages[i]);
        }
        tool_waits_through(s, front, session, call, span);
        tool_spans_change_only_by_their_updates(
            run(s, front),
            messages.last().0,
            messages.last().1,
            session,
            call,
        );
    }
}

/// The spans of a session that stands among the sessions are among the spans
/// of all sessions.
proof fn session_spans_are_among(sessions: Rows<SessionView>, i: int, span: SpanView)
    requires
        0 <= i < sessions.len(),
        session_spans(sessions[i].1).contains(span),
    ensures
        sessions_spans(sessions).contains(span),
    decreases sessions.len(),
{
    let first = session_spans(sessions.first().1);
    let rest = sessions_spans(sessions.drop_first());
    if i == 0 {
        let k = choose|k: int| 0 <= k < first.len() && first[k] == span;
        assert((first + rest)[k] == span);
    } else {
        assert(sessions.drop_first()[i - 1] == sessions[i]);
        session_spans_are_among(sessions.drop_first(), i - 1, span);
        let k = choose|k: int| 0 <= k < rest.len() && rest[k] == span;
        assert((first + rest)[first.len() + k] == span);
    }
}

/// Every span that the end of the conversation closes for the sessions and
/// for the pending requests is marked as failed.
proof fn last_spans_are_marked(sessions: Rows<SessionView>, pending: Rows<PendingView>)
    ensures
        forall|k: int|
            0 <= k < sessions_spans(sessions).len() ==> (#[trigger] sessions_spans(
                sessions,
            )[k]).error == Some("session ended unexpectedly"@),
        forall|k: int|
            0 <= k < pending_spans(pending).len() ==> (#[trigger] pending_spans(pending)[k]).error
                == Some("process exited before response"@),
    decreases sessions.len() + pending.len(),
{
    if sessions.len() > 0 {
        last_spans_are_marked(sessions.drop_first(), pending);
    } else if pending.len() > 0 {
        last_spans_are_marked(sessions, pending.drop_first());
    }
}

/// The end of the conversation. Nothing stays open: no session, no pending
/// request and no root span is left. Every span that is closed for a session is
/// marked with the session's unexpected end, and every span that is closed for
/// a pending request with the missing response. Where the root span is open it
/// is closed last, and as it is.
pub proof fn shutdown_closes_everything(s: ManagerView)
    ensures
        ({
            let end = s.shutdown();
            let marked = sessions_spans(s.sessions).len() + pending_spans(s.pending).len();
            &&& end.state.sessions.len() == 0
            &&& end.state.pending.len() == 0
            &&& end.state.root is None
            &&& end.state.last_spans().len() == 0
            &&& end.telemetry.measurements.len() == 0
            &&& end.telemetry.closed.len() == marked + (if s.root is Some {
                1int
            } else {
                0int
            })
            &&& forall|k: int|
                0 <= k < sessions_spans(s.sessions).len() ==> (#[trigger] end.telemetry.closed[k]).error
                    == Some("session ended unexpectedly"@)
            &&& forall|k: int|
                sessions_spans(s.sessions).len() <= k < marked ==> (#[trigger] end.telemetry.closed[k]).error
                    == Some("process exited before response"@)
            &&& match s.root {
                Some(root) => end.telemetry.closed.last() == root,
                None => true,
            }
        }),
{
    last_spans_are_marked(s.sessions, s.pending);
    let a = sessions_spans(s.sessions);
    let b = pending_spans(s.pending);
    let c = root_span(s.root);
    assert forall|k: int| 0 <= k < a.len() implies (#[trigger] (a + b + c)[k]).error == Some(
        "session ended unexpectedly"@,
    ) by {
        assert((a + b + c)[k] == a[k]);
    }
    assert forall|k: int| a.len() <= k < a.len() + b.len() implies (#[trigger] (a + b + c)[k]).error
        == Some("process exited before response"@) by {
        assert((a + b + c)[k] == b[k - a.len()]);
    }
}

/// A tool call that is never completed. Take a state in which `session` has
/// been prompted, a `tool_call` update for it, then any messages that neither
/// report a tool call under the same id in that session nor complete or fail
/// it. The end of the conversation then closes the span that the update
/// started, marked with the session's unexpected end.
pub proof fn open_tool_span_is_closed_at_shutdown(
    s: ManagerView,
    session: Seq<char>,
    call: Seq<char>,
    params: Document,
    seen: u64,
    between: Seq<(Message, u64)>,
)
    requires
        lookup(s.sessions, session) is Some,
        session_id(params) == Some(session),
        update_text(params, "sessionUpdate"@) == Some("tool_call"@),
        update_text(params, "toolCallId"@) == Some(call),
        forall|i: int| 0 <= i < between.len() ==> leaves_tool(#[trigger] between[i].0, session, call),
    ensures
        ({
            let opened = s.notification("session/update"@, params, seen).state;
            let span = SpanView {
                id: s.started,
                parent: s.prompt_link(Some(session)),
                name: "execute_tool "@ + tool_title(params),
                kind: SpanKind::Internal,
                attributes: tool_call_attributes(s.record_content, session, call, params),
                error: None,
            };
            run(opened, between).shutdown().telemetry.closed.contains(
                span.with_error("session ended unexpectedly"@),
            )
        }),
{
    reveal_strlit("tool_call");
    reveal_strlit("agent_message_chunk");
    assert("tool_call"@ != "agent_message_chunk"@) by {
        assert("tool_call"@.len() != "agent_message_chunk"@.len());
    }
    let opened = s.notification("session/update"@, params, seen).state;
    let span = SpanView {
        id: s.started,
        parent: s.prompt_link(Some(session)),
        name: "execute_tool "@ + tool_title(params),
        kind: SpanKind::Internal,
        attributes: tool_call_attributes(s.record_content, session, call, params),
        error: None,
    };
    let x = lookup(s.sessions, session)->Some_0;
    put_then_lookup(x.tools, call, span);
    put_then_lookup(s.sessions, session, SessionView { tools: put(x.tools, call, span), ..x });
    assert(tool_at(opened, session, call) == Some(span));
    tool_waits_through(opened, between, session, call, span);
    let last = run(opened, between);
    let y = lookup(last.sessions, session)->Some_0;
    lookup_is_a_row(last.sessions, session);
    lookup_is_a_row(y.tools, call);
    let i = choose|i: int| 0 <= i < last.sessions.len() && #[trigger] last.sessions[i] == (session, y);
    let j = choose|j: int| 0 <= j < y.tools.len() && #[trigger] y.tools[j] == (call, span);
    let marked = span.with_error("session ended unexpectedly"@);
    let tools = y.tools.map_values(
        |tool: (Seq<char>, SpanView)| tool.1.with_error("session ended unexpectedly"@),
    );
    assert(tools[j] == marked);
    let first = match y.prompt {
        Some(p) => seq![p.with_error("session ended unexpectedly"@)],
        None => seq![],
    };
    assert((first + tools)[first.len() + j] == marked);
    assert(session_spans(y).contains(marked));
    session_spans_are_among(last.sessions, i, marked);
    let a = sessions_spans(last.sessions);
    let k = choose|k: int| 0 <= k < a.len() && a[k] == marked;
    assert(last.last_spans()[k] == marked);
}

} // verus!
