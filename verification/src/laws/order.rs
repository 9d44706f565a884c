//! The tables stay in order: what is well formed stays well formed, and a
//! response that nothing waits for changes nothing.

use crate::acp::{session_id, update_text, Message};
use crate::json::{rendered, Document};
use crate::model::{bare, bare_prompt, prompt_session, tidy, ManagerView, PendingView, SessionView};
use crate::record::{SpanView};
use crate::table::{
    distinct, lookup, lookup_is_a_row, put, put_keeps_all, put_keeps_distinct, without_keeps_all,
    without_keeps_distinct, Rows,
};
use vstd::prelude::*;

verus! {

/// A response whose id no request waits under changes nothing and reports
/// nothing.
pub proof fn unknown_response_is_passed_over(
    s: ManagerView,
    id: Document,
    result: Option<Document>,
    error: Option<Document>,
    now: u64,
)
    requires
        lookup(s.pending, rendered(id)) is None,
    ensures
        s.response(id, result, error, now) == s.quiet(),
{
}

/// What tidy sessions hold under an id has distinct tool calls.
proof fn session_of_tidy(sessions: Rows<SessionView>, id: Seq<char>)
    requires
        tidy(sessions),
    ensures
        match lookup(sessions, id) {
            Some(session) => distinct(session.tools),
            None => true,
        },
{
    lookup_is_a_row(sessions, id);
    match lookup(sessions, id) {
        Some(session) => {
            let i = choose|i: int| 0 <= i < sessions.len() && #[trigger] sessions[i] == (id, session);
            assert(distinct(sessions[i].1.tools));
        },
        None => {},
    }
}

/// Putting a session whose tool calls are distinct keeps the sessions tidy.
proof fn put_keeps_tidy(sessions: Rows<SessionView>, id: Seq<char>, session: SessionView)
    requires
        tidy(sessions),
        distinct(session.tools),
    ensures
        tidy(put(sessions, id, session)),
{
    put_keeps_distinct(sessions, id, session);
    put_keeps_all(sessions, id, session, |x: SessionView| distinct(x.tools));
}

/// A request leaves a well-formed state well formed.
proof fn request_keeps_wf(s: ManagerView, id: Document, method: Seq<char>, params: Document, now: u64)
    requires
        s.wf(),
    ensures
        s.request(id, method, params, now).state.wf(),
{
    reveal_strlit("session/prompt");
    reveal_strlit("initialize");
    assert("session/prompt"@ != "initialize"@) by {
        assert("session/prompt"@.len() != "initialize"@.len());
    }
    let key = rendered(id);
    assert forall|e: PendingView| distinct(#[trigger] put(s.pending, key, e)) by {
        put_keeps_distinct(s.pending, key, e);
    }
    assert forall|e: PendingView| bare_prompt(e) implies bare(#[trigger] put(s.pending, key, e)) by {
        put_keeps_all(s.pending, key, e, |e: PendingView| bare_prompt(e));
    }
    if method == "initialize"@ {
        let ready = s.with_client(params).with_root();
        assert(ready.pending == s.pending && ready.sessions == s.sessions);
    } else if method == "session/prompt"@ {
        let sid = prompt_session(params);
        session_of_tidy(s.sessions, sid);
        assert forall|x: SessionView| distinct(x.tools) implies tidy(
            #[trigger] put(s.sessions, sid, x),
        ) by {
            put_keeps_tidy(s.sessions, sid, x);
        }
    } else {
    }
}

/// A response leaves a well-formed state well formed.
proof fn response_keeps_wf(
    s: ManagerView,
    id: Document,
    result: Option<Document>,
    error: Option<Document>,
    now: u64,
)
    requires
        s.wf(),
    ensures
        s.response(id, result, error, now).state.wf(),
{
    let key = rendered(id);
    without_keeps_distinct(s.pending, key);
    without_keeps_all(s.pending, key, |e: PendingView| bare_prompt(e));
    match lookup(s.pending, key) {
        Some(entry) => {
            match entry.session {
                Some(sid) => {
                    session_of_tidy(s.sessions, sid);
                    assert forall|x: SessionView| distinct(x.tools) implies tidy(
                        #[trigger] put(s.sessions, sid, x),
                    ) by {
                        put_keeps_tidy(s.sessions, sid, x);
                    }
                },
                None => {},
            }
        },
        None => {},
    }
}

/// A notification leaves a well-formed state well formed.
proof fn notification_keeps_wf(s: ManagerView, method: Seq<char>, params: Document, now: u64)
    requires
        s.wf(),
    ensures
        s.notification(method, params, now).state.wf(),
{
    match session_id(params) {
        Some(sid) => {
            session_of_tidy(s.sessions, sid);
            assert forall|x: SessionView| distinct(x.tools) implies tidy(
                #[trigger] put(s.sessions, sid, x),
            ) by {
                put_keeps_tidy(s.sessions, sid, x);
            }
            match (lookup(s.sessions, sid), update_text(params, "toolCallId"@)) {
                (Some(session), Some(call)) => {
                    without_keeps_distinct(session.tools, call);
                    assert forall|span: SpanView| distinct(
                        #[trigger] put(session.tools, call, span),
                    ) by {
                        put_keeps_distinct(session.tools, call, span);
                    }
                },
                _ => {},
            }
        },
        None => {},
    }
}

/// The state before the first line is well formed, and every message leaves a
/// well-formed state well formed: at any time at most one request waits under
/// an id, a session stands once, and a tool call stands once in its session.
pub proof fn step_keeps_wf(s: ManagerView, message: Message, now: u64)
    requires
        s.wf(),
    ensures
        s.step(message, now).state.wf(),
        ManagerView::initial(s.record_content).wf(),
        s.shutdown().state.wf(),
{
    match message {
        Message::Request { id, method, params } => request_keeps_wf(s, id, method, params, now),
        Message::Response { id, result, error } => response_keeps_wf(s, id, result, error, now),
        Message::Notification { method, params } => notification_keeps_wf(s, method, params, now),
    }
}

} // verus!
