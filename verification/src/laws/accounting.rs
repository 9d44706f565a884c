//! Spans are counted: none is lost and none is made up.

use crate::acp::{fs_or_terminal, session_id, update_text, Message};
use crate::json::{rendered, Document};
use crate::laws::order::step_keeps_wf;
use crate::model::{
    bare, bare_prompt, closed_during, pending_spans, prompt_session, run, sessions_spans,
    ManagerView, PendingView, SessionView,
};
use crate::table::{
    lookup, lookup_is_a_row, position_is_first, put, total, total_after_change, weight_at, without,
    Rows,
};
use vstd::prelude::*;

verus! {

/// How many spans a session holds open: its prompt span and its tool spans.
pub open spec fn session_open(x: SessionView) -> nat {
    x.tools.len() + if x.prompt is Some {
        1nat
    } else {
        0nat
    }
}

/// How many spans a waiting request holds open.
pub open spec fn pending_open(entry: PendingView) -> nat {
    if entry.span is Some {
        1
    } else {
        0
    }
}

/// The weight of a session in the count of open spans.
pub open spec fn session_weight() -> spec_fn(SessionView) -> nat {
    |x: SessionView| session_open(x)
}

/// The weight of a waiting request in the count of open spans.
pub open spec fn pending_weight() -> spec_fn(PendingView) -> nat {
    |entry: PendingView| pending_open(entry)
}

/// How many spans are open: those of the sessions, those of the waiting
/// requests, and the root span.
pub open spec fn open_spans(s: ManagerView) -> nat {
    total(s.sessions, session_weight()) + total(s.pending, pending_weight()) + if s.root is Some {
        1nat
    } else {
        0nat
    }
}

/// The number of the span that is started `by` spans after span `from`.
pub open spec fn advanced(from: u64, by: int) -> u64 {
    ((from + by) % 0x1_0000_0000_0000_0000) as u64
}

/// The end of the conversation closes one span for each open one.
proof fn last_spans_are_the_open_ones(sessions: Rows<SessionView>, pending: Rows<PendingView>)
    ensures
        sessions_spans(sessions).len() == total(sessions, session_weight()),
        pending_spans(pending).len() == total(pending, pending_weight()),
    decreases sessions.len() + pending.len(),
{
    if sessions.len() > 0 {
        last_spans_are_the_open_ones(sessions.drop_first(), pending);
    } else if pending.len() > 0 {
        last_spans_are_the_open_ones(sessions, pending.drop_first());
    }
}

/// What a change of the sessions or of the waiting requests does to the count
/// of open spans.
proof fn counts_after_change(s: ManagerView, session: Seq<char>, key: Seq<char>)
    ensures
        forall|x: SessionView|
            total(#[trigger] put(s.sessions, session, x), session_weight()) + weight_at(
                s.sessions,
                session,
                session_weight(),
            ) == total(s.sessions, session_weight()) + session_open(x),
        forall|e: PendingView|
            total(#[trigger] put(s.pending, key, e), pending_weight()) + weight_at(
                s.pending,
                key,
                pending_weight(),
            ) == total(s.pending, pending_weight()) + pending_open(e),
        total(without(s.pending, key), pending_weight()) + weight_at(
            s.pending,
            key,
            pending_weight(),
        ) == total(s.pending, pending_weight()),
{
    assert forall|x: SessionView|
        total(#[trigger] put(s.sessions, session, x), session_weight()) + weight_at(
            s.sessions,
            session,
            session_weight(),
        ) == total(s.sessions, session_weight()) + session_open(x) by {
        total_after_change(s.sessions, session, x, session_weight());
    }
    assert forall|e: PendingView|
        total(#[trigger] put(s.pending, key, e), pending_weight()) + weight_at(
            s.pending,
            key,
            pending_weight(),
        ) == total(s.pending, pending_weight()) + pending_open(e) by {
        total_after_change(s.pending, key, e, pending_weight());
    }
    if s.pending.len() > 0 {
        total_after_change(s.pending, key, s.pending[0].1, pending_weight());
    } else {
        assert(without(s.pending, key) =~= s.pending);
        assert(lookup(s.pending, key) is None);
    }
}

/// A request starts one span, or two where it is the first `initialize`, and
/// closes what gives way to it.
proof fn request_conserves_spans(
    s: ManagerView,
    id: Document,
    method: Seq<char>,
    params: Document,
    now: u64,
)
    ensures
        ({
            let next = s.request(id, method, params, now);
            let started = open_spans(next.state) + next.telemetry.closed.len() - open_spans(s);
            1 <= started <= 2 && next.state.started == advanced(s.started, started)
        }),
{
    let key = rendered(id);
    let session = prompt_session(params);
    counts_after_change(s, session, key);
    if method == "initialize"@ {
        let ready = s.with_client(params).with_root();
        assert(ready.pending == s.pending && ready.sessions == s.sessions);
    } else if method == "session/prompt"@ {
    } else if fs_or_terminal(method) {
    } else {
    }
}

/// A response starts no span and closes the one it answers.
proof fn response_conserves_spans(
    s: ManagerView,
    id: Document,
    result: Option<Document>,
    error: Option<Document>,
    now: u64,
)
    requires
        bare(s.pending),
    ensures
        ({
            let next = s.response(id, result, error, now);
            open_spans(next.state) + next.telemetry.closed.len() == open_spans(s)
                && next.state.started == s.started
        }),
{
    let key = rendered(id);
    lookup_is_a_row(s.pending, key);
    match lookup(s.pending, key) {
        Some(entry) => {
            let i = choose|i: int| 0 <= i < s.pending.len() && #[trigger] s.pending[i] == (key, entry);
            assert(bare_prompt(s.pending[i].1));
            let rest = ManagerView { pending: without(s.pending, key), ..s };
            match entry.session {
                Some(session) => {
                    counts_after_change(s, session, key);
                },
                None => {
                    counts_after_change(s, seq![], key);
                },
            }
            if entry.method == "initialize"@ {
                let next = rest.initialized(entry, result, error);
                assert(next.state.sessions == s.sessions);
                assert(next.state.pending == rest.pending);
            } else if entry.method == "session/prompt"@ {
            } else if fs_or_terminal(entry.method) {
            } else {
            }
        },
        None => {},
    }
}

/// A notification starts a span where it reports a tool call, and closes what
/// gives way to it or what it completes or fails.
proof fn notification_conserves_spans(s: ManagerView, method: Seq<char>, params: Document, now: u64)
    ensures
        ({
            let next = s.notification(method, params, now);
            let started = open_spans(next.state) + next.telemetry.closed.len() - open_spans(s);
            0 <= started <= 1 && next.state.started == advanced(s.started, started)
        }),
{
    match session_id(params) {
        Some(session) => {
            counts_after_change(s, session, seq![]);
            match (lookup(s.sessions, session), update_text(params, "toolCallId"@)) {
                (Some(x), Some(call)) => {
                    position_is_first(x.tools, call);
                },
                _ => {},
            }
        },
        None => {},
    }
}

/// Spans are neither lost nor made up. In a well-formed state, after any
/// message, the spans that are open and the spans that the message closed are
/// together the spans that were open before and the spans that the message
/// started, which are at most two and are numbered on from the last one.
pub proof fn spans_are_conserved(s: ManagerView, message: Message, now: u64)
    requires
        s.wf(),
    ensures
        ({
            let next = s.step(message, now);
            let started = open_spans(next.state) + next.telemetry.closed.len() - open_spans(s);
            0 <= started <= 2 && next.state.started == advanced(s.started, started)
        }),
{
    match message {
        Message::Request { id, method, params } => request_conserves_spans(
            s,
            id,
            method,
            params,
            now,
        ),
        Message::Response { id, result, error } => response_conserves_spans(
            s,
            id,
            result,
            error,
            now,
        ),
        Message::Notification { method, params } => notification_conserves_spans(
            s,
            method,
            params,
            now,
        ),
    }
}

/// The end of the conversation starts nothing, closes as many spans as were
/// open, and leaves none open. Before the first line none is open.
pub proof fn end_closes_the_open_spans(s: ManagerView)
    ensures
        s.shutdown().telemetry.closed.len() == open_spans(s),
        open_spans(s.shutdown().state) == 0,
        s.shutdown().state.started == s.started,
        open_spans(ManagerView::initial(s.record_content)) == 0,
{
    last_spans_are_the_open_ones(s.sessions, s.pending);
}

/// Numbering on twice is numbering on by the sum.
proof fn advanced_twice(from: u64, first: int, second: int)
    requires
        0 <= first,
        0 <= second,
    ensures
        advanced(advanced(from, first), second) == advanced(from, first + second),
{
    vstd::arithmetic::div_mod::lemma_add_mod_noop(
        from + first,
        second,
        0x1_0000_0000_0000_0000,
    );
    vstd::arithmetic::div_mod::lemma_small_mod(
        ((from + first) % 0x1_0000_0000_0000_0000) as nat,
        0x1_0000_0000_0000_0000,
    );
    vstd::arithmetic::div_mod::lemma_mod_twice(from + first, 0x1_0000_0000_0000_0000);
}

/// After any messages, the spans that are open and the spans that were closed
/// are together the spans that were open before and the spans that were
/// started since.
proof fn spans_are_conserved_through(s: ManagerView, messages: Seq<(Message, u64)>)
    requires
        s.wf(),
    ensures
        run(s, messages).wf(),
        open_spans(run(s, messages)) + closed_during(s, messages) >= open_spans(s),
        run(s, messages).started == advanced(
            s.started,
            open_spans(run(s, messages)) + closed_during(s, messages) - open_spans(s),
        ),
    decreases messages.len(),
{
    if messages.len() == 0 {
        vstd::arithmetic::div_mod::lemma_small_mod(s.started as nat, 0x1_0000_0000_0000_0000);
    } else {
        let front = messages.drop_last();
        spans_are_conserved_through(s, front);
        let before = run(s, front);
        let message = messages.last().0;
        let now = messages.last().1;
        let next = before.step(message, now);
        assert(run(s, messages) == next.state);
        assert(closed_during(s, messages) == closed_during(s, front)
            + next.telemetry.closed.len());
        step_keeps_wf(before, message, now);
        spans_are_conserved(before, message, now);
        let so_far = open_spans(before) + closed_during(s, front) - open_spans(s);
        let more = open_spans(next.state) + next.telemetry.closed.len() - open_spans(before);
        advanced_twice(s.started, so_far, more);
        assert(so_far + more == open_spans(next.state) + closed_during(s, messages) - open_spans(
            s,
        ));
    }
}

/// In the end every span is closed. From the state before the first line,
/// through any messages, to the end of the conversation: the spans that the
/// messages closed and the spans that the end closes are as many as were
/// started, and none is left open.
pub proof fn every_span_is_closed_in_the_end(record_content: bool, messages: Seq<(Message, u64)>)
    ensures
        ({
            let last = run(ManagerView::initial(record_content), messages);
            let closed = closed_during(ManagerView::initial(record_content), messages)
                + last.shutdown().telemetry.closed.len();
            &&& last.started == advanced(0, closed as int)
            &&& open_spans(last.shutdown().state) == 0
        }),
{
    let first = ManagerView::initial(record_content);
    end_closes_the_open_spans(first);
    spans_are_conserved_through(first, messages);
    let last = run(first, messages);
    end_closes_the_open_spans(last);
}

} // verus!
