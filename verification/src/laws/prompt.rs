//! A prompt and its answer: the span that the request starts is the span that
//! the response closes, whatever else is seen in between.

use crate::acp::{fs_or_terminal, session_id, Message};
use crate::clock::{span_between, whole_millis};
use crate::json::{rendered, Document};
use crate::model::{
    agent_attributes, answer_attributes, error_kind, failed, finish_reasons, input_attributes,
    known, output_attributes, prompt_session, run, stop_reason, time_to_first_token, ManagerView,
    PendingView, SessionView,
};
use crate::record::{
    integer_attribute, occurrences, occurrences_add, occurrences_none, text_attribute, Instrument,
    MeasurementView, SpanKind, SpanView,
};
use crate::table::{
    distinct, lookup, put, put_keeps_distinct, put_then_lookup, without, without_keeps_distinct,
    without_then_lookup, Rows,
};
use vstd::prelude::*;

verus! {

/// Whether a waiting request is a prompt of `session`.
pub open spec fn is_prompt_of(entry: PendingView, session: Seq<char>) -> bool {
    entry.method == "session/prompt"@ && entry.session == Some(session)
}

/// No request but the one under `key` is a waiting prompt of `session`.
pub open spec fn no_other_prompt(pending: Rows<PendingView>, key: Seq<char>, session: Seq<char>) -> bool {
    forall|other: Seq<char>|
        other != key ==> match #[trigger] lookup(pending, other) {
            Some(entry) => !is_prompt_of(entry, session),
            None => true,
        }
}

/// Whether a message leaves alone the prompt that waits under `key` for
/// `session`: it is neither a request nor a response under that id, and no
/// further prompt of that session.
pub open spec fn leaves_prompt(message: Message, key: Seq<char>, session: Seq<char>) -> bool {
    match message {
        Message::Request { id, method, params } => rendered(id) != key && !(method
            == "session/prompt"@ && prompt_session(params) == session),
        Message::Response { id, result, error } => rendered(id) != key,
        Message::Notification { method, params } => true,
    }
}

/// The prompt that was sent at `start` waits under `key`, and `span` is the
/// open prompt span of its session.
pub open spec fn prompt_waits(
    s: ManagerView,
    key: Seq<char>,
    session: Seq<char>,
    span: SpanView,
    start: u64,
) -> bool {
    &&& distinct(s.pending)
    &&& lookup(s.pending, key) == Some(
        PendingView { span: None, method: "session/prompt"@, session: Some(session), start },
    )
    &&& no_other_prompt(s.pending, key, session)
    &&& match lookup(s.sessions, session) {
        Some(x) => x.prompt == Some(span),
        None => false,
    }
}

/// The name of the attribute that holds the finish reasons.
pub open spec fn finish_key() -> Seq<char> {
    "gen_ai.response.finish_reasons"@
}

/// A prompt span starts without finish reasons.
proof fn prompt_starts_without_finish(s: ManagerView, session: Seq<char>, params: Document)
    ensures
        occurrences(s.prompt_attributes(session, params), finish_key()) == 0,
{
    reveal_strlit("gen_ai.response.finish_reasons");
    reveal_strlit("gen_ai.operation.name");
    reveal_strlit("gen_ai.conversation.id");
    reveal_strlit("acp.method.name");
    reveal_strlit("network.transport");
    reveal_strlit("gen_ai.provider.name");
    reveal_strlit("gen_ai.agent.name");
    reveal_strlit("gen_ai.agent.id");
    reveal_strlit("acp.agent.version");
    reveal_strlit("acp.client.name");
    reveal_strlit("acp.client.version");
    reveal_strlit("gen_ai.input.messages");
    let key = finish_key();
    assert(key.len() == 30);
    let a = seq![
        text_attribute("gen_ai.operation.name"@, "invoke_agent"@),
        text_attribute("gen_ai.conversation.id"@, session),
        text_attribute("acp.method.name"@, "session/prompt"@),
        text_attribute("network.transport"@, "pipe"@),
    ];
    let b = agent_attributes(s.agent_name);
    let c = known("acp.agent.version"@, s.agent_version);
    let d = known("acp.client.name"@, s.client_name);
    let e = known("acp.client.version"@, s.client_version);
    let f = input_attributes(s.record_content, params);
    assert forall|i: int| 0 <= i < a.len() implies a[i].key.len() != 30 by {}
    assert forall|i: int| 0 <= i < b.len() implies b[i].key.len() != 30 by {}
    assert forall|i: int| 0 <= i < c.len() implies c[i].key.len() != 30 by {}
    assert forall|i: int| 0 <= i < d.len() implies d[i].key.len() != 30 by {}
    assert forall|i: int| 0 <= i < e.len() implies e[i].key.len() != 30 by {}
    assert forall|i: int| 0 <= i < f.len() implies f[i].key.len() != 30 by {}
    occurrences_none(a, key);
    occurrences_none(b, key);
    occurrences_none(c, key);
    occurrences_none(d, key);
    occurrences_none(e, key);
    occurrences_none(f, key);
    occurrences_add(a, b, key);
    occurrences_add(a + b, c, key);
    occurrences_add(a + b + c, d, key);
    occurrences_add(a + b + c + d, e, key);
    occurrences_add(a + b + c + d + e, f, key);
}

/// The answer to a prompt sets the finish reasons once where the result has a
/// stop reason, and not at all where it has none.
proof fn answer_sets_finish_once(
    record_content: bool,
    session: SessionView,
    result: Option<Document>,
    error: Option<Document>,
    span: SpanView,
)
    ensures
        failed(span.with_attributes(answer_attributes(record_content, session, result)), error).count(
            finish_key(),
        ) == span.count(finish_key()) + (if stop_reason(result) is Some {
            1nat
        } else {
            0nat
        }),
{
    reveal_strlit("gen_ai.response.finish_reasons");
    reveal_strlit("gen_ai.output.messages");
    reveal_strlit("acp.time_to_first_token_ms");
    reveal_strlit("error.type");
    let key = finish_key();
    assert(key.len() == 30);
    let a = known(
        key,
        match stop_reason(result) {
            Some(reason) => Some(finish_reasons(reason)),
            None => None,
        },
    );
    let b = output_attributes(record_content, session.output, stop_reason(result));
    let c = match time_to_first_token(session) {
        Some(t) => seq![
            integer_attribute(
                "acp.time_to_first_token_ms"@,
                whole_millis(t),
            ),
        ],
        None => seq![],
    };
    assert(answer_attributes(record_content, session, result) == a + b + c);
    assert forall|i: int| 0 <= i < b.len() implies b[i].key.len() != 30 by {}
    assert forall|i: int| 0 <= i < c.len() implies c[i].key.len() != 30 by {}
    occurrences_none(b, key);
    occurrences_none(c, key);
    reveal_with_fuel(occurrences, 2);
    assert(occurrences(a, key) == (if stop_reason(result) is Some {
        1nat
    } else {
        0nat
    })) by {
        if a.len() == 1 {
            assert(a.drop_last() =~= seq![]);
        }
    }
    occurrences_add(a, b, key);
    occurrences_add(a + b, c, key);
    occurrences_add(span.attributes, a + b + c, key);
    let full = span.with_attributes(a + b + c);
    match error {
        Some(e) => {
            let last = text_attribute("error.type"@, error_kind(e));
            assert(failed(full, error).attributes == full.attributes.push(last));
            assert(full.attributes.push(last).drop_last() =~= full.attributes);
            assert(last.key.len() != 30);
        },
        None => {},
    }
}

/// A request that leaves the waiting prompt alone leaves it waiting.
proof fn prompt_waits_after_request(
    s: ManagerView,
    id: Document,
    method: Seq<char>,
    params: Document,
    now: u64,
    key: Seq<char>,
    session: Seq<char>,
    span: SpanView,
    start: u64,
)
    requires
        prompt_waits(s, key, session, span, start),
        leaves_prompt(Message::Request { id, method, params }, key, session),
    ensures
        prompt_waits(s.request(id, method, params, now).state, key, session, span, start),
{
    reveal_strlit("session/prompt");
    reveal_strlit("initialize");
    assert("session/prompt"@ != "initialize"@) by {
        assert("session/prompt"@.len() != "initialize"@.len());
    }
    let other = rendered(id);
    assert forall|e: PendingView| distinct(#[trigger] put(s.pending, other, e)) by {
        put_keeps_distinct(s.pending, other, e);
    }
    assert forall|e: PendingView| !is_prompt_of(e, session) implies no_other_prompt(
        #[trigger] put(s.pending, other, e),
        key,
        session,
    ) && lookup(put(s.pending, other, e), key) == lookup(s.pending, key) by {
        put_then_lookup(s.pending, other, e);
    }
    if method == "initialize"@ {
        let ready = s.with_client(params).with_root();
        assert(ready.pending == s.pending && ready.sessions == s.sessions);
    } else if method == "session/prompt"@ {
        let sid = prompt_session(params);
        assert forall|x: SessionView|
            lookup(#[trigger] put(s.sessions, sid, x), session) == lookup(s.sessions, session) by {
            put_then_lookup(s.sessions, sid, x);
        }
    } else if fs_or_terminal(method) {
    } else {
    }
}

/// A response that leaves the waiting prompt alone leaves it waiting.
proof fn prompt_waits_after_response(
    s: ManagerView,
    id: Document,
    result: Option<Document>,
    error: Option<Document>,
    now: u64,
    key: Seq<char>,
    session: Seq<char>,
    span: SpanView,
    start: u64,
)
    requires
        prompt_waits(s, key, session, span, start),
        rendered(id) != key,
    ensures
        prompt_waits(s.response(id, result, error, now).state, key, session, span, start),
{
    let other = rendered(id);
    without_keeps_distinct(s.pending, other);
    without_then_lookup(s.pending, other);
    match lookup(s.pending, other) {
        Some(entry) => {
            assert(!is_prompt_of(entry, session));
            let rest = ManagerView { pending: without(s.pending, other), ..s };
            assert(no_other_prompt(rest.pending, key, session)) by {
                assert forall|k: Seq<char>| k != key implies match #[trigger] lookup(
                    rest.pending,
                    k,
                ) {
                    Some(e) => !is_prompt_of(e, session),
                    None => true,
                } by {
                    if k != other {
                        assert(lookup(rest.pending, k) == lookup(s.pending, k));
                    }
                }
            }
            assert(prompt_waits(rest, key, session, span, start));
            if entry.method == "initialize"@ {
                assert(rest.initialized(entry, result, error).state.pending == rest.pending);
                assert(rest.initialized(entry, result, error).state.sessions == rest.sessions);
            } else if entry.method == "session/prompt"@ {
                match entry.session {
                    Some(sid) => {
                        assert forall|x: SessionView|
                            lookup(#[trigger] put(s.sessions, sid, x), session) == lookup(
                                s.sessions,
                                session,
                            ) by {
                            put_then_lookup(s.sessions, sid, x);
                        }
                    },
                    None => {},
                }
            } else if fs_or_terminal(entry.method) {
            } else {
            }
        },
        None => {},
    }
}

/// A notification leaves a waiting prompt waiting.
proof fn prompt_waits_after_notification(
    s: ManagerView,
    method: Seq<char>,
    params: Document,
    now: u64,
    key: Seq<char>,
    session: Seq<char>,
    span: SpanView,
    start: u64,
)
    requires
        prompt_waits(s, key, session, span, start),
    ensures
        prompt_waits(s.notification(method, params, now).state, key, session, span, start),
{
    match session_id(params) {
        Some(sid) => {
            assert forall|x: SessionView|
                lookup(#[trigger] put(s.sessions, sid, x), session) == (if sid == session {
                    Some(x)
                } else {
                    lookup(s.sessions, session)
                }) by {
                put_then_lookup(s.sessions, sid, x);
            }
            let next = s.notification(method, params, now).state;
            assert(next.pending == s.pending);
        },
        None => {},
    }
}

/// A message that leaves the waiting prompt alone leaves it waiting, with its
/// span open and as it was.
proof fn prompt_keeps_waiting(
    s: ManagerView,
    message: Message,
    now: u64,
    key: Seq<char>,
    session: Seq<char>,
    span: SpanView,
    start: u64,
)
    requires
        prompt_waits(s, key, session, span, start),
        leaves_prompt(message, key, session),
    ensures
        prompt_waits(s.step(message, now).state, key, session, span, start),
{
    match message {
        Message::Request { id, method, params } => prompt_waits_after_request(
            s,
            id,
            method,
            params,
            now,
            key,
            session,
            span,
            start,
        ),
        Message::Response { id, result, error } => prompt_waits_after_response(
            s,
            id,
            result,
            error,
            now,
            key,
            session,
            span,
            start,
        ),
        Message::Notification { method, params } => prompt_waits_after_notification(
            s,
            method,
            params,
            now,
            key,
            session,
            span,
            start,
        ),
    }
}

/// Messages that leave the waiting prompt alone leave it waiting.
proof fn prompt_waits_through(
    s: ManagerView,
    messages: Seq<(Message, u64)>,
    key: Seq<char>,
    session: Seq<char>,
    span: SpanView,
    start: u64,
)
    requires
        prompt_waits(s, key, session, span, start),
        forall|i: int| 0 <= i < messages.len() ==> leaves_prompt(#[trigger] messages[i].0, key, session),
    ensures
        prompt_waits(run(s, messages), key, session, span, start),
    decreases messages.len(),
{
    if messages.len() > 0 {
        let front = messages.drop_last();
        assert forall|i: int| 0 <= i < front.len() implies leaves_prompt(
            #[trigger] front[i].0,
            key,
            session,
        ) by {
            assert(front[i] == messages[i]);
        }
        prompt_waits_through(s, front, key, session, span, start);
        prompt_keeps_waiting(
            run(s, front),
            messages.last().0,
            messages.last().1,
            key,
            session,
            span,
            start,
        );
    }
}

/// A prompt and its answer. Take a state in which no other prompt of the
/// session waits, a `session/prompt` request seen at `sent`, then any messages
/// that are neither a request nor a response under the same id nor a further
/// prompt of the session, then the response under the same id, seen at
/// `answered`. The response closes exactly the span that the request started;
/// the span has the finish reasons once where the result has a stop reason and
/// not at all where it has none; and the last measurement is the operation's
/// duration, the time from `sent` to `answered`, which is never negative.
pub proof fn prompt_span_closes_with_its_answer(
    s: ManagerView,
    id: Document,
    params: Document,
    sent: u64,
    between: Seq<(Message, u64)>,
    result: Option<Document>,
    error: Option<Document>,
    answered: u64,
)
    requires
        distinct(s.pending),
        no_other_prompt(s.pending, rendered(id), prompt_session(params)),
        forall|i: int|
            0 <= i < between.len() ==> leaves_prompt(
                #[trigger] between[i].0,
                rendered(id),
                prompt_session(params),
            ),
    ensures
        ({
            let asked = s.request(id, "session/prompt"@, params, sent).state;
            let end = run(asked, between).response(id, result, error, answered);
            &&& end.telemetry.closed.len() == 1
            &&& end.telemetry.closed[0].id == s.started
            &&& end.telemetry.closed[0].kind == SpanKind::Client
            &&& end.telemetry.closed[0].name == s.prompt_name()
            &&& end.telemetry.closed[0].count(finish_key()) == (if stop_reason(result) is Some {
                1nat
            } else {
                0nat
            })
            &&& end.telemetry.measurements.len() >= 1
            &&& end.telemetry.measurements.last() == (MeasurementView {
                instrument: Instrument::OperationDuration,
                nanos: span_between(sent, answered),
                operation: "invoke_agent"@,
            })
            &&& end.telemetry.measurements.last().nanos >= 0
            &&& lookup(end.state.pending, rendered(id)) is None
            &&& match lookup(end.state.sessions, prompt_session(params)) {
                Some(x) => x.prompt is None,
                None => false,
            }
        }),
{
    reveal_strlit("session/prompt");
    reveal_strlit("initialize");
    assert("session/prompt"@ != "initialize"@) by {
        assert("session/prompt"@.len() != "initialize"@.len());
    }
    let key = rendered(id);
    let session = prompt_session(params);
    let span = s.under_root(s.prompt_name(), SpanKind::Client, s.prompt_attributes(session, params));
    let asked = s.request(id, "session/prompt"@, params, sent).state;
    let entry = PendingView {
        span: None,
        method: "session/prompt"@,
        session: Some(session),
        start: sent,
    };
    assert(prompt_waits(asked, key, session, span, sent)) by {
        put_keeps_distinct(s.pending, key, entry);
        put_then_lookup(s.pending, key, entry);
        assert forall|x: SessionView|
            lookup(#[trigger] put(s.sessions, session, x), session) == Some(x) by {
            put_then_lookup(s.sessions, session, x);
        }
    }
    prompt_waits_through(asked, between, key, session, span, sent);
    let last = run(asked, between);
    let x = lookup(last.sessions, session)->Some_0;
    without_keeps_distinct(last.pending, key);
    put_then_lookup(last.sessions, session, SessionView { prompt: None, ..x });
    prompt_starts_without_finish(s, session, params);
    answer_sets_finish_once(last.record_content, x, result, error, span);
}

} // verus!
