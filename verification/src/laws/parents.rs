//! Who stands under whom: the root span is started once, and the spans of a
//! session stand under its latest prompt span.

use crate::acp::{session_id, update_text, Message};
use crate::json::{rendered, Document};
use crate::laws::tool::tool_at;
use crate::model::{prompt_session, root_attributes, ManagerView, SessionView};
use crate::record::{SpanKind, SpanView};
use crate::table::{lookup, put, put_then_lookup};
use vstd::prelude::*;

verus! {

/// Whether a message is an `initialize` request.
pub open spec fn is_initialize(message: Message) -> bool {
    match message {
        Message::Request { id, method, params } => method == "initialize"@,
        _ => false,
    }
}

/// The root span is started once. A message starts it only where there is
/// none, and only an `initialize` request does; once it is open, every message
/// leaves it open under its number, and what the other spans are started under
/// stays what it was.
pub proof fn root_is_started_once(s: ManagerView, message: Message, now: u64)
    ensures
        ({
            let next = s.step(message, now).state;
            &&& match s.root {
                Some(root) => match next.root {
                    Some(still) => still.id == root.id && still.name == root.name && still.parent
                        == root.parent && next.root_link == s.root_link,
                    None => false,
                },
                None => next.root is Some ==> is_initialize(message) && next.root_link == Some(
                    s.started,
                ) && next.root == Some(
                    SpanView {
                        id: s.started,
                        parent: None,
                        name: "acp_session"@,
                        kind: SpanKind::Internal,
                        attributes: root_attributes(),
                        error: None,
                    },
                ),
            }
        }),
{
    match message {
        Message::Request { id, method, params } => {
            if method == "initialize"@ {
                let ready = s.with_client(params).with_root();
                assert(s.root is Some ==> ready.root == s.root && ready.root_link == s.root_link);
            }
        },
        Message::Response { id, result, error } => {
            match lookup(s.pending, rendered(id)) {
                Some(entry) => {},
                None => {},
            }
        },
        Message::Notification { method, params } => {},
    }
}

/// A prompt span stands under the root span, and what its session does next
/// stands under the prompt span: after a `session/prompt` request the session's
/// link is the number of the span that the request started, and a tool call
/// that is then reported for the session is started under that link, as an
/// internal span without an error.
pub proof fn session_spans_stand_under_the_prompt(
    s: ManagerView,
    id: Document,
    prompt: Document,
    sent: u64,
    call: Seq<char>,
    update: Document,
    seen: u64,
)
    requires
        session_id(update) == Some(prompt_session(prompt)),
        update_text(update, "sessionUpdate"@) == Some("tool_call"@),
        update_text(update, "toolCallId"@) == Some(call),
    ensures
        ({
            let session = prompt_session(prompt);
            let asked = s.request(id, "session/prompt"@, prompt, sent).state;
            let reported = asked.notification("session/update"@, update, seen).state;
            &&& match lookup(asked.sessions, session) {
                Some(x) => x.link == Some(s.started) && match x.prompt {
                    Some(span) => span.id == s.started && span.parent == s.root_link,
                    None => false,
                },
                None => false,
            }
            &&& match tool_at(reported, session, call) {
                Some(tool) => tool.parent == Some(s.started) && tool.kind == SpanKind::Internal
                    && tool.error is None,
                None => false,
            }
        }),
{
    reveal_strlit("session/prompt");
    reveal_strlit("initialize");
    reveal_strlit("tool_call");
    reveal_strlit("agent_message_chunk");
    assert("session/prompt"@.len() != "initialize"@.len());
    assert("tool_call"@.len() != "agent_message_chunk"@.len());
    let session = prompt_session(prompt);
    let asked = s.request(id, "session/prompt"@, prompt, sent).state;
    assert forall|x: SessionView|
        lookup(#[trigger] put(s.sessions, session, x), session) == Some(x) by {
        put_then_lookup(s.sessions, session, x);
    }
    let x = lookup(asked.sessions, session)->Some_0;
    assert forall|y: SessionView|
        lookup(#[trigger] put(asked.sessions, session, y), session) == Some(y) by {
        put_then_lookup(asked.sessions, session, y);
    }
    assert forall|t: SpanView| lookup(#[trigger] put(x.tools, call, t), call) == Some(t) by {
        put_then_lookup(x.tools, call, t);
    }
}

} // verus!
