//! What holds of the classifier and of its mappings for every input.

use crate::acp::{classified, finish_reason, payload, text_member, tool_type, Message};
use crate::json::{Document};
use crate::model::{known};
use vstd::prelude::*;

verus! {

/// A document with a string `method` and an `id` is a request with that id,
/// that method and its `params`; with a string `method` and no `id` it is a
/// notification; with an `id` and no string `method` it is a response that
/// mirrors `result` and `error`; and what is no object is no message.
pub proof fn classification_by_members(d: Document)
    ensures
        match (text_member(d, "method"@), d.member("id"@)) {
            (Some(method), Some(id)) => classified(d) == Some(
                Message::Request { id, method, params: payload(d) },
            ),
            (Some(method), None) => classified(d) == Some(
                Message::Notification { method, params: payload(d) },
            ),
            (None, Some(id)) => classified(d) == Some(
                Message::Response { id, result: d.member("result"@), error: d.member("error"@) },
            ),
            (None, None) => classified(d) is None,
        },
        !(d is Object) ==> classified(d) is None,
        classified(d) matches Some(Message::Request { id, method, params }) ==> d.member("id"@)
            == Some(id) && text_member(d, "method"@) == Some(method),
        classified(d) matches Some(Message::Notification { method, params }) ==> d.member("id"@)
            is None && text_member(d, "method"@) == Some(method),
        classified(d) matches Some(Message::Response { id, result, error }) ==> d.member("id"@)
            == Some(id) && text_member(d, "method"@) is None,
{
}

/// The finish reason of every stop reason: the five known ones map as the
/// table says, and every other one to the fallback.
pub proof fn finish_reason_is_total(stop: Seq<char>)
    ensures
        finish_reason("end_turn"@) == "stop"@,
        finish_reason("max_tokens"@) == "length"@,
        finish_reason("max_turn_requests"@) == "length"@,
        finish_reason("refusal"@) == "content_filter"@,
        finish_reason("cancelled"@) == "cancelled"@,
        stop != "end_turn"@ && stop != "max_tokens"@ && stop != "max_turn_requests"@ && stop
            != "refusal"@ && stop != "cancelled"@ ==> finish_reason(stop) == "error"@,
{
    reveal_strlit("end_turn");
    reveal_strlit("max_tokens");
    reveal_strlit("max_turn_requests");
    reveal_strlit("refusal");
    reveal_strlit("cancelled");
    assert("end_turn"@.len() == 8);
    assert("max_tokens"@.len() == 10);
    assert("max_turn_requests"@.len() == 17);
    assert("refusal"@.len() == 7);
    assert("cancelled"@.len() == 9);
}

/// The tool type of every tool kind: a data store for the three reading
/// kinds, an extension for every other input, and the two are different.
pub proof fn tool_type_is_total(kind: Seq<char>)
    ensures
        tool_type("read"@) == "datastore"@,
        tool_type("search"@) == "datastore"@,
        tool_type("fetch"@) == "datastore"@,
        kind != "read"@ && kind != "search"@ && kind != "fetch"@ ==> tool_type(kind)
            == "extension"@,
        "datastore"@ != "extension"@,
{
    reveal_strlit("datastore");
    reveal_strlit("extension");
    assert("datastore"@[0] == 'd');
    assert("extension"@[0] == 'e');
}

} // verus!
