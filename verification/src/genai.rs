//! Chat messages as they are recorded on a prompt span when content recording
//! is on: a JSON array with one message, which has a role, one text part and,
//! where known, a finish reason.

use crate::json::{
    array_value, document, members, object_value, render, rendered, text_value, Document,
};
use crate::text::chars;
use serde_json::Value;
use vstd::prelude::*;
use vstd::string::*;

verus! {

/// A text part of a message.
pub open spec fn text_part(text: Seq<char>) -> Document {
    Document::Object(
        Map::empty().insert("type"@, Document::Text("text"@)).insert(
            "content"@,
            Document::Text(text),
        ),
    )
}

/// The members of a message.
pub open spec fn message_members(
    role: Seq<char>,
    text: Seq<char>,
    finish: Option<Seq<char>>,
) -> Map<
    Seq<char>,
    Document,
> {
    let base = Map::empty().insert("role"@, Document::Text(role)).insert(
        "parts"@,
        Document::Array(seq![text_part(text)]),
    );
    match finish {
        Some(reason) => base.insert("finish_reason"@, Document::Text(reason)),
        None => base,
    }
}

/// The list of one message.
pub open spec fn chat(role: Seq<char>, text: Seq<char>, finish: Option<Seq<char>>) -> Document {
    Document::Array(seq![Document::Object(message_members(role, text, finish))])
}

/// A text part of a message.
fn text_part_value(text: &str) -> (r: Value)
    ensures
        document(r) == text_part(text@),
{
    let mut pairs: Vec<(String, Value)> = Vec::new();
    pairs.push(("type".to_owned(), text_value("text")));
    pairs.push(("content".to_owned(), text_value(text)));
    proof {
        reveal_strlit("type");
        reveal_strlit("content");
        assert("type"@.len() != "content"@.len());
        reveal_with_fuel(members, 3);
        assert(pairs@.drop_last().drop_last() =~= seq![]);
    }
    object_value(pairs)
}

/// The JSON text of the list of one message.
pub fn chat_text(role: &str, text: &str, finish: Option<&str>) -> (r: String)
    ensures
        r@ == rendered(chat(role@, text@, chars(finish))),
{
    let mut parts: Vec<Value> = Vec::new();
    parts.push(text_part_value(text));
    let parts = array_value(parts);
    assert(document(parts) == Document::Array(seq![text_part(text@)])) by {
        assert(document(parts)->Array_0 =~= seq![text_part(text@)]);
    }
    let mut pairs: Vec<(String, Value)> = Vec::new();
    pairs.push(("role".to_owned(), text_value(role)));
    pairs.push(("parts".to_owned(), parts));
    proof {
        reveal_strlit("role");
        reveal_strlit("parts");
        reveal_strlit("finish_reason");
        assert("role"@.len() != "parts"@.len());
        assert("role"@.len() != "finish_reason"@.len());
        assert("parts"@.len() != "finish_reason"@.len());
        reveal_with_fuel(members, 3);
        assert(pairs@.drop_last().drop_last() =~= seq![]);
        assert(members(pairs@) == message_members(role@, text@, None));
    }
    match finish {
        Some(reason) => {
            let ghost before = pairs@;
            pairs.push(("finish_reason".to_owned(), text_value(reason)));
            proof {
                assert(pairs@.drop_last() =~= before);
                assert(members(pairs@) == message_members(role@, text@, Some(reason@)));
            }
        },
        None => {},
    }
    assert(members(pairs@) == message_members(role@, text@, chars(finish)));
    let message = object_value(pairs);
    let mut list: Vec<Value> = Vec::new();
    list.push(message);
    let list = array_value(list);
    assert(document(list) == chat(role@, text@, chars(finish))) by {
        assert(document(list)->Array_0 =~= seq![
            Document::Object(message_members(role@, text@, chars(finish))),
        ]);
    }
    render(&list)
}

} // verus!
