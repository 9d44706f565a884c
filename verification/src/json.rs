//! JSON documents as `serde_json` holds them, seen from the verified code as
//! mathematical trees. Everything in this file that touches a
//! `serde_json::Value` is believed, not proved.

use serde_json::Value;
use vstd::prelude::*;

verus! {

#[verifier::external_type_specification]
#[verifier::external_body]
pub struct ExValue(serde_json::Value);

/// A JSON number. `serde_json` holds an integer where the text was one that
/// fits, and a binary fraction otherwise, which is told here by its bits.
pub ghost enum Numeral {
    Integer(int),
    Fraction(u64),
}

/// A JSON document as a tree.
pub ghost enum Document {
    Null,
    Bool(bool),
    Number(Numeral),
    Text(Seq<char>),
    Array(Seq<Document>),
    Object(Map<Seq<char>, Document>),
}

impl Document {
    /// The member of an object under `key`; nothing for any other document.
    pub open spec fn member(self, key: Seq<char>) -> Option<Document> {
        match self {
            Document::Object(members) => if members.contains_key(key) {
                Some(members[key])
            } else {
                None
            },
            _ => None,
        }
    }

    /// The characters of a string; nothing for any other document.
    pub open spec fn text(self) -> Option<Seq<char>> {
        match self {
            Document::Text(s) => Some(s),
            _ => None,
        }
    }

    /// The items of an array; nothing for any other document.
    pub open spec fn items(self) -> Option<Seq<Document>> {
        match self {
            Document::Array(items) => Some(items),
            _ => None,
        }
    }

    /// An integer that fits 64 signed bits; nothing for any other document.
    pub open spec fn integer(self) -> Option<i64> {
        match self {
            Document::Number(Numeral::Integer(n)) => if i64::MIN <= n <= i64::MAX {
                Some(n as i64)
            } else {
                None
            },
            _ => None,
        }
    }
}

/// The document that a value holds.
pub uninterp spec fn document(v: Value) -> Document;

/// What `serde_json::from_str` makes of a line: the document, or nothing where
/// the line is not one JSON text.
pub uninterp spec fn parsed(line: Seq<char>) -> Option<Document>;

/// The compact JSON text that `serde_json` writes for a document.
pub uninterp spec fn rendered(d: Document) -> Seq<char>;

/// `serde_json::from_str::<Value>`, with its error dropped. The result is the
/// value of the document that the line's text denotes.
#[verifier::external_body]
pub(crate) fn parse_value(line: &str) -> (r: Option<Value>)
    ensures
        r matches Some(v) ==> parsed(line@) == Some(document(v)),
        r is None ==> parsed(line@) is None,
{
    serde_json::from_str(line).ok()
}

/// `Value::get` with a string index: a reference to the member of an object
/// under that key, nothing where the value is no object or has no such member.
#[verifier::external_body]
pub(crate) fn member<'a>(v: &'a Value, key: &str) -> (r: Option<&'a Value>)
    ensures
        r matches Some(m) ==> document(*v).member(key@) == Some(document(*m)),
        r is None ==> document(*v).member(key@) is None,
{
    v.get(key)
}

/// `Value::as_str`: the characters of a JSON string, nothing for other values.
#[verifier::external_body]
pub(crate) fn as_text<'a>(v: &'a Value) -> (r: Option<&'a str>)
    ensures
        r matches Some(s) ==> document(*v).text() == Some(s@),
        r is None ==> document(*v).text() is None,
{
    v.as_str()
}

/// `Value::as_array`: the items of a JSON array, nothing for other values.
#[verifier::external_body]
pub(crate) fn as_items<'a>(v: &'a Value) -> (r: Option<&'a Vec<Value>>)
    ensures
        r matches Some(items) ==> document(*v).items() == Some(
            items@.map_values(|x: Value| document(x)),
        ),
        r is None ==> document(*v).items() is None,
{
    v.as_array()
}

/// `Value::as_i64`: an integer that fits 64 signed bits, nothing otherwise.
#[verifier::external_body]
pub(crate) fn as_integer(v: &Value) -> (r: Option<i64>)
    ensures
        r == document(*v).integer(),
{
    v.as_i64()
}

/// `Value`'s `Display` through `to_string`: the compact JSON text of the value.
#[verifier::external_body]
pub(crate) fn render(v: &Value) -> (r: String)
    ensures
        r@ == rendered(document(*v)),
{
    v.to_string()
}

/// `Value::clone`: a value that holds the same document.
#[verifier::external_body]
pub(crate) fn duplicate(v: &Value) -> (r: Value)
    ensures
        document(r) == document(*v),
{
    v.clone()
}

/// `Value::Null`.
#[verifier::external_body]
pub(crate) fn null_value() -> (r: Value)
    ensures
        document(r) == Document::Null,
{
    Value::Null
}

/// The members that a list of keys and values makes, each later one put on top
/// of the earlier ones.
pub open spec fn members(pairs: Seq<(String, Value)>) -> Map<Seq<char>, Document>
    decreases pairs.len(),
{
    if pairs.len() == 0 {
        Map::empty()
    } else {
        members(pairs.drop_last()).insert(pairs.last().0@, document(pairs.last().1))
    }
}

/// `Value::from` on a string slice: the JSON string with these characters.
#[verifier::external_body]
pub(crate) fn text_value(s: &str) -> (r: Value)
    ensures
        document(r) == Document::Text(s@),
{
    Value::from(s)
}

/// `Value::Array`: the JSON array of these items.
#[verifier::external_body]
pub(crate) fn array_value(items: Vec<Value>) -> (r: Value)
    ensures
        document(r) == Document::Array(items@.map_values(|x: Value| document(x))),
{
    Value::Array(items)
}

/// `Value::Object` on a `Map` collected from keys and values that are all
/// different keys: the JSON object with these members.
#[verifier::external_body]
pub(crate) fn object_value(pairs: Vec<(String, Value)>) -> (r: Value)
    requires
        forall|i: int, j: int| 0 <= i < j < pairs.len() ==> pairs[i].0@ != pairs[j].0@,
    ensures
        document(r) == Document::Object(members(pairs@)),
{
    Value::Object(pairs.into_iter().collect())
}

} // verus!
