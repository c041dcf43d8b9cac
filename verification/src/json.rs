//! JSON documents, as `serde_json` parses, builds and prints them.
//!
//! Everything in this module that touches `serde_json` is trusted: Verus
//! takes the contracts below as given. The rest of the crate reasons about
//! documents only through the mathematical model [`Json`].

use serde_json::Value;
use vstd::prelude::*;

verus! {

#[verifier::external_type_specification]
#[verifier::external_body]
pub struct ExValue(serde_json::Value);

#[verifier::external_type_specification]
#[verifier::external_body]
pub struct ExError(serde_json::Error);

/// A JSON number: an integer, or a finite double given by its IEEE-754 bit
/// pattern.
pub enum JsonNumber {
    Int(int),
    Float(u64),
}

/// The content of a JSON document.
pub enum Json {
    Null,
    Bool(bool),
    Number(JsonNumber),
    Text(Seq<char>),
    Array(Seq<Json>),
    Object(Map<Seq<char>, Json>),
}

/// The document that a `serde_json::Value` holds.
pub uninterp spec fn json_of(v: Value) -> Json;

/// The document that `serde_json::from_str` reads from `text`, or `None`
/// where it reports an error.
pub uninterp spec fn parsed(text: Seq<char>) -> Option<Json>;

/// The compact text that `serde_json` prints for a document.
pub uninterp spec fn json_text(j: Json) -> Seq<char>;

/// The bit pattern of the double that `serde_json::Value::as_f64` gives for
/// an integer number.
pub uninterp spec fn double_of_int(n: int) -> u64;

/// The object made by entering `pairs` one after the other into an empty
/// object.
pub open spec fn object_of(pairs: Seq<(Seq<char>, Json)>) -> Map<Seq<char>, Json>
    decreases pairs.len(),
{
    if pairs.len() == 0 {
        Map::empty()
    } else {
        object_of(pairs.drop_last()).insert(pairs.last().0, pairs.last().1)
    }
}

/// Calls `serde_json::from_str` for a `Value`. The outcome depends on the text
/// alone: `parsed` names it, and the call fails exactly where `parsed` is
/// `None`.
#[verifier::external_body]
pub(crate) fn parse(text: &str) -> (r: Result<Value, serde_json::Error>)
    ensures
        match r {
            Ok(v) => parsed(text@) == Some(json_of(v)),
            Err(_) => parsed(text@) is None,
        },
{
    serde_json::from_str(text)
}

/// Calls `serde_json::Value::get` with a string index: the member stored
/// under `key` if the value is an object that has one, `None` otherwise.
#[verifier::external_body]
pub(crate) fn member<'a>(v: &'a Value, key: &str) -> (r: Option<&'a Value>)
    ensures
        match json_of(*v) {
            Json::Object(m) if m.contains_key(key@) => r is Some && json_of(*r.unwrap())
                == m[key@],
            _ => r is None,
        },
{
    v.get(key)
}

/// Calls `serde_json::Value::is_object`: whether the value is an object.
#[verifier::external_body]
pub(crate) fn is_object(v: &Value) -> (r: bool)
    ensures
        r == (json_of(*v) is Object),
{
    v.is_object()
}

/// Calls `serde_json::Value::as_array`: the elements, in order, if the value
/// is an array, `None` otherwise.
#[verifier::external_body]
pub(crate) fn elements<'a>(v: &'a Value) -> (r: Option<&'a Vec<Value>>)
    ensures
        match json_of(*v) {
            Json::Array(s) => r is Some && r.unwrap()@.len() == s.len() && forall|i: int|
                0 <= i < s.len() ==> json_of(#[trigger] r.unwrap()@[i]) == s[i],
            _ => r is None,
        },
{
    v.as_array()
}

/// Calls `serde_json::Value::as_f64` and hands the double out as its bit
/// pattern: `None` unless the value is a number; a number that is kept as a
/// double comes back as it is, an integer converted as `double_of_int` names.
#[verifier::external_body]
pub(crate) fn number(v: &Value) -> (r: Option<u64>)
    ensures
        r == match json_of(*v) {
            Json::Number(JsonNumber::Int(i)) => Some(double_of_int(i)),
            Json::Number(JsonNumber::Float(b)) => Some(b),
            _ => None,
        },
{
    v.as_f64().map(|x| x.to_bits())
}

/// Calls `serde_json::Value::from` on a string slice: a JSON string with the
/// same characters.
#[verifier::external_body]
pub(crate) fn text_value(s: &str) -> (r: Value)
    ensures
        json_of(r) == Json::Text(s@),
{
    Value::from(s)
}

/// Calls `serde_json::Value::from` on an unsigned integer: the JSON integer
/// of the same value.
#[verifier::external_body]
pub(crate) fn unsigned_value(n: u32) -> (r: Value)
    ensures
        json_of(r) == Json::Number(JsonNumber::Int(n as int)),
{
    Value::from(n)
}

/// Builds `serde_json::Value::Array`: the JSON array of the given elements in
/// the given order.
#[verifier::external_body]
pub(crate) fn array_value(items: Vec<Value>) -> (r: Value)
    ensures
        json_of(r) == Json::Array(items@.map_values(|v: Value| json_of(v))),
{
    Value::Array(items)
}

/// Calls `serde_json::Value::from_iter` on key-value pairs: the JSON object
/// that holds each pair. Which of two pairs with one key is kept is left
/// open by the collection underneath, so keys must differ.
#[verifier::external_body]
pub(crate) fn object_value(pairs: Vec<(&str, Value)>) -> (r: Value)
    requires
        forall|i: int, j: int| 0 <= i < j < pairs@.len() ==> pairs@[i].0@ != pairs@[j].0@,
    ensures
        json_of(r) == Json::Object(
            object_of(pairs@.map_values(|p: (&str, Value)| (p.0@, json_of(p.1)))),
        ),
{
    Value::from_iter(pairs)
}

/// Calls `to_string` on a `serde_json::Value`, which prints it compactly.
/// The text depends on the document alone: `json_text` names it.
#[verifier::external_body]
pub(crate) fn to_text(v: &Value) -> (r: String)
    ensures
        r@ == json_text(json_of(*v)),
{
    v.to_string()
}

} // verus!
