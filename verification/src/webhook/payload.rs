//! The decoded body of a webhook request, read through `serde_json`.

use std::collections::HashMap;

use vstd::prelude::*;

use serde_json::Value;

verus! {

/// `serde_json::Value`, a decoded JSON value. Verus sees nothing inside one;
/// what it holds is named by `json_of`.
#[verifier::external_type_specification]
#[verifier::external_body]
pub struct ExValue(serde_json::Value);

/// `serde_json::Error`, what `serde_json` reports for a text it refuses.
#[verifier::external_type_specification]
#[verifier::external_body]
pub struct ExJsonError(serde_json::Error);

/// A JSON value as the relay reads it.
pub enum Json {
    Null,
    Bool(bool),
    /// A number. `unsigned` holds it where `serde_json` keeps it as an
    /// unsigned integer of 64 bits, and nothing for any other number.
    Number { unsigned: Option<u64> },
    Text(Seq<char>),
    Array(Seq<Json>),
    Object(Map<Seq<char>, Json>),
}

impl Json {
    /// The member of an object under a key; none for a key that the object
    /// lacks and for a value that is no object.
    pub open spec fn member(self, key: Seq<char>) -> Option<Json> {
        match self {
            Json::Object(members) => if members.dom().contains(key) {
                Some(members[key])
            } else {
                None
            },
            _ => None,
        }
    }

    /// The characters of a string; none for any other value.
    pub open spec fn text(self) -> Option<Seq<char>> {
        match self {
            Json::Text(text) => Some(text),
            _ => None,
        }
    }

    /// The value of an unsigned integer; none for any other value.
    pub open spec fn unsigned(self) -> Option<u64> {
        match self {
            Json::Number { unsigned } => unsigned,
            _ => None,
        }
    }

    /// The value two keys deep: the member `inner` of the member `outer`.
    pub open spec fn nested(self, outer: Seq<char>, inner: Seq<char>) -> Option<Json> {
        match self.member(outer) {
            Some(object) => object.member(inner),
            None => None,
        }
    }

    /// The string two keys deep, if there is one.
    pub open spec fn nested_text(self, outer: Seq<char>, inner: Seq<char>) -> Option<Seq<char>> {
        match self.nested(outer, inner) {
            Some(value) => value.text(),
            None => None,
        }
    }

    /// The unsigned integer two keys deep, if there is one.
    pub open spec fn nested_unsigned(self, outer: Seq<char>, inner: Seq<char>) -> Option<u64> {
        match self.nested(outer, inner) {
            Some(value) => value.unsigned(),
            None => None,
        }
    }

    /// The string under a key, if there is one.
    pub open spec fn member_text(self, key: Seq<char>) -> Option<Seq<char>> {
        match self.member(key) {
            Some(value) => value.text(),
            None => None,
        }
    }
}

/// What a `serde_json::Value` holds.
pub uninterp spec fn json_of(value: serde_json::Value) -> Json;

/// What `serde_json::from_slice` reads from a request body as a map from
/// strings to values: the object that the body is the JSON text of, or nothing
/// where `serde_json` refuses the body.
pub uninterp spec fn parsed_value(body: Seq<u8>) -> Option<serde_json::Value>;

/// What the object that a request body decodes to holds, or nothing where the
/// body is refused.
pub open spec fn parsed_object(body: Seq<u8>) -> Option<Json> {
    match parsed_value(body) {
        Some(value) => Some(json_of(value)),
        None => None,
    }
}

/// `serde_json::Value::as_str`: the string of a `Value::String`, and nothing
/// for any other value.
pub assume_specification<'a>[ serde_json::Value::as_str ](value: &'a serde_json::Value) -> (text:
    Option<&'a str>)
    ensures
        match json_of(*value).text() {
            Some(characters) => text is Some && text.unwrap()@ == characters,
            None => text is None,
        },
;

/// `serde_json::Value::as_u64`: the integer of a `Value::Number` that is kept
/// as an unsigned integer, and nothing for any other value.
pub assume_specification[ serde_json::Value::as_u64 ](value: &serde_json::Value) -> (number: Option<
    u64,
>)
    ensures
        number == json_of(*value).unsigned(),
;

/// `serde_json::Value::get` with a string key: the member of a
/// `Value::Object` under the key, and nothing for a key that the object lacks
/// or a value that is no object.
#[verifier::external_body]
fn get<'a>(value: &'a Value, key: &str) -> (found: Option<&'a Value>)
    ensures
        match json_of(*value).member(key@) {
            Some(member) => found is Some && json_of(*found.unwrap()) == member,
            None => found is None,
        },
{
    value.get(key)
}

/// `serde_json::from_slice` at the type `HashMap<String, Value>`, its result
/// turned into a `Value::Object`. The decoded object is a function of the
/// body alone, named `parsed_value`; a body that is refused gives the error.
#[verifier::external_body]
pub(crate) fn parse_object(body: &[u8]) -> (parsed: Result<Value, serde_json::Error>)
    ensures
        match parsed_value(body@) {
            Some(object) => parsed is Ok && parsed.unwrap() == object,
            None => parsed is Err,
        },
{
    serde_json::from_slice::<HashMap<String, Value>>(body).map(Value::from_iter)
}

/// The value two keys deep in a decoded value.
pub fn nested<'a>(value: &'a Value, outer: &str, inner: &str) -> (found: Option<&'a Value>)
    ensures
        match json_of(*value).nested(outer@, inner@) {
            Some(member) => found is Some && json_of(*found.unwrap()) == member,
            None => found is None,
        },
{
    match get(value, outer) {
        Some(object) => get(object, inner),
        None => None,
    }
}

/// The string two keys deep in a decoded value.
pub fn nested_text<'a>(value: &'a Value, outer: &str, inner: &str) -> (found: Option<&'a str>)
    ensures
        match json_of(*value).nested_text(outer@, inner@) {
            Some(text) => found is Some && found.unwrap()@ == text,
            None => found is None,
        },
{
    match nested(value, outer, inner) {
        Some(member) => member.as_str(),
        None => None,
    }
}

/// The unsigned integer two keys deep in a decoded value.
pub fn nested_unsigned(value: &Value, outer: &str, inner: &str) -> (found: Option<u64>)
    ensures
        found == json_of(*value).nested_unsigned(outer@, inner@),
{
    match nested(value, outer, inner) {
        Some(member) => member.as_u64(),
        None => None,
    }
}

/// The string under a key of a decoded value.
pub fn member_text<'a>(value: &'a Value, key: &str) -> (found: Option<&'a str>)
    ensures
        match json_of(*value).member_text(key@) {
            Some(text) => found is Some && found.unwrap()@ == text,
            None => found is None,
        },
{
    match get(value, key) {
        Some(member) => member.as_str(),
        None => None,
    }
}

} // verus!
