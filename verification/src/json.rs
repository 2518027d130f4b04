//! JSON documents, as `serde_json` reads them.
//!
//! A parsed document stays a `serde_json::Value`. What it holds is modelled
//! by `Json`; the functions here that look into a value say over that model
//! what they find.

use vstd::prelude::*;
use vstd::string::StringExecFns;

verus! {

/// `serde_json::Value`, a parsed JSON value. Nothing is known of what is
/// inside one but through `json_of`.
#[verifier::external_type_specification]
#[verifier::external_body]
pub struct ExJsonValue(serde_json::Value);

/// `serde_json::Error`, the error that parsing reports. It is passed
/// through and never looked into.
#[verifier::external_type_specification]
#[verifier::external_body]
pub struct ExJsonError(serde_json::Error);

/// What a JSON value holds.
pub enum Json {
    Null,
    Bool(bool),
    /// A number. `unsigned` is its value where it was read as a whole number
    /// from 0 to 2^64 - 1; `text` is the way `serde_json` prints it.
    Number { unsigned: Option<u64>, text: Seq<char> },
    Text(Seq<char>),
    Array(Seq<Json>),
    Object(Map<Seq<char>, Json>),
}

/// What the value `value` holds.
pub uninterp spec fn json_of(value: serde_json::Value) -> Json;

/// What `serde_json::from_str` reads `text` as; nothing where it reports an
/// error.
pub uninterp spec fn json_document(text: Seq<char>) -> Option<Json>;

impl Json {
    /// The member `key` of an object; nothing for an object without it and
    /// for what is no object.
    pub open spec fn member(self, key: Seq<char>) -> Option<Json> {
        match self {
            Json::Object(members) => if members.contains_key(key) {
                Some(members[key])
            } else {
                None
            },
            _ => None,
        }
    }

    /// The value of a number that was read as an unsigned whole number.
    pub open spec fn unsigned(self) -> Option<u64> {
        match self {
            Json::Number { unsigned, .. } => unsigned,
            _ => None,
        }
    }

    /// The characters of a string.
    pub open spec fn text(self) -> Option<Seq<char>> {
        match self {
            Json::Text(t) => Some(t),
            _ => None,
        }
    }

    /// The printed form of a number.
    pub open spec fn number_text(self) -> Option<Seq<char>> {
        match self {
            Json::Number { text, .. } => Some(text),
            _ => None,
        }
    }

    /// The elements of an array.
    pub open spec fn items(self) -> Option<Seq<Json>> {
        match self {
            Json::Array(items) => Some(items),
            _ => None,
        }
    }

    /// The unsigned whole number under `key`.
    pub open spec fn unsigned_at(self, key: Seq<char>) -> Option<u64> {
        match self.member(key) {
            Some(m) => m.unsigned(),
            None => None,
        }
    }

    /// The string under `key`.
    pub open spec fn text_at(self, key: Seq<char>) -> Option<Seq<char>> {
        match self.member(key) {
            Some(m) => m.text(),
            None => None,
        }
    }
}

/// What a list of values holds, one by one.
pub open spec fn json_items(values: Seq<serde_json::Value>) -> Seq<Json> {
    values.map_values(|v: serde_json::Value| json_of(v))
}

/// Calls `serde_json::from_str` at the type `serde_json::Value`. The
/// contract names what was read and claims nothing of it.
#[verifier::external_body]
pub(crate) fn parse_document(text: &str) -> (r: Result<serde_json::Value, serde_json::Error>)
    ensures
        match r {
            Ok(value) => json_document(text@) == Some(json_of(value)),
            Err(_) => json_document(text@) is None,
        },
{
    serde_json::from_str::<serde_json::Value>(text)
}

/// Calls `serde_json::Value::get` with a string key: the member of that
/// name where the value is an object that has one, else nothing.
#[verifier::external_body]
pub(crate) fn member<'a>(value: &'a serde_json::Value, key: &str) -> (r: Option<
    &'a serde_json::Value,
>)
    ensures
        match r {
            Some(found) => json_of(*value).member(key@) == Some(json_of(*found)),
            None => json_of(*value).member(key@) is None,
        },
{
    value.get(key)
}

/// Calls `serde_json::Value::as_u64`: the number where the value is one
/// that was read as an unsigned whole number, else nothing.
#[verifier::external_body]
pub(crate) fn as_unsigned(value: &serde_json::Value) -> (r: Option<u64>)
    ensures
        r == json_of(*value).unsigned(),
{
    value.as_u64()
}

/// Calls `serde_json::Value::as_str`: the characters where the value is a
/// string, else nothing.
#[verifier::external_body]
pub(crate) fn as_text<'a>(value: &'a serde_json::Value) -> (r: Option<&'a str>)
    ensures
        match r {
            Some(t) => json_of(*value).text() == Some(t@),
            None => json_of(*value).text() is None,
        },
{
    value.as_str()
}

/// Calls `serde_json::Value::as_array`: the elements in order where the
/// value is an array, else nothing.
#[verifier::external_body]
pub(crate) fn as_items<'a>(value: &'a serde_json::Value) -> (r: Option<
    &'a Vec<serde_json::Value>,
>)
    ensures
        match r {
            Some(items) => json_of(*value).items() == Some(json_items(items@)),
            None => json_of(*value).items() is None,
        },
{
    value.as_array()
}

/// Calls `serde_json::Value::as_number` and prints the number with its
/// `to_string`: the printed form where the value is a number, else nothing.
#[verifier::external_body]
pub(crate) fn as_number_text(value: &serde_json::Value) -> (r: Option<String>)
    ensures
        match r {
            Some(t) => json_of(*value).number_text() == Some(t@),
            None => json_of(*value).number_text() is None,
        },
{
    match value.as_number() {
        Some(number) => Some(number.to_string()),
        None => None,
    }
}

/// The unsigned whole number under `key` in an object.
pub fn unsigned_member(value: &serde_json::Value, key: &str) -> (r: Option<u64>)
    ensures
        r == json_of(*value).unsigned_at(key@),
{
    match member(value, key) {
        Some(found) => as_unsigned(found),
        None => None,
    }
}

/// The string under `key` in an object.
pub fn text_member(value: &serde_json::Value, key: &str) -> (r: Option<String>)
    ensures
        match r {
            Some(t) => json_of(*value).text_at(key@) == Some(t@),
            None => json_of(*value).text_at(key@) is None,
        },
{
    match member(value, key) {
        Some(found) => match as_text(found) {
            Some(t) => Some(String::from_str(t)),
            None => None,
        },
        None => None,
    }
}

/// A member more in an object changes nothing under the other keys.
pub proof fn lemma_other_members_kept(
    members: Map<Seq<char>, Json>,
    extra: Seq<char>,
    value: Json,
    key: Seq<char>,
)
    requires
        key != extra,
    ensures
        Json::Object(members.insert(extra, value)).member(key) == Json::Object(members).member(
            key,
        ),
{
}

} // verus!
