//! The JSON documents that payloads hold, as far as decoding reads them, and
//! the outside calls that parse and inspect them.
use vstd::prelude::*;

verus! {

/// A JSON value. A number records what it reads as: an unsigned 64-bit
/// integer, where it is one, and the bit pattern of the double it converts to.
pub enum Json {
    Null,
    Bool(bool),
    Number { unsigned: Option<u64>, double_bits: u64 },
    Text(Seq<char>),
    Array(Seq<Json>),
    Object(Map<Seq<char>, Json>),
}

/// The member `key` of an object; nothing for a missing key or a non-object.
pub open spec fn json_member(j: Json, key: Seq<char>) -> Option<Json> {
    match j {
        Json::Object(m) => if m.contains_key(key) {
            Some(m[key])
        } else {
            None
        },
        _ => None,
    }
}

/// The member `key` of an object read as an unsigned 64-bit integer.
pub open spec fn json_unsigned_member(j: Json, key: Seq<char>) -> Option<u64> {
    match json_member(j, key) {
        Some(x) => json_unsigned(x),
        None => None,
    }
}

/// The value as an unsigned 64-bit integer, where it is one.
pub open spec fn json_unsigned(j: Json) -> Option<u64> {
    match j {
        Json::Number { unsigned, .. } => unsigned,
        _ => None,
    }
}

/// The bit pattern of the double that a number converts to; nothing for a
/// value that is not a number.
pub open spec fn json_double_bits(j: Json) -> Option<u64> {
    match j {
        Json::Number { double_bits, .. } => Some(double_bits),
        _ => None,
    }
}

#[verifier::external_type_specification]
#[verifier::external_body]
pub struct ExValue(serde_json::Value);

#[verifier::external_type_specification]
#[verifier::external_body]
pub struct ExError(serde_json::Error);

/// What a parsed JSON value holds.
pub uninterp spec fn json_tree(v: serde_json::Value) -> Json;

/// The document that a text parses to, if it is one JSON value.
pub uninterp spec fn parsed_json(text: Seq<char>) -> Option<Json>;

/// The characters that a byte string decodes to, if it is valid UTF-8.
pub uninterp spec fn utf8_text(bytes: Seq<u8>) -> Option<Seq<char>>;

/// Relies on std::str::from_utf8: the text of valid UTF-8, an error otherwise.
#[verifier::external_body]
pub(crate) fn decode_utf8(bytes: &[u8]) -> (r: Option<&str>)
    ensures
        match r {
            Some(s) => utf8_text(bytes@) == Some(s@),
            None => utf8_text(bytes@) is None,
        },
{
    std::str::from_utf8(bytes).ok()
}

/// Relies on serde_json::from_str into a `Value`: the document that the text
/// holds, or an error where it holds none.
#[verifier::external_body]
pub(crate) fn parse_json(text: &str) -> (r: Result<serde_json::Value, serde_json::Error>)
    ensures
        match r {
            Ok(v) => parsed_json(text@) == Some(json_tree(v)),
            Err(_) => parsed_json(text@) is None,
        },
{
    serde_json::from_str(text)
}

/// Relies on serde_json's `Value::get` with a string key: the member of an
/// object under that key; nothing for a missing key or a non-object.
#[verifier::external_body]
pub(crate) fn member<'a>(v: &'a serde_json::Value, key: &str) -> (r: Option<&'a serde_json::Value>)
    ensures
        match r {
            Some(m) => json_member(json_tree(*v), key@) == Some(json_tree(*m)),
            None => json_member(json_tree(*v), key@) is None,
        },
{
    v.get(key)
}

/// serde_json's `Value::as_u64`: the integer of a non-negative integer number.
pub assume_specification[ serde_json::Value::as_u64 ](v: &serde_json::Value) -> (r: Option<u64>)
    ensures
        r == json_unsigned(json_tree(*v)),
;

/// Relies on serde_json's `Value::as_f64`, which converts every number: the
/// double, carried as its bit pattern; nothing for a non-number.
#[verifier::external_body]
pub(crate) fn double_bits(v: &serde_json::Value) -> (r: Option<u64>)
    ensures
        r == json_double_bits(json_tree(*v)),
{
    v.as_f64().map(|x| x.to_bits())
}

} // verus!
