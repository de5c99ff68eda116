//! The JSON documents that the pipeline reads, seen through a tree of plain
//! values, and the calls into `serde_json` that produce and inspect them.
//!
//! Nothing in this file is proved: every function below is a call into
//! `serde_json` whose contract restates what that crate's source shows.

use vstd::prelude::*;
use crate::receipt::is_finite;

verus! {

/// `serde_json::Value`, carried through verified code as an opaque document.
#[verifier::external_type_specification]
#[verifier::external_body]
pub struct ExValue(serde_json::Value);

/// What a JSON document holds. A number stands as the bit pattern of the
/// binary64 value that it reads as; the members of an object are found by
/// their key, and a key occurs once.
pub ghost enum Json {
    Null,
    Bool(bool),
    Number(u64),
    Text(Seq<char>),
    List(Seq<Json>),
    Record(Map<Seq<char>, Json>),
}

/// The tree that a `serde_json::Value` holds.
pub uninterp spec fn json_of(value: serde_json::Value) -> Json;

/// What `serde_json::from_slice` makes of a byte string: the value, or
/// nothing where the bytes are not one JSON value.
pub uninterp spec fn document(bytes: Seq<u8>) -> Option<serde_json::Value>;

/// What `Value::get` finds under a string key.
pub uninterp spec fn member_of(value: serde_json::Value, key: Seq<char>) -> Option<
    serde_json::Value,
>;

/// The text that `serde_json` prints for a value.
pub uninterp spec fn printed(value: serde_json::Value) -> Seq<char>;

/// The tree of the JSON document in a byte string, if the bytes are one.
pub open spec fn parsed(bytes: Seq<u8>) -> Option<Json> {
    match document(bytes) {
        Some(value) => Some(json_of(value)),
        None => None,
    }
}

/// `serde_json::from_slice`, read as a `Value`. The claim is that the outcome
/// depends on the bytes alone: the same bytes always give the same value, or
/// always fail.
#[verifier::external_body]
pub(crate) fn parse(bytes: &[u8]) -> (out: Option<serde_json::Value>)
    ensures
        out == document(bytes@),
{
    serde_json::from_slice::<serde_json::Value>(bytes).ok()
}

/// `Value::get` with a string key: the member of that name where the value
/// is an object that has one, nothing otherwise.
#[verifier::external_body]
pub(crate) fn member<'a>(value: &'a serde_json::Value, key: &str) -> (out: Option<
    &'a serde_json::Value,
>)
    ensures
        match out {
            Some(found) => member_of(*value, key@) == Some(*found),
            None => member_of(*value, key@) is None,
        },
        match json_of(*value) {
            Json::Record(members) if members.contains_key(key@) => out matches Some(found)
                && json_of(*found) == members[key@],
            _ => out is None,
        },
{
    value.get(key)
}

/// `Value::as_array`: the elements in order where the value is an array,
/// nothing otherwise.
#[verifier::external_body]
pub(crate) fn as_list<'a>(value: &'a serde_json::Value) -> (out: Option<
    &'a Vec<serde_json::Value>,
>)
    ensures
        match json_of(*value) {
            Json::List(items) => out matches Some(found) && found@.len() == items.len()
                && forall|i: int|
                0 <= i < items.len() ==> json_of(#[trigger] found@[i]) == items[i],
            _ => out is None,
        },
{
    value.as_array()
}

/// `Value::as_str`: the text where the value is a string, nothing otherwise.
#[verifier::external_body]
pub(crate) fn as_text<'a>(value: &'a serde_json::Value) -> (out: Option<&'a str>)
    ensures
        match json_of(*value) {
            Json::Text(text) => out matches Some(found) && found@ == text,
            _ => out is None,
        },
{
    value.as_str()
}

/// `Value::as_f64`, handed out as the bit pattern: the number read as a
/// binary64 value where the value is a number, nothing otherwise. A JSON
/// number is finite: `serde_json` holds an integer or a finite float.
#[verifier::external_body]
pub(crate) fn number_bits(value: &serde_json::Value) -> (out: Option<u64>)
    ensures
        out == match json_of(*value) {
            Json::Number(bits) => Some(bits),
            _ => None,
        },
        out matches Some(bits) ==> is_finite(bits),
{
    value.as_f64().map(|number| number.to_bits())
}

/// `Value::to_string`: the compact JSON text that `serde_json` prints for a
/// value. The claim is that the text depends on the value alone.
#[verifier::external_body]
pub(crate) fn render(value: &serde_json::Value) -> (out: String)
    ensures
        out@ == printed(*value),
{
    value.to_string()
}

/// The lower-case hexadecimal digit for a number below sixteen.
pub open spec fn hex_digit(nibble: int) -> char {
    if nibble < 10 {
        (48 + nibble) as char
    } else {
        (87 + nibble) as char
    }
}

/// How one character stands inside a JSON string: the quotation mark, the
/// backslash and the control characters below U+0020 are escaped, every
/// other character stands for itself.
pub open spec fn escape_of(c: char) -> Seq<char> {
    if c == '"' {
        seq!['\\', '"']
    } else if c == '\\' {
        seq!['\\', '\\']
    } else if c == '\u{8}' {
        seq!['\\', 'b']
    } else if c == '\t' {
        seq!['\\', 't']
    } else if c == '\n' {
        seq!['\\', 'n']
    } else if c == '\u{c}' {
        seq!['\\', 'f']
    } else if c == '\r' {
        seq!['\\', 'r']
    } else if (c as int) < 32 {
        seq!['\\', 'u', '0', '0', hex_digit(c as int / 16), hex_digit(c as int % 16)]
    } else {
        seq![c]
    }
}

/// A text with each of its characters escaped.
pub open spec fn escaped(text: Seq<char>) -> Seq<char>
    decreases text.len(),
{
    if text.len() == 0 {
        Seq::empty()
    } else {
        escaped(text.drop_last()) + escape_of(text.last())
    }
}

/// A text as a JSON string literal: escaped, between quotation marks.
pub open spec fn quoted(text: Seq<char>) -> Seq<char> {
    seq!['"'] + escaped(text) + seq!['"']
}

/// `serde_json::to_string` on a string slice: the JSON string literal for
/// it. Writing a string into memory has no way to fail in `serde_json`, so
/// the error arm is never taken.
#[verifier::external_body]
pub(crate) fn quote(text: &str) -> (out: String)
    ensures
        out@ == quoted(text@),
{
    match serde_json::to_string(text) {
        Ok(literal) => literal,
        Err(_) => String::new(),
    }
}

} // verus!
