//! JSON documents, read through `serde_json`.
//!
//! A parsed document is a `serde_json::Value`. The library never looks inside
//! one itself: it asks `serde_json` for a member, a text, a number or the
//! items of an array, and is proved against what those answers are called
//! here.

use vstd::prelude::*;
use vstd::string::*;

verus! {

#[verifier::external_type_specification]
#[verifier::external_body]
pub struct ExValue(serde_json::Value);

/// The document that a text parses to; `None` where the text is not JSON.
pub uninterp spec fn json_document(text: Seq<char>) -> Option<serde_json::Value>;

/// The member called `name` of a JSON object; `None` where the value is no
/// object or has no such member.
pub uninterp spec fn json_member(v: serde_json::Value, name: Seq<char>) -> Option<
    serde_json::Value,
>;

/// The text of a JSON string; `None` where the value is no string.
pub uninterp spec fn json_text(v: serde_json::Value) -> Option<Seq<char>>;

/// The value of a JSON number that is a whole number from 0 to 2^64 - 1;
/// `None` for every other value.
pub uninterp spec fn json_number(v: serde_json::Value) -> Option<u64>;

/// The items of a JSON array; `None` where the value is no array.
pub uninterp spec fn json_items(v: serde_json::Value) -> Option<Seq<serde_json::Value>>;

/// The JSON string literal that writes a text: quoted, and escaped where JSON
/// asks for it.
pub uninterp spec fn json_string_literal(text: Seq<char>) -> Seq<char>;

/// `serde_json::from_str::<Value>`: parses a text as one JSON document. Where
/// the text is refused, the error is handed back as it prints itself.
#[verifier::external_body]
pub(crate) fn parse_document(text: &str) -> (r: Result<serde_json::Value, String>)
    ensures
        match json_document(text@) {
            Some(v) => r == Ok::<serde_json::Value, String>(v),
            None => r is Err,
        },
{
    serde_json::from_str::<serde_json::Value>(text).map_err(|e| format!("{e:#?}"))
}

/// `Value::get` with a text as index: the member of that name.
#[verifier::external_body]
pub(crate) fn member<'a>(v: &'a serde_json::Value, name: &str) -> (r: Option<
    &'a serde_json::Value,
>)
    ensures
        match json_member(*v, name@) {
            Some(m) => r == Some(&m),
            None => r is None,
        },
{
    v.get(name)
}

/// `Value::as_str`: the text of a string value.
#[verifier::external_body]
pub(crate) fn as_text<'a>(v: &'a serde_json::Value) -> (r: Option<&'a str>)
    ensures
        match json_text(*v) {
            Some(text) => r matches Some(s) && s@ == text,
            None => r is None,
        },
{
    v.as_str()
}

/// `Value::as_u64`: the value of a number that fits 64 bits without sign.
#[verifier::external_body]
pub(crate) fn as_number(v: &serde_json::Value) -> (r: Option<u64>)
    ensures
        r == json_number(*v),
{
    v.as_u64()
}

/// `Value::as_array`: the items of an array value.
#[verifier::external_body]
pub(crate) fn as_items<'a>(v: &'a serde_json::Value) -> (r: Option<&'a Vec<serde_json::Value>>)
    ensures
        match json_items(*v) {
            Some(items) => r matches Some(list) && list@ == items,
            None => r is None,
        },
{
    v.as_array()
}

/// `serde_json::to_string` of a text: the string literal that writes it.
/// Writing a text into memory cannot fail.
#[verifier::external_body]
pub(crate) fn string_literal(text: &str) -> (r: String)
    ensures
        r@ == json_string_literal(text@),
{
    serde_json::to_string(text).unwrap_or_default()
}

/// The text member called `name` of `v`.
pub open spec fn text_at(v: serde_json::Value, name: Seq<char>) -> Option<Seq<char>> {
    match json_member(v, name) {
        Some(m) => json_text(m),
        None => None,
    }
}

/// The member called `name` of `v` as a number of 32 bits.
pub open spec fn number_at(v: serde_json::Value, name: Seq<char>) -> Option<u32> {
    match json_member(v, name) {
        Some(m) => match json_number(m) {
            Some(n) => if n <= u32::MAX {
                Some(n as u32)
            } else {
                None
            },
            None => None,
        },
        None => None,
    }
}

/// The items of the array member called `name` of `v`.
pub open spec fn items_at(v: serde_json::Value, name: Seq<char>) -> Option<
    Seq<serde_json::Value>,
> {
    match json_member(v, name) {
        Some(m) => json_items(m),
        None => None,
    }
}

/// What is reported of a document that lacks the member `name`, or holds
/// something else under that name than was asked for.
pub open spec fn field_failure(name: Seq<char>) -> Seq<char> {
    "missing or invalid field: "@ + name
}

/// The report `field_failure(name)` as a text.
pub fn field_failure_text(name: &str) -> (r: String)
    ensures
        r@ == field_failure(name@),
{
    let mut r = String::from_str("missing or invalid field: ");
    r.append(name);
    r
}

/// Reads the text member called `name`.
pub fn text_field(v: &serde_json::Value, name: &str) -> (r: Result<String, String>)
    ensures
        match text_at(*v, name@) {
            Some(text) => r matches Ok(s) && s@ == text,
            None => r matches Err(cause) && cause@ == field_failure(name@),
        },
{
    match member(v, name) {
        Some(m) => match as_text(m) {
            Some(s) => Ok(s.to_owned()),
            None => Err(field_failure_text(name)),
        },
        None => Err(field_failure_text(name)),
    }
}

/// Reads the member called `name` as a number of 32 bits.
pub fn number_field(v: &serde_json::Value, name: &str) -> (r: Result<u32, String>)
    ensures
        match number_at(*v, name@) {
            Some(n) => r == Ok::<u32, String>(n),
            None => r matches Err(cause) && cause@ == field_failure(name@),
        },
{
    match member(v, name) {
        Some(m) => match as_number(m) {
            Some(n) => if n <= 0xffff_ffff {
                Ok(n as u32)
            } else {
                Err(field_failure_text(name))
            },
            None => Err(field_failure_text(name)),
        },
        None => Err(field_failure_text(name)),
    }
}

} // verus!
