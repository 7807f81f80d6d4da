//! The JSON documents that the external tool prints, read with `serde_json`.
//!
//! A document stays a `serde_json::Value`. What the orchestrator takes out
//! of one goes through the functions below, each of which hands one call on
//! to `serde_json`; nothing in them is proved. What a call returns depends
//! on its arguments alone, so each result has a name that contracts can
//! speak of.

use vstd::prelude::*;

verus! {

#[verifier::external_type_specification]
#[verifier::external_body]
pub struct ExValue(serde_json::Value);

#[verifier::external_type_specification]
#[verifier::external_body]
pub struct ExJsonError(serde_json::Error);

/// What `serde_json::from_str` makes of a text: the document, or the error.
pub uninterp spec fn json_document(text: Seq<char>) -> Result<serde_json::Value, serde_json::Error>;

/// The text that a parse error displays.
pub uninterp spec fn json_error_text(error: serde_json::Error) -> Seq<char>;

/// The member of an object that stands under `key`; `None` where the value
/// is no object or has no such member.
pub uninterp spec fn json_member(value: serde_json::Value, key: Seq<char>) -> Option<
    serde_json::Value,
>;

/// The text of a value that is a string; `None` for any other value.
pub uninterp spec fn json_text(value: serde_json::Value) -> Option<Seq<char>>;

/// The items of a value that is an array; `None` for any other value.
pub uninterp spec fn json_items(value: serde_json::Value) -> Option<Seq<serde_json::Value>>;

/// The bit pattern of the binary64 number that `Value::as_f64` gives for a
/// value; `None` where it gives none, as for any value that is no number.
pub uninterp spec fn json_number_bits(value: serde_json::Value) -> Option<u64>;

/// `serde_json::from_str::<Value>`: parses one JSON document that fills the
/// whole text, white space aside.
#[verifier::external_body]
pub(crate) fn parse_document(text: &str) -> (parsed: Result<serde_json::Value, serde_json::Error>)
    ensures
        parsed == json_document(text@),
{
    serde_json::from_str::<serde_json::Value>(text)
}

/// The `Display` form of a `serde_json::Error`: what went wrong, and behind
/// it the line and column where there is one.
#[verifier::external_body]
pub(crate) fn error_text(error: &serde_json::Error) -> (text: String)
    ensures
        text@ == json_error_text(*error),
{
    error.to_string()
}

/// `Value::get` with a string index.
#[verifier::external_body]
pub(crate) fn member<'a>(value: &'a serde_json::Value, key: &str) -> (found: Option<
    &'a serde_json::Value,
>)
    ensures
        match found {
            Some(inner) => json_member(*value, key@) == Some(*inner),
            None => json_member(*value, key@) is None,
        },
{
    value.get(key)
}

/// `Value::as_str`.
#[verifier::external_body]
pub(crate) fn as_text<'a>(value: &'a serde_json::Value) -> (text: Option<&'a str>)
    ensures
        match text {
            Some(inner) => json_text(*value) == Some(inner@),
            None => json_text(*value) is None,
        },
{
    value.as_str()
}

/// `Value::as_array`.
#[verifier::external_body]
pub(crate) fn as_items<'a>(value: &'a serde_json::Value) -> (items: Option<
    &'a Vec<serde_json::Value>,
>)
    ensures
        match items {
            Some(inner) => json_items(*value) == Some(inner@),
            None => json_items(*value) is None,
        },
{
    value.as_array()
}

/// `Value::as_f64`, the number handed on as its bit pattern.
#[verifier::external_body]
pub(crate) fn as_number_bits(value: &serde_json::Value) -> (bits: Option<u64>)
    ensures
        bits == json_number_bits(*value),
{
    value.as_f64().map(|number| number.to_bits())
}

} // verus!
