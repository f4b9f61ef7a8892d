//! JSON documents, read through `serde_json`.
//!
//! A document is kept as `serde_json` parsed it. Nothing in this module is
//! proved of the parser: each function here hands one call on to
//! `serde_json` and gives its result a name, over which the readers of a
//! payload state what they return.

use vstd::prelude::*;

verus! {

/// `serde_json::Value`, a parsed JSON document. Its inside is not visible
/// to the verifier.
#[verifier::external_type_specification]
#[verifier::external_body]
pub struct ExValue(serde_json::Value);

/// The document that `serde_json::from_slice` reads from `bytes`, where it
/// reads one.
pub uninterp spec fn json_parsed(bytes: Seq<u8>) -> Option<serde_json::Value>;

/// The member that `Value::get` finds under `key`: present only in an
/// object that holds the key.
pub uninterp spec fn json_member(value: serde_json::Value, key: Seq<char>) -> Option<
    serde_json::Value,
>;

/// The elements that `Value::as_array` gives: those of an array, in order.
pub uninterp spec fn json_elements(value: serde_json::Value) -> Option<Seq<serde_json::Value>>;

/// The text that `Value::as_str` gives: that of a JSON string.
pub uninterp spec fn json_text(value: serde_json::Value) -> Option<Seq<char>>;

/// The number that `Value::as_u64` gives: that of a JSON number which
/// `serde_json` holds as an unsigned integer.
pub uninterp spec fn json_unsigned(value: serde_json::Value) -> Option<u64>;

/// Whether `Value::is_object` holds: the value is a JSON object.
pub uninterp spec fn json_is_object(value: serde_json::Value) -> bool;

/// Whether `Value::is_null` holds: the value is the JSON `null`.
pub uninterp spec fn json_is_null(value: serde_json::Value) -> bool;

/// The JSON string literal that `serde_json::to_string` writes for a text,
/// quotes and escapes included, where it writes one.
pub uninterp spec fn json_quoted(content: Seq<char>) -> Option<Seq<char>>;

/// Calls `serde_json::from_slice` for a `Value`, and drops the parser's
/// error where it gives one. The result is named [`json_parsed`]: the same
/// bytes always parse alike.
#[verifier::external_body]
pub(crate) fn parse(bytes: &[u8]) -> (parsed: Option<serde_json::Value>)
    ensures
        parsed == json_parsed(bytes@),
{
    serde_json::from_slice::<serde_json::Value>(bytes).ok()
}

/// Calls `Value::get` with a text key. The result is named [`json_member`].
#[verifier::external_body]
pub(crate) fn member<'a>(value: &'a serde_json::Value, key: &str) -> (found: Option<
    &'a serde_json::Value,
>)
    ensures
        match found {
            Some(inner) => json_member(*value, key@) == Some(*inner),
            None => json_member(*value, key@) is None,
        },
{
    value.get(key)
}

/// Calls `Value::as_array`. The vector handed out holds what
/// [`json_elements`] names.
#[verifier::external_body]
pub(crate) fn elements<'a>(value: &'a serde_json::Value) -> (found: Option<
    &'a Vec<serde_json::Value>,
>)
    ensures
        match found {
            Some(items) => json_elements(*value) == Some(items@),
            None => json_elements(*value) is None,
        },
{
    value.as_array()
}

/// Calls `Value::as_str`. The result is named [`json_text`].
#[verifier::external_body]
pub(crate) fn text<'a>(value: &'a serde_json::Value) -> (found: Option<&'a str>)
    ensures
        match found {
            Some(content) => json_text(*value) == Some(content@),
            None => json_text(*value) is None,
        },
{
    value.as_str()
}

/// Calls `Value::as_u64`. The result is named [`json_unsigned`].
#[verifier::external_body]
pub(crate) fn unsigned(value: &serde_json::Value) -> (found: Option<u64>)
    ensures
        found == json_unsigned(*value),
{
    value.as_u64()
}

/// Calls `Value::is_object`. The result is named [`json_is_object`].
#[verifier::external_body]
pub(crate) fn is_object(value: &serde_json::Value) -> (answer: bool)
    ensures
        answer == json_is_object(*value),
{
    value.is_object()
}

/// Calls `Value::is_null`. The result is named [`json_is_null`].
#[verifier::external_body]
pub(crate) fn is_null(value: &serde_json::Value) -> (answer: bool)
    ensures
        answer == json_is_null(*value),
{
    value.is_null()
}

/// Calls `serde_json::to_string` on a text and drops its error. The result
/// is named [`json_quoted`].
#[verifier::external_body]
pub(crate) fn quote(content: &str) -> (literal: Option<String>)
    ensures
        match literal {
            Some(written) => json_quoted(content@) == Some(written@),
            None => json_quoted(content@) is None,
        },
{
    serde_json::to_string(content).ok()
}

} // verus!
