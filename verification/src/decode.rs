//! The decoder of response text, which this library calls and does not
//! verify.

use crate::json::{Json, JsonValue};
use vstd::prelude::*;

verus! {

/// `serde_json::Value`, carried from the decoder to [`lower`] and not
/// looked into.
#[verifier::external_type_specification]
#[verifier::external_body]
pub struct ExValue(serde_json::Value);

/// `serde_json::Error`, of which only the message is taken.
#[verifier::external_type_specification]
#[verifier::external_body]
pub struct ExError(serde_json::Error);

/// What `serde_json::from_str` makes of a text when asked for a
/// `serde_json::Value`: the value's content, or `None` where it reports an
/// error.
pub uninterp spec fn document(text: Seq<char>) -> Option<JsonValue>;

/// What a `serde_json::Value` holds: its tree, a number as the text that
/// its `Display` gives, an object as its entries in the order in which the
/// map hands them out.
pub uninterp spec fn content(value: serde_json::Value) -> JsonValue;

/// Calls `serde_json::from_str` for a `serde_json::Value`.
///
/// Trusted: the call is a function of the text alone, so it succeeds
/// exactly where `document` has a value, and what it then returns holds
/// that value.
#[verifier::external_body]
pub(crate) fn decode(text: &str) -> (result: Result<serde_json::Value, serde_json::Error>)
    ensures
        match result {
            Ok(value) => document(text@) == Some(content(value)),
            Err(_) => document(text@) is None,
        },
{
    serde_json::from_str::<serde_json::Value>(text)
}

/// Rebuilds a `serde_json::Value` as a [`Json`], variant by variant.
///
/// Trusted: the result's view is what the value holds. Nothing is tested
/// or left out: each variant goes to the variant of the same meaning, a
/// number through `serde_json::Number`'s `to_string`, the elements of an
/// array and the entries of an object through this same function.
#[verifier::external_body]
pub(crate) fn lower(value: serde_json::Value) -> (json: Json)
    ensures
        json@ == content(value),
{
    match value {
        serde_json::Value::Null => Json::Null,
        serde_json::Value::Bool(b) => Json::Bool(b),
        serde_json::Value::Number(n) => Json::Number(n.to_string()),
        serde_json::Value::String(s) => Json::Text(s),
        serde_json::Value::Array(items) => Json::Array(items.into_iter().map(lower).collect()),
        serde_json::Value::Object(entries) => Json::Object(
            entries.into_iter().map(|(key, value)| (key, lower(value))).collect(),
        ),
    }
}

} // verus!
