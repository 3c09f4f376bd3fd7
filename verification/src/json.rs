//! String fields read out of JSON text, through `serde_json`.

use vstd::prelude::*;

verus! {

/// The string value at `key` of the JSON object that `text` holds; none when
/// `text` is not valid JSON, not an object, lacks the key, or the value is
/// not a string.
pub uninterp spec fn json_string_field(text: Seq<char>, key: Seq<char>) -> Option<Seq<char>>;

/// The string value at `outer.inner` of the JSON object that `text` holds;
/// none when any step is missing or not of the right kind.
pub uninterp spec fn json_nested_string_field(text: Seq<char>, outer: Seq<char>, inner: Seq<char>) -> Option<
    Seq<char>,
>;

/// The view of an optional owned string.
pub open spec fn opt_str_view(o: Option<String>) -> Option<Seq<char>> {
    match o {
        Some(s) => Some(s@),
        None => None,
    }
}

/// Calls `serde_json::from_str::<serde_json::Value>(text)`, then
/// `Value::get(key)` and `Value::as_str`. The result depends on the text and
/// the key alone; it is named `json_string_field`.
#[verifier::external_body]
pub(crate) fn json_str_field(text: &str, key: &str) -> (r: Option<String>)
    ensures
        opt_str_view(r) == json_string_field(text@, key@),
{
    serde_json::from_str::<serde_json::Value>(text).ok().and_then(
        |v| v.get(key).and_then(|s| s.as_str().map(String::from)),
    )
}

/// Calls `serde_json::from_str::<serde_json::Value>(text)`, then
/// `Value::get(outer)`, `Value::get(inner)` and `Value::as_str`. The result
/// depends on the text and the keys alone; it is named
/// `json_nested_string_field`.
#[verifier::external_body]
pub(crate) fn json_nested_str_field(text: &str, outer: &str, inner: &str) -> (r: Option<String>)
    ensures
        opt_str_view(r) == json_nested_string_field(text@, outer@, inner@),
{
    serde_json::from_str::<serde_json::Value>(text).ok().and_then(
        |v| v.get(outer).and_then(|e| e.get(inner)).and_then(|s| s.as_str().map(String::from)),
    )
}

/// The `subject` string of a message's metadata JSON, if it has one.
pub fn subject_from_metadata(metadata: &str) -> (r: Option<String>)
    ensures
        opt_str_view(r) == json_string_field(metadata@, "subject"@),
{
    json_str_field(metadata, "subject")
}

/// The `choice` string of an approval response's metadata JSON, or the
/// empty string.
pub fn approval_choice(metadata: &str) -> (r: String)
    ensures
        r@ == match json_string_field(metadata@, "choice"@) {
            Some(c) => c,
            None => Seq::empty(),
        },
{
    match json_str_field(metadata, "choice") {
        Some(c) => c,
        None => String::new(),
    }
}

} // verus!
