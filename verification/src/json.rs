//! What `serde_json` reads out of a JSON text.
//!
//! Each function parses the text and looks one key up in the object it holds.
//! A text that is no JSON, or whose JSON is no object, has no keys.

use vstd::prelude::*;
use vstd::string::*;

use crate::text::optional;

verus! {

/// Whether `serde_json::from_str` accepts a text as a JSON value.
pub uninterp spec fn json_valid(text: Seq<char>) -> bool;

/// What `serde_json::Value::as_bool` says of the value under a key.
pub uninterp spec fn json_flag(text: Seq<char>, key: Seq<char>) -> Option<bool>;

/// What `serde_json::Value::as_str` says of the value under a key.
pub uninterp spec fn json_text(text: Seq<char>, key: Seq<char>) -> Option<Seq<char>>;

/// What `serde_json::Value::as_array` says of the value under a key, each item
/// read by `as_str`.
pub uninterp spec fn json_texts(text: Seq<char>, key: Seq<char>) -> Option<Seq<Option<Seq<char>>>>;

/// What a list of optional strings holds.
pub open spec fn optional_texts(v: Seq<Option<String>>) -> Seq<Option<Seq<char>>> {
    Seq::new(v.len(), |i: int| optional(v[i]))
}

/// What an optional list of optional strings holds.
pub open spec fn listed_texts(v: Option<Vec<Option<String>>>) -> Option<Seq<Option<Seq<char>>>> {
    match v {
        Some(v) => Some(optional_texts(v@)),
        None => None,
    }
}

/// Calls `serde_json::from_str`. The claim is that whether it accepts a text
/// depends on the text alone.
#[verifier::external_body]
pub(crate) fn is_json(text: &str) -> (r: bool)
    ensures
        r == json_valid(text@),
{
    serde_json::from_str::<serde_json::Value>(text).is_ok()
}

/// Calls `serde_json::from_str`, `Value::get` and `Value::as_bool`. The claim is
/// that what they come to depends on the text and the key alone, and that a
/// text that is no JSON gives nothing.
#[verifier::external_body]
pub(crate) fn flag_of(text: &str, key: &str) -> (r: Option<bool>)
    ensures
        r == json_flag(text@, key@),
        !json_valid(text@) ==> r is None,
{
    let value: serde_json::Value = serde_json::from_str(text).ok()?;
    value.get(key)?.as_bool()
}

/// Calls `serde_json::from_str`, `Value::get` and `Value::as_str`. The claim is
/// that what they come to depends on the text and the key alone, and that a
/// text that is no JSON gives nothing.
#[verifier::external_body]
pub(crate) fn text_of(text: &str, key: &str) -> (r: Option<String>)
    ensures
        optional(r) == json_text(text@, key@),
        !json_valid(text@) ==> r is None,
{
    let value: serde_json::Value = serde_json::from_str(text).ok()?;
    value.get(key)?.as_str().map(str::to_owned)
}

/// Calls `serde_json::from_str`, `Value::get` and `Value::as_array`, and
/// `Value::as_str` on each item. The claim is that what they come to depends on
/// the text and the key alone, and that a text that is no JSON gives nothing.
#[verifier::external_body]
pub(crate) fn texts_of(text: &str, key: &str) -> (r: Option<Vec<Option<String>>>)
    ensures
        listed_texts(r) == json_texts(text@, key@),
        !json_valid(text@) ==> r is None,
{
    let value: serde_json::Value = serde_json::from_str(text).ok()?;
    let items = value.get(key)?.as_array()?;
    Some(items.iter().map(|item| item.as_str().map(str::to_owned)).collect())
}

} // verus!
