//! JSON documents as text: setting, merging and wrapping members.

use vstd::prelude::*;
use serde_json::Value;

verus! {

/// The JSON object written in `document` with member `key` set to the string
/// `value`, as compact JSON text; `None` where `document` is not the text of
/// a JSON object.
pub uninterp spec fn json_with_member(document: Seq<char>, key: Seq<char>, value: Seq<char>)
    -> Option<Seq<char>>;

/// The JSON document written in `document` after a JSON Merge Patch that
/// sets member `key` to the string `value`, as compact JSON text; `None`
/// where `document` is not JSON text.
pub uninterp spec fn json_merged(document: Seq<char>, key: Seq<char>, value: Seq<char>) -> Option<
    Seq<char>,
>;

/// The JSON object whose one member `key` holds the JSON document written
/// in `document`, as compact JSON text; `None` where `document` is not JSON
/// text.
pub uninterp spec fn json_wrapped(key: Seq<char>, document: Seq<char>) -> Option<Seq<char>>;

/// The view of an optional string.
pub open spec fn text_view(text: Option<String>) -> Option<Seq<char>> {
    match text {
        Some(t) => Some(t@),
        None => None,
    }
}

/// Sets a string member of a JSON object. Rests on `serde_json::from_str`,
/// on `Value::as_object_mut`, which is `None` for anything but an object,
/// on `Map::insert`, which adds the member or replaces its value, and on
/// `serde_json::to_string`.
#[verifier::external_body]
pub(crate) fn set_member(document: &str, key: &str, value: &str) -> (updated: Option<String>)
    ensures
        text_view(updated) == json_with_member(document@, key@, value@),
{
    let mut parsed: Value = serde_json::from_str(document).ok()?;
    parsed.as_object_mut()?.insert(key.to_string(), Value::String(value.to_string()));
    serde_json::to_string(&parsed).ok()
}

/// Merges one string member into a JSON document. Rests on
/// `serde_json::from_str`, on `json_patch::merge` with a patch that is an
/// object of the one member, and on `serde_json::to_string`.
#[verifier::external_body]
pub(crate) fn merge_member(document: &str, key: &str, value: &str) -> (merged: Option<String>)
    ensures
        text_view(merged) == json_merged(document@, key@, value@),
{
    let mut parsed: Value = serde_json::from_str(document).ok()?;
    let mut patch = serde_json::Map::new();
    patch.insert(key.to_string(), Value::String(value.to_string()));
    json_patch::merge(&mut parsed, &Value::Object(patch));
    serde_json::to_string(&parsed).ok()
}

/// Wraps a JSON document in an object of one member. Rests on
/// `serde_json::from_str`, on `Map::insert` into an empty map, and on
/// `serde_json::to_string`.
#[verifier::external_body]
pub(crate) fn wrap_member(key: &str, document: &str) -> (wrapped: Option<String>)
    ensures
        text_view(wrapped) == json_wrapped(key@, document@),
{
    let parsed: Value = serde_json::from_str(document).ok()?;
    let mut object = serde_json::Map::new();
    object.insert(key.to_string(), parsed);
    serde_json::to_string(&Value::Object(object)).ok()
}

} // verus!
