//! Reading lists of strings out of JSON values.

use vstd::prelude::*;

verus! {

#[verifier::external_type_specification]
#[verifier::external_body]
pub struct ExJsonValue(serde_json::Value);

/// The items of the array that a JSON object holds under `key`; `None`
/// when the value is no object, has no such member, or the member is no
/// array.
pub uninterp spec fn json_member_items(value: serde_json::Value, key: Seq<char>) -> Option<
    Seq<serde_json::Value>,
>;

/// The text of a JSON string; `None` for every other kind of value.
pub uninterp spec fn json_text(value: serde_json::Value) -> Option<Seq<char>>;

/// Calls `serde_json::Value::get` with a string key and then
/// `serde_json::Value::as_array` on the member found.
///
/// Trusted: the result is the named array under `key`, with its items in
/// order.
#[verifier::external_body]
pub(crate) fn member_array<'a>(data: &'a serde_json::Value, key: &str) -> (items: Option<
    &'a Vec<serde_json::Value>,
>)
    ensures
        match items {
            Some(found) => json_member_items(*data, key@) == Some(found@),
            None => json_member_items(*data, key@) is None,
        },
{
    match data.get(key) {
        Some(member) => member.as_array(),
        None => None,
    }
}

/// Calls `serde_json::Value::as_str`.
///
/// Trusted: the result is the named text of the value.
#[verifier::external_body]
pub(crate) fn text_of<'a>(value: &'a serde_json::Value) -> (text: Option<&'a str>)
    ensures
        match text {
            Some(found) => json_text(*value) == Some(found@),
            None => json_text(*value) is None,
        },
{
    value.as_str()
}

} // verus!
