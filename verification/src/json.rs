//! JSON values carried through the engine.
//!
//! Tool inputs, tool result data and message metadata are JSON documents
//! produced and consumed by collaborators. The engine never looks inside
//! them except to pick one string member out of a tool's structured output.

use vstd::prelude::*;

verus! {

/// `serde_json::Value`, carried as an opaque value.
#[verifier::external_type_specification]
#[verifier::external_body]
pub struct ExJsonValue(serde_json::Value);

/// Calls `<serde_json::Value as Clone>::clone`.
///
/// Trusted: the copy is the same JSON document as the original.
#[verifier::external_body]
pub(crate) fn clone_json(v: &serde_json::Value) -> (r: serde_json::Value)
    ensures
        r == *v,
{
    v.clone()
}

/// The member that `serde_json::Value::get` finds under a string key:
/// present only where the value is an object that holds the key.
pub uninterp spec fn json_member(data: serde_json::Value, key: Seq<char>) -> Option<
    serde_json::Value,
>;

/// The text that `serde_json::Value::as_str` finds: present only where the
/// value is a JSON string.
pub uninterp spec fn json_text(value: serde_json::Value) -> Option<Seq<char>>;

/// Calls `serde_json::Value::get` with a string key.
///
/// Trusted: the result is the member named by [`json_member`], a function
/// of the document and the key alone.
#[verifier::external_body]
pub(crate) fn member<'a>(data: &'a serde_json::Value, key: &str) -> (r: Option<
    &'a serde_json::Value,
>)
    ensures
        r.is_some() == json_member(*data, key@).is_some(),
        r.is_some() ==> *r.unwrap() == json_member(*data, key@).unwrap(),
{
    data.get(key)
}

/// Calls `serde_json::Value::as_str` and copies the text out.
///
/// Trusted: the result is the text named by [`json_text`], a function of
/// the value alone.
#[verifier::external_body]
pub(crate) fn text_of(value: &serde_json::Value) -> (r: Option<String>)
    ensures
        r.is_some() == json_text(*value).is_some(),
        r.is_some() ==> r.unwrap()@ == json_text(*value).unwrap(),
{
    value.as_str().map(|s| s.to_owned())
}

} // verus!
