//! JSON values (through `serde_json`). A value is opaque to the library; what it reads of
//! one (whether it is an object, and its serialized forms) is named by the functions below,
//! each a function of the value alone.
use vstd::prelude::*;

verus! {

#[verifier::external_type_specification]
#[verifier::external_body]
pub struct ExJsonValue(serde_json::Value);

/// Whether the value is a JSON object (`serde_json::Value::is_object`).
pub uninterp spec fn json_is_object(value: serde_json::Value) -> bool;

/// The compact JSON bytes of the value (`serde_json::to_vec`).
pub uninterp spec fn json_bytes(value: serde_json::Value) -> Seq<u8>;

/// The compact JSON text of the value (`serde_json::to_string`).
pub uninterp spec fn json_text(value: serde_json::Value) -> Seq<char>;

/// The text of the value's `Display` (compact JSON).
pub uninterp spec fn json_display(value: serde_json::Value) -> Seq<char>;

/// Calls `serde_json::Value::is_object`. Trusted: the result is `json_is_object` of the
/// value.
#[verifier::external_body]
pub(crate) fn is_object(value: &serde_json::Value) -> (r: bool)
    ensures
        r == json_is_object(*value),
{
    value.is_object()
}

/// Calls `serde_json::to_vec`, with `None` for its error. Trusted: the result is `Some` of
/// `json_bytes` of the value. Serializing a `Value` cannot fail: its map keys are strings,
/// its numbers are finite, and writing to a `Vec` does not fail.
#[verifier::external_body]
pub(crate) fn serialized_bytes(value: &serde_json::Value) -> (r: Option<Vec<u8>>)
    ensures
        r is Some,
        r.unwrap()@ == json_bytes(*value),
{
    serde_json::to_vec(value).ok()
}

/// Calls `serde_json::to_string`, with `None` for its error. Trusted: the result is `Some`
/// of `json_text` of the value; serializing a `Value` cannot fail, as for `to_vec`.
#[verifier::external_body]
pub(crate) fn serialized_text(value: &serde_json::Value) -> (r: Option<String>)
    ensures
        r is Some,
        r.unwrap()@ == json_text(*value),
{
    serde_json::to_string(value).ok()
}

/// Calls `serde_json::Value`'s `to_string` (its `Display`). Trusted: the result is
/// `json_display` of the value.
#[verifier::external_body]
pub(crate) fn display_text(value: &serde_json::Value) -> (r: String)
    ensures
        r@ == json_display(*value),
{
    value.to_string()
}

} // verus!
