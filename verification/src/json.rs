//! The opaque JSON payload of an upstream reply, and the few questions the
//! gateway asks of it.

use vstd::prelude::*;

verus! {

/// A JSON value as `serde_json` holds it. Nothing inside it is visible to
/// proofs; the functions below name what its accessors return.
#[verifier::external_type_specification]
#[verifier::external_body]
pub struct ExJsonValue(serde_json::Value);

/// The text of a JSON string; `None` for a value of any other kind.
pub uninterp spec fn json_text(value: serde_json::Value) -> Option<Seq<char>>;

/// The number held by a JSON value that is a non-negative integer below
/// 2^64; `None` for every other value.
pub uninterp spec fn json_u64(value: serde_json::Value) -> Option<u64>;

/// The member that a JSON object holds under `key`; `None` where the value
/// is no object or has no such member.
pub uninterp spec fn json_member(value: serde_json::Value, key: Seq<char>) -> Option<
    serde_json::Value,
>;

/// Trusted: `serde_json::Value::as_str`, which hands out the text of a
/// string value and `None` for any other value. The contract only names
/// that result.
#[verifier::external_body]
pub(crate) fn value_as_str<'a>(value: &'a serde_json::Value) -> (text: Option<&'a str>)
    ensures
        match text {
            Some(s) => json_text(*value) == Some(s@),
            None => json_text(*value) is None,
        },
{
    value.as_str()
}

/// Trusted: `serde_json::Value::as_u64`, which hands out the integer of a
/// number value that fits `u64` and `None` otherwise. The contract only
/// names that result.
#[verifier::external_body]
pub(crate) fn value_as_u64(value: &serde_json::Value) -> (number: Option<u64>)
    ensures
        number == json_u64(*value),
{
    value.as_u64()
}

/// Trusted: `serde_json::Value::get` with a string key, which hands out a
/// reference to the member of an object under that key and `None` where
/// there is none or the value is no object. The contract only names that
/// result.
#[verifier::external_body]
pub(crate) fn value_get<'a>(value: &'a serde_json::Value, key: &str) -> (member: Option<
    &'a serde_json::Value,
>)
    ensures
        match member {
            Some(m) => json_member(*value, key@) == Some(*m),
            None => json_member(*value, key@) is None,
        },
{
    value.get(key)
}

} // verus!
