//! The part of `serde_json` that the message model reads: whether a message's
//! metadata object has a given key.
use vstd::prelude::*;

verus! {

/// `serde_json::Value`, the metadata of a message; opaque here, read only
/// through `object_keys`.
#[verifier::external_type_specification]
#[verifier::external_body]
pub struct ExJsonValue(serde_json::Value);

/// `Clone::clone` of `serde_json::Value` (derived there). Trusted for its
/// signature only; nothing is promised of the copy.
pub assume_specification[ <serde_json::Value as Clone>::clone ](v: &serde_json::Value) -> (res: serde_json::Value);

/// The keys of `v`'s top-level object; empty when `v` is not an object.
pub uninterp spec fn object_keys(v: serde_json::Value) -> Set<Seq<char>>;

/// `Default::default` of `serde_json::Value`. Trusted: it is `null`, which
/// is no object and so has no keys (serde_json returns `Value::Null`).
pub assume_specification[ <serde_json::Value as core::default::Default>::default ]() -> (r:
    serde_json::Value)
    ensures
        object_keys(r) == Set::<Seq<char>>::empty(),
;

/// Calls `serde_json::Value::get` with a string key and tests the result for
/// `Some`. Trusted: the result is true exactly when `value` is an object that
/// has the key `key` (as `impl Index for str` in serde_json shows: an object
/// is looked up, any other value gives `None`).
#[verifier::external_body]
pub(crate) fn json_has_key(value: &serde_json::Value, key: &str) -> (b: bool)
    ensures
        b == object_keys(*value).contains(key@),
{
    value.get(key).is_some()
}

/// The string the JSON text `body` holds under `key` at the top level:
/// none when `body` is not JSON, is not an object, lacks the key, or holds
/// something other than a string there.
pub uninterp spec fn json_string_field(body: Seq<u8>, key: Seq<char>) -> Option<Seq<char>>;

/// Reads `body` as JSON with `serde_json::from_slice` (a body that is not
/// JSON counts as `null`), looks `key` up with `Value::get` and takes the
/// string with `Value::as_str`. Trusted: the result is
/// `json_string_field(body, key)`.
#[verifier::external_body]
pub(crate) fn json_string_field_of(body: &[u8], key: &str) -> (r: Option<String>)
    ensures
        r is Some <==> json_string_field(body@, key@) is Some,
        r matches Some(m) ==> m@ == json_string_field(body@, key@)->Some_0,
{
    let value: serde_json::Value = serde_json::from_slice(body).unwrap_or_default();
    value.get(key).and_then(serde_json::Value::as_str).map(str::to_owned)
}

} // verus!
