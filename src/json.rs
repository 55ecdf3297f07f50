//! The few serde_json operations that reading a reply needs.
use vstd::prelude::*;

verus! {

#[verifier::external_type_specification]
#[verifier::external_body]
pub struct ExValue(serde_json::Value);

#[verifier::external_type_specification]
#[verifier::external_body]
pub struct ExJsonError(serde_json::Error);

/// The document that serde_json reads from the bytes; `None` where they are
/// not JSON.
pub uninterp spec fn json_parsed(b: Seq<u8>) -> Option<serde_json::Value>;

/// The elements of a JSON value that is an array; `None` for any other value.
pub uninterp spec fn json_items_of(v: serde_json::Value) -> Option<Seq<serde_json::Value>>;

/// The field of that name of a JSON value that is an object holding it.
pub uninterp spec fn json_field_of(v: serde_json::Value, key: Seq<char>) -> Option<serde_json::Value>;

/// The compact JSON text of a value.
pub uninterp spec fn json_text_of(v: serde_json::Value) -> Seq<char>;

/// Relies on serde_json::from_slice: reads one JSON document from the bytes,
/// or fails when they are not JSON.
#[verifier::external_body]
pub(crate) fn parse_json(bytes: &[u8]) -> (r: Result<serde_json::Value, serde_json::Error>)
    ensures
        r is Ok <==> json_parsed(bytes@) is Some,
        r matches Ok(v) ==> json_parsed(bytes@) == Some(v),
{
    serde_json::from_slice(bytes)
}

/// Relies on serde_json::Value::get with a string key: the field of that
/// name when the value is an object holding it, else `None`.
#[verifier::external_body]
pub(crate) fn json_field<'a>(v: &'a serde_json::Value, key: &str) -> (r: Option<&'a serde_json::Value>)
    ensures
        r is Some <==> json_field_of(*v, key@) is Some,
        r matches Some(f) ==> json_field_of(*v, key@) == Some(*f),
{
    v.get(key)
}

/// Relies on serde_json::Value::as_array: the elements when the value is an array.
#[verifier::external_body]
pub(crate) fn json_items(v: &serde_json::Value) -> (r: Option<&Vec<serde_json::Value>>)
    ensures
        r is Some <==> json_items_of(*v) is Some,
        r matches Some(items) ==> json_items_of(*v) == Some(items@),
{
    v.as_array()
}

/// Relies on the `Display` impl of serde_json::Value: the value's compact JSON
/// text (a string comes out between double quotes).
#[verifier::external_body]
pub(crate) fn json_text(v: &serde_json::Value) -> (r: String)
    ensures
        r@ == json_text_of(*v),
{
    v.to_string()
}

} // verus!
