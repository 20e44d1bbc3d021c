//! Trusted boundary around `serde_json`: parsing response bodies and reading
//! the fields of the resulting JSON document.
//!
//! A parsed document is opaque to the verifier, so its contents are named by
//! uninterpreted spec functions: the string-valued entries, the unsigned
//! integer entries, and the entries holding an array of strings. A second set
//! of names states the same maps as functions of the raw bytes, so that the
//! contracts of the response decoders can speak of the body alone.

use vstd::prelude::*;

verus! {

#[verifier::external_type_specification]
#[verifier::external_body]
pub struct ExValue(serde_json::Value);

/// The string-valued entries of a parsed document: the keys whose value is a
/// JSON string, each mapped to that string.
pub uninterp spec fn str_entries(v: serde_json::Value) -> Map<Seq<char>, Seq<char>>;

/// The unsigned integer entries of a parsed document: the keys whose value is
/// a JSON integer representable as a `u64`, each mapped to that integer.
pub uninterp spec fn uint_entries(v: serde_json::Value) -> Map<Seq<char>, u64>;

/// The entries of a parsed document whose value is an array of JSON strings,
/// each mapped to the sequence of those strings.
pub uninterp spec fn str_list_entries(v: serde_json::Value) -> Map<Seq<char>, Seq<Seq<char>>>;

/// Whether the bytes are a well-formed JSON document.
pub uninterp spec fn json_document(b: Seq<u8>) -> bool;

/// The string-valued entries of the document encoded by the bytes.
pub uninterp spec fn json_str_entries(b: Seq<u8>) -> Map<Seq<char>, Seq<char>>;

/// The unsigned integer entries of the document encoded by the bytes.
pub uninterp spec fn json_uint_entries(b: Seq<u8>) -> Map<Seq<char>, u64>;

/// The string-array entries of the document encoded by the bytes.
pub uninterp spec fn json_str_list_entries(b: Seq<u8>) -> Map<Seq<char>, Seq<Seq<char>>>;

/// Relies on `serde_json::from_slice::<Value>`: whether the bytes parse, and
/// what document they parse to, is a function of the bytes alone.
#[verifier::external_body]
pub(crate) fn parse_json(b: &[u8]) -> (r: Option<serde_json::Value>)
    ensures
        r is Some <==> json_document(b@),
        r matches Some(v) ==> str_entries(v) == json_str_entries(b@)
            && uint_entries(v) == json_uint_entries(b@)
            && str_list_entries(v) == json_str_list_entries(b@),
{
    serde_json::from_slice(b).ok()
}

/// Relies on `serde_json::Value::get` and `Value::as_str`: looks up one key of
/// the document and hands its value out when that value is a string.
#[verifier::external_body]
pub(crate) fn get_str_entry(v: &serde_json::Value, key: &str) -> (r: Option<String>)
    ensures
        r matches Some(s) ==> str_entries(*v).contains_key(key@) && s@ == str_entries(*v)[key@],
        r is None ==> !str_entries(*v).contains_key(key@),
{
    match v.get(key) {
        Some(f) => f.as_str().map(|s| s.to_string()),
        None => None,
    }
}

/// Relies on `serde_json::Value::get` and `Value::as_u64`: looks up one key of
/// the document and hands its value out when that value is an unsigned integer.
#[verifier::external_body]
pub(crate) fn get_uint_entry(v: &serde_json::Value, key: &str) -> (r: Option<u64>)
    ensures
        r matches Some(n) ==> uint_entries(*v).contains_key(key@) && n == uint_entries(*v)[key@],
        r is None ==> !uint_entries(*v).contains_key(key@),
{
    match v.get(key) {
        Some(f) => f.as_u64(),
        None => None,
    }
}

/// Relies on `serde_json::Value::get`, `Value::as_array` and `Value::as_str`:
/// looks up one key of the document and hands its value out when that value is
/// an array whose elements are all strings.
#[verifier::external_body]
pub(crate) fn get_str_list_entry(v: &serde_json::Value, key: &str) -> (r: Option<Vec<String>>)
    ensures
        r matches Some(xs) ==> str_list_entries(*v).contains_key(key@)
            && xs.deep_view() == str_list_entries(*v)[key@],
        r is None ==> !str_list_entries(*v).contains_key(key@),
{
    match v.get(key).and_then(|f| f.as_array()) {
        Some(a) => a.iter().map(|e| e.as_str().map(|s| s.to_string())).collect(),
        None => None,
    }
}

} // verus!
