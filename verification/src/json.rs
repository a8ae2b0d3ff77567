//! Bindings to serde_json. A JSON value is opaque to the verified code:
//! it is carried through whole, and the dispatch logic reads it only
//! through the small accessors declared here. Each accessor's result is a
//! function of the value alone, so it bears an uninterpreted name that the
//! decoding contracts are stated over.
#![allow(unused_imports)]

use vstd::prelude::*;

verus! {

#[verifier::external_type_specification]
#[verifier::external_body]
pub struct ExValue(serde_json::Value);

/// Whether serde_json's strict parser accepts this text as one JSON
/// document; the outcome is a function of the text alone.
pub uninterp spec fn parses_as_json(s: Seq<char>) -> bool;

/// What Value::as_array reads: the elements when the value is an array,
/// `None` otherwise.
pub uninterp spec fn spec_value_arr(v: serde_json::Value) -> Option<Seq<serde_json::Value>>;

/// What Value::as_i64 reads: the number when the value is an integer
/// representable as i64, `None` otherwise.
pub uninterp spec fn spec_value_i64(v: serde_json::Value) -> Option<i64>;

/// What Value::as_str reads: the characters when the value is a string,
/// `None` otherwise.
pub uninterp spec fn spec_value_str(v: serde_json::Value) -> Option<Seq<char>>;

/// What Value::get reads under a string key: the member when the value is
/// an object with that key, `None` otherwise.
pub uninterp spec fn spec_value_get(v: serde_json::Value, key: Seq<char>) -> Option<
    serde_json::Value,
>;

/// Relies on serde_json::from_str::<Value>: strict JSON parsing, which
/// accepts or rejects a given text the same way on every call.
#[verifier::external_body]
pub fn parse_json(s: &str) -> (r: Option<serde_json::Value>)
    ensures
        r is Some <==> parses_as_json(s@),
{
    serde_json::from_str::<serde_json::Value>(s).ok()
}

/// Relies on serde_json::Value::as_array: `Some` exactly when the value
/// is an array, borrowing its elements in order.
#[verifier::external_body]
pub fn json_as_array(v: &serde_json::Value) -> (r: Option<&Vec<serde_json::Value>>)
    ensures
        r is Some <==> spec_value_arr(*v) is Some,
        r matches Some(a) ==> (spec_value_arr(*v) matches Some(s) && a@ == s),
{
    v.as_array()
}

/// Relies on serde_json::Value::as_i64: `Some` exactly when the value is
/// an integer number representable as i64.
#[verifier::external_body]
pub fn json_as_i64(v: &serde_json::Value) -> (r: Option<i64>)
    ensures
        r == spec_value_i64(*v),
{
    v.as_i64()
}

/// Relies on serde_json::Value::as_str: `Some` exactly when the value is
/// a string, borrowing its text.
#[verifier::external_body]
pub fn json_as_str(v: &serde_json::Value) -> (r: Option<&str>)
    ensures
        r is Some <==> spec_value_str(*v) is Some,
        r matches Some(s) ==> (spec_value_str(*v) matches Some(c) && s@ == c),
{
    v.as_str()
}

/// Relies on serde_json::Value::get with a string index: the member of an
/// object under this key, `None` for other values or a missing key.
#[verifier::external_body]
pub fn json_get<'a>(v: &'a serde_json::Value, key: &str) -> (r: Option<&'a serde_json::Value>)
    ensures
        r is Some <==> spec_value_get(*v, key@) is Some,
        r matches Some(m) ==> (spec_value_get(*v, key@) matches Some(w) && *m == w),
{
    v.get(key)
}

/// Relies on serde_json::Value::clone: the copy equals the original.
pub assume_specification[ <serde_json::Value as Clone>::clone ](v: &serde_json::Value) -> (r:
    serde_json::Value)
    ensures
        r == *v,
;

/// Relies on serde_json's From<&str> for Value: a JSON string value whose
/// text, read back by as_str, is exactly this text.
#[verifier::external_body]
pub fn json_text_value(s: &str) -> (r: serde_json::Value)
    ensures
        spec_value_str(r) == Some(s@),
{
    serde_json::Value::from(s)
}

} // verus!
