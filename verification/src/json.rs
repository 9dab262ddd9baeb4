//! A mathematical model of JSON documents, and the trusted boundary to
//! serde_json, which parses response bodies and hands out their parts.
//!
//! `serde_json::Value` is opaque here; `value_model` names the document a
//! value holds, and every accessor's contract is stated over that model.

use vstd::prelude::*;

verus! {

#[verifier::external_type_specification]
#[verifier::external_body]
pub struct ExValue(serde_json::Value);

/// A JSON document, as mathematics.
#[verifier::ext_equal]
pub enum Jv {
    Null,
    Bool { b: bool },
    /// An integer the parser represents exactly (always within
    /// `i64::MIN ..= u64::MAX`).
    Int { i: int },
    /// A number the model does not track: fractional, with an exponent, or
    /// outside the exact integer range.
    Inexact,
    Str { s: Seq<char> },
    Arr { elems: Seq<Jv> },
    Obj { fields: Map<Seq<char>, Jv> },
}

/// The document a `serde_json::Value` holds.
pub uninterp spec fn value_model(v: serde_json::Value) -> Jv;

/// What parsing a text as JSON yields: the document, or nothing where the
/// text is not valid JSON. The result depends on the text alone.
pub uninterp spec fn parsed_json(s: Seq<char>) -> Option<Jv>;

/// Relies on `serde_json::from_str::<Value>`: parses a JSON text; on failure
/// the error's description is handed back.
#[verifier::external_body]
pub(crate) fn parse_json(s: &str) -> (r: Result<serde_json::Value, String>)
    ensures
        r is Ok <==> parsed_json(s@) is Some,
        r matches Ok(v) ==> parsed_json(s@) == Some(value_model(v)),
{
    match serde_json::from_str::<serde_json::Value>(s) {
        Ok(v) => Ok(v),
        Err(e) => Err(format!("{}", e)),
    }
}

/// Relies on `serde_json::Value::get` with a string key: looks the key up
/// when the value is an object, and yields nothing otherwise.
#[verifier::external_body]
pub(crate) fn json_get<'a>(v: &'a serde_json::Value, key: &str) -> (r: Option<
    &'a serde_json::Value,
>)
    ensures
        r is Some <==> (value_model(*v) matches Jv::Obj { fields } &&
            fields.dom().contains(key@)),
        r matches Some(f) ==> value_model(*f) == value_model(*v)->fields[key@],
{
    v.get(key)
}

/// Relies on `serde_json::Value::as_str`: the string a string value holds.
#[verifier::external_body]
pub(crate) fn json_as_str<'a>(v: &'a serde_json::Value) -> (r: Option<&'a str>)
    ensures
        r is Some <==> value_model(*v) is Str,
        r matches Some(s) ==> value_model(*v) == (Jv::Str { s: s@ }),
{
    v.as_str()
}

/// Relies on `serde_json::Value::as_bool`: the boolean a boolean value holds.
#[verifier::external_body]
pub(crate) fn json_as_bool(v: &serde_json::Value) -> (r: Option<bool>)
    ensures
        r is Some <==> value_model(*v) is Bool,
        r matches Some(b) ==> value_model(*v) == (Jv::Bool { b }),
{
    v.as_bool()
}

/// Relies on `serde_json::Value::as_i64`: the value of an integer number,
/// where it fits an `i64`.
#[verifier::external_body]
pub(crate) fn json_as_i64(v: &serde_json::Value) -> (r: Option<i64>)
    ensures
        r is Some <==> (value_model(*v) matches Jv::Int { i } && i64::MIN <= i
            <= i64::MAX),
        r matches Some(n) ==> value_model(*v) == (Jv::Int { i: n as int }),
{
    v.as_i64()
}

/// Relies on `serde_json::Value::as_array`: the elements of an array value,
/// in document order.
#[verifier::external_body]
pub(crate) fn json_as_array<'a>(v: &'a serde_json::Value) -> (r: Option<
    &'a Vec<serde_json::Value>,
>)
    ensures
        r is Some <==> value_model(*v) is Arr,
        r matches Some(a) ==> {
            &&& a@.len() == value_model(*v)->elems.len()
            &&& forall|i: int|
                0 <= i < a@.len() ==> #[trigger] value_model(a@[i]) == value_model(
                    *v,
                )->elems[i]
        },
{
    v.as_array()
}

/// Relies on `serde_json::Value::as_object` and `Map::keys`: the keys of an
/// object value, each exactly once.
#[verifier::external_body]
pub(crate) fn json_object_keys(v: &serde_json::Value) -> (r: Option<Vec<String>>)
    ensures
        r is Some <==> value_model(*v) is Obj,
        r matches Some(keys) ==> {
            &&& keys.deep_view().no_duplicates()
            &&& keys.deep_view().to_set() == value_model(*v)->fields.dom()
        },
{
    match v.as_object() {
        Some(m) => Some(m.keys().cloned().collect()),
        None => None,
    }
}

/// Relies on `serde_json::Value::is_null`.
#[verifier::external_body]
pub(crate) fn json_is_null(v: &serde_json::Value) -> (r: bool)
    ensures
        r == (value_model(*v) is Null),
{
    v.is_null()
}

} // verus!
