//! The trusted boundary to `serde_json`, used only for reading incoming
//! frames. A parsed value is opaque to the verifier, so the boundary
//! gives it a mathematical model: [`json_model`] names the model of a
//! value, [`parse_model`] names what a text parses to, and each accessor
//! states its result over that model, exactly as the crate's source
//! shows it. Every decision taken on these results is made by verified
//! code in `protocol`. Outgoing frames do not pass through this module
//! at all; they are built and specified in `respond`.

use vstd::prelude::*;

verus! {

#[verifier::external_type_specification]
#[verifier::external_body]
pub struct ExValue(serde_json::Value);

/// The model of one parsed JSON value. A number is an integer where
/// serde_json stores one — any value in `[i64::MIN, u64::MAX]`, negative
/// only when stored signed — and otherwise a float, from which the
/// decoding reads nothing. An object is the finished key-value map, its
/// keys unique.
#[verifier::ext_equal]
pub enum JsonV {
    JNull,
    JBool(bool),
    JInt(int),
    JFloat,
    JText(Seq<char>),
    JArr(Seq<JsonV>),
    JObj(Map<Seq<char>, JsonV>),
}

/// The model of an opaque parsed value.
pub uninterp spec fn json_model(v: serde_json::Value) -> JsonV;

/// What one JSON document parses to: the model of the parsed value, or
/// `None` where serde_json rejects the text.
pub uninterp spec fn parse_model(s: Seq<char>) -> Option<JsonV>;

/// Relies on `serde_json::from_str::<Value>`: parses one JSON document
/// from the text, failing on malformed input; the result is a function
/// of the text alone, named by [`parse_model`].
#[verifier::external_body]
pub(crate) fn parse_json(s: &str) -> (r: Option<serde_json::Value>)
    ensures
        r is Some <==> parse_model(s@) is Some,
        r matches Option::Some(v) ==> Option::Some(json_model(v)) == parse_model(s@),
{
    serde_json::from_str::<serde_json::Value>(s).ok()
}

/// Relies on `serde_json::Value::get` with a string index: the value
/// under the key when `v` is an object holding it, `None` otherwise.
#[verifier::external_body]
pub(crate) fn json_get<'a>(v: &'a serde_json::Value, key: &str) -> (r: Option<
    &'a serde_json::Value,
>)
    ensures
        match json_model(*v) {
            JsonV::JObj(fields) => {
                &&& r is Some <==> fields.contains_key(key@)
                &&& (r matches Option::Some(u) ==> json_model(*u) == fields[key@])
            },
            _ => r is None,
        },
{
    v.get(key)
}

/// Relies on `serde_json::Value::as_str`: the text of a JSON string
/// value, `None` for any other kind of value.
#[verifier::external_body]
pub(crate) fn json_as_string(v: &serde_json::Value) -> (r: Option<String>)
    ensures
        match json_model(*v) {
            JsonV::JText(t) => r matches Option::Some(s) && s@ == t,
            _ => r is None,
        },
{
    v.as_str().map(|s| s.to_owned())
}

/// Relies on `serde_json::Value::as_i64`: the value of a JSON number
/// that is representable as an `i64`, `None` otherwise.
#[verifier::external_body]
pub(crate) fn json_as_i64(v: &serde_json::Value) -> (r: Option<i64>)
    ensures
        match json_model(*v) {
            JsonV::JInt(n) => if i64::MIN as int <= n && n <= i64::MAX as int {
                r == Option::Some(n as i64)
            } else {
                r is None
            },
            _ => r is None,
        },
{
    v.as_i64()
}

/// Relies on `serde_json::Value::as_u64`: the value of a JSON number
/// that is representable as a `u64`, `None` otherwise.
#[verifier::external_body]
pub(crate) fn json_as_u64(v: &serde_json::Value) -> (r: Option<u64>)
    ensures
        match json_model(*v) {
            JsonV::JInt(n) => if 0 <= n && n <= u64::MAX as int {
                r == Option::Some(n as u64)
            } else {
                r is None
            },
            _ => r is None,
        },
{
    v.as_u64()
}

} // verus!
