//! JSON documents, as `serde_json` has read them.

use vstd::prelude::*;

verus! {

/// What a JSON document is.
pub enum Json {
    Null,
    Flag(bool),
    /// The bits of the double-precision number that `serde_json` takes the number for.
    Number(u64),
    Text(Seq<char>),
    List(Seq<Json>),
    Object(Map<Seq<char>, Json>),
}

/// A value of `serde_json`, of which only [`json_of`] tells what it holds.
#[verifier::external_type_specification]
#[verifier::external_body]
pub struct ExJsonValue(serde_json::Value);

/// The document that a `serde_json::Value` holds.
pub uninterp spec fn json_of(value: serde_json::Value) -> Json;

/// Calls `serde_json::Value::get` with a text key: what an object has under the key.
#[verifier::external_body]
pub(crate) fn member<'a>(value: &'a serde_json::Value, key: &str) -> (r: Option<&'a serde_json::Value>)
    ensures
        r matches Some(m) ==> json_of(*value) matches Json::Object(o) && o.dom().contains(key@)
            && json_of(*m) == o[key@],
        r is None ==> !(json_of(*value) matches Json::Object(o) && o.dom().contains(key@)),
{
    value.get(key)
}

/// `serde_json::Value::as_str` returns the text of a text, and nothing for anything else.
pub assume_specification[ serde_json::Value::as_str ](value: &serde_json::Value) -> (r: Option<&str>)
    ensures
        r matches Some(s) ==> json_of(*value) == Json::Text(s@),
        r is None ==> !(json_of(*value) is Text),
;

/// Calls `serde_json::Value::as_f64`, and takes the bits of the number: there are some for every
/// number, and for nothing else.
#[verifier::external_body]
pub(crate) fn number_bits(value: &serde_json::Value) -> (r: Option<u64>)
    ensures
        r matches Some(b) ==> json_of(*value) == Json::Number(b),
        r is None ==> !(json_of(*value) is Number),
{
    match value.as_f64() {
        Some(d) => Some(d.to_bits()),
        None => None,
    }
}

} // verus!
