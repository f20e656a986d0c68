//! The JSON documents the decoders read, and the `serde_json` calls that read them.
use serde_json::Value;
use vstd::prelude::*;

verus! {

/// A JSON document held by `serde_json`.
#[verifier::external_type_specification]
#[verifier::external_body]
pub struct ExJsonValue(serde_json::Value);

/// The content of a JSON value, as far as the decoders look at it.
pub enum JsonModel {
    Null,
    Bool(bool),
    /// A number; its value when it is an integer from 0 to `u64::MAX`.
    Number(Option<u64>),
    Text(Seq<char>),
    List(Seq<JsonModel>),
    /// An object; a key given twice keeps its last value.
    Object(Map<Seq<char>, JsonModel>),
}

/// What a `serde_json::Value` holds.
pub uninterp spec fn json_model(v: serde_json::Value) -> JsonModel;

/// What `serde_json::from_str` makes of a text: the document, or none when the
/// text is not valid JSON.
pub uninterp spec fn parse_model(text: Seq<char>) -> Option<JsonModel>;

/// The member `key` of an object; none for a missing key or for a non-object.
pub open spec fn member_of(d: JsonModel, key: Seq<char>) -> Option<JsonModel> {
    match d {
        JsonModel::Object(m) => if m.contains_key(key) {
            Some(m[key])
        } else {
            None
        },
        _ => None,
    }
}

/// Relies on `serde_json::from_str::<Value>`: the parsed document, or an error
/// when the text is not valid JSON.
#[verifier::external_body]
pub(crate) fn parse_json(text: &str) -> (r: Result<Value, serde_json::Error>)
    ensures
        match parse_model(text@) {
            Some(d) => r is Ok && json_model(r->Ok_0) == d,
            None => r is Err,
        },
{
    serde_json::from_str(text)
}

/// Relies on `Value::get` with a string key: the member of an object, none for a
/// missing key or a value that is not an object.
#[verifier::external_body]
pub(crate) fn member<'a>(v: &'a Value, key: &str) -> (r: Option<&'a Value>)
    ensures
        match member_of(json_model(*v), key@) {
            Some(m) => r is Some && json_model(*r->0) == m,
            None => r is None,
        },
{
    v.get(key)
}

/// Relies on `Value::is_null`.
#[verifier::external_body]
pub(crate) fn is_null(v: &Value) -> (r: bool)
    ensures
        r == (json_model(*v) is Null),
{
    v.is_null()
}

/// Relies on `Value::is_object`.
#[verifier::external_body]
pub(crate) fn is_object(v: &Value) -> (r: bool)
    ensures
        r == (json_model(*v) is Object),
{
    v.is_object()
}

/// Relies on `Value::as_str`: the text of a string value.
#[verifier::external_body]
pub(crate) fn as_text<'a>(v: &'a Value) -> (r: Option<&'a str>)
    ensures
        match json_model(*v) {
            JsonModel::Text(s) => r is Some && r->0@ == s,
            _ => r is None,
        },
{
    v.as_str()
}

/// Relies on `Value::as_u64`: the value of a number that is an integer in range.
#[verifier::external_body]
pub(crate) fn as_unsigned(v: &Value) -> (r: Option<u64>)
    ensures
        match json_model(*v) {
            JsonModel::Number(n) => r == n,
            _ => r is None,
        },
{
    v.as_u64()
}

/// Relies on `Value::as_bool`.
#[verifier::external_body]
pub(crate) fn as_flag(v: &Value) -> (r: Option<bool>)
    ensures
        match json_model(*v) {
            JsonModel::Bool(b) => r == Some(b),
            _ => r is None,
        },
{
    v.as_bool()
}

/// Relies on `Value::as_array`: the elements of a list, in order.
#[verifier::external_body]
pub(crate) fn as_list<'a>(v: &'a Value) -> (r: Option<&'a Vec<Value>>)
    ensures
        match json_model(*v) {
            JsonModel::List(items) => r is Some && r->0@.len() == items.len() && forall|i: int|
                0 <= i < items.len() ==> json_model(#[trigger] r->0@[i]) == items[i],
            _ => r is None,
        },
{
    v.as_array()
}

/// Relies on `serde::de::Error::custom` for `serde_json::Error`: an error that
/// reports a member of the wrong type.
#[verifier::external_body]
pub(crate) fn shape_error(key: &str) -> serde_json::Error {
    <serde_json::Error as serde::de::Error>::custom(format!("invalid type for field `{key}`"))
}

} // verus!
