//! The untyped JSON values that tool calls carry through the host untouched.

use vstd::prelude::*;

verus! {

/// `serde_json::Value`, carried opaquely: the host never looks inside a raw
/// tool input or output.
#[verifier::external_type_specification]
#[verifier::external_body]
pub struct ExJsonValue(serde_json::Value);

/// Whether a JSON value is `null`.
///
/// Calls `serde_json::Value::is_null`. A value carries no view here, so the
/// answer is not stated.
#[verifier::external_body]
pub(crate) fn json_is_null(value: &serde_json::Value) -> (res: bool) {
    value.is_null()
}

/// A raw value kept only when it is present and not `null`.
pub fn normalized_raw(value: Option<serde_json::Value>) -> (res: Option<serde_json::Value>)
    ensures
        value is None ==> res is None,
        res is Some ==> res == value,
{
    match value {
        Some(v) => if json_is_null(&v) { None } else { Some(v) },
        None => None,
    }
}

/// A JSON object with one string member, `{key: value}`.
///
/// Builds a `serde_json::Value::Object`; a value carries no view here, so
/// nothing is stated of it.
#[verifier::external_body]
pub(crate) fn json_string_member(key: &str, value: &str) -> (res: serde_json::Value) {
    serde_json::Value::Object(std::iter::once((key.to_string(), serde_json::Value::String(value.to_string()))).collect())
}

/// A JSON object with one integer member, `{key: value}`.
///
/// Builds a `serde_json::Value::Object`; a value carries no view here, so
/// nothing is stated of it.
#[verifier::external_body]
pub(crate) fn json_integer_member(key: &str, value: i64) -> (res: serde_json::Value) {
    serde_json::Value::Object(std::iter::once((key.to_string(), serde_json::Value::from(value))).collect())
}

/// A JSON object with one unsigned integer member, `{key: value}`.
///
/// Builds a `serde_json::Value::Object`; a value carries no view here, so
/// nothing is stated of it.
#[verifier::external_body]
pub(crate) fn json_unsigned_member(key: &str, value: u64) -> (res: serde_json::Value) {
    serde_json::Value::Object(std::iter::once((key.to_string(), serde_json::Value::from(value))).collect())
}

/// JSON `null`.
///
/// Builds `serde_json::Value::Null`; a value carries no view here, so
/// nothing is stated of it.
#[verifier::external_body]
pub(crate) fn json_null() -> (res: serde_json::Value) {
    serde_json::Value::Null
}

} // verus!
