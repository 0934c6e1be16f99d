//! Trusted declarations for reading JSON values through `serde_json`.
//!
//! A `serde_json::Value` is opaque to verification: nothing is known of
//! what is inside one. Every decision taken on data read through these
//! functions is made by verified code that handles each possible answer;
//! see [`crate::gateway`].

use vstd::prelude::*;

verus! {

/// Declares serde_json::Value so it can stand in signatures; a value of
/// it stays opaque.
#[verifier::external_type_specification]
#[verifier::external_body]
pub struct ExValue(serde_json::Value);

/// Relies on serde_json::from_str: parses text as one JSON document,
/// or fails on malformed input.
#[verifier::external_body]
pub fn parse_json(s: &str) -> Option<serde_json::Value> {
    serde_json::from_str(s).ok()
}

/// Relies on serde_json::Value::get with a string index: the member of a
/// JSON object under a key, when the value is an object holding that key.
#[verifier::external_body]
pub fn json_get<'a>(v: &'a serde_json::Value, key: &str) -> Option<&'a serde_json::Value> {
    v.get(key)
}

/// Relies on serde_json::Value::as_str: the text of a JSON string value.
#[verifier::external_body]
pub fn json_as_str<'a>(v: &'a serde_json::Value) -> Option<&'a str> {
    v.as_str()
}

/// Relies on serde_json::Value::as_bool: the value of a JSON boolean.
#[verifier::external_body]
pub fn json_as_bool(v: &serde_json::Value) -> Option<bool> {
    v.as_bool()
}

/// Relies on serde_json::Value::as_array: the elements of a JSON array.
#[verifier::external_body]
pub fn json_as_array<'a>(v: &'a serde_json::Value) -> Option<&'a Vec<serde_json::Value>> {
    v.as_array()
}

/// Relies on the Display impl of serde_json::Value: renders any JSON
/// value back to JSON text.
#[verifier::external_body]
pub fn json_to_text(v: &serde_json::Value) -> String {
    v.to_string()
}

} // verus!
