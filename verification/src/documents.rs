//! Parsing the project's JSON and TOML documents (`package.json`,
//! `composer.json`, `pyproject.toml`) into the library's JSON values.
use vstd::prelude::*;
use crate::json::JsonValue;

verus! {

/// A TOML value as the `toml` crate parses it.
#[verifier::external_type_specification]
#[verifier::external_body]
pub struct ExTomlValue(toml::Value);

/// A JSON value as `serde_json` parses it.
#[verifier::external_type_specification]
#[verifier::external_body]
pub struct ExSerdeJsonValue(serde_json::Value);

/// What `toml` makes of a document: its value, tables as objects in the
/// order `toml::Table` keeps, integers, floats and datetimes as their text;
/// none when the text is not TOML.
pub uninterp spec fn toml_document(text: Seq<char>) -> Option<JsonValue>;

/// What `serde_json` makes of a document: its value, objects in the order
/// `serde_json::Map` keeps, numbers as their text; none when the text is
/// not JSON.
pub uninterp spec fn json_document(text: Seq<char>) -> Option<JsonValue>;

/// A parsed TOML value as a library value, one variant for one.
#[verifier::external_body]
fn from_toml_value(value: &toml::Value) -> JsonValue {
    match value {
        toml::Value::String(s) => JsonValue::String(s.clone()),
        toml::Value::Integer(i) => JsonValue::Number(i.to_string()),
        toml::Value::Float(f) => JsonValue::Number(f.to_string()),
        toml::Value::Boolean(b) => JsonValue::Bool(*b),
        toml::Value::Datetime(d) => JsonValue::String(d.to_string()),
        toml::Value::Array(items) => JsonValue::Array(items.iter().map(from_toml_value).collect()),
        toml::Value::Table(t) => JsonValue::Object(t.iter().map(|(k, v)| (k.clone(), from_toml_value(v))).collect()),
    }
}

/// A parsed JSON value as a library value, one variant for one.
#[verifier::external_body]
fn from_json_value(value: &serde_json::Value) -> JsonValue {
    match value {
        serde_json::Value::Null => JsonValue::Null,
        serde_json::Value::Bool(b) => JsonValue::Bool(*b),
        serde_json::Value::Number(n) => JsonValue::Number(n.to_string()),
        serde_json::Value::String(s) => JsonValue::String(s.clone()),
        serde_json::Value::Array(items) => JsonValue::Array(items.iter().map(from_json_value).collect()),
        serde_json::Value::Object(m) => JsonValue::Object(m.iter().map(|(k, v)| (k.clone(), from_json_value(v))).collect()),
    }
}

/// `str::parse::<toml::Value>`: the document's value, or none when the
/// text is not TOML.
#[verifier::external_body]
fn toml_parse(text: &str) -> (r: Option<JsonValue>)
    ensures
        r == toml_document(text@),
{
    match text.parse::<toml::Value>() {
        Ok(value) => Some(from_toml_value(&value)),
        Err(_) => None,
    }
}

/// `serde_json::from_str::<serde_json::Value>`: the document's value, or
/// none when the text is not JSON.
#[verifier::external_body]
fn json_parse(text: &str) -> (r: Option<JsonValue>)
    ensures
        r == json_document(text@),
{
    match serde_json::from_str::<serde_json::Value>(text) {
        Ok(value) => Some(from_json_value(&value)),
        Err(_) => None,
    }
}

/// A TOML document's value, or none when the text is not TOML.
pub fn parse_toml_document(text: &str) -> (r: Option<JsonValue>)
    ensures
        r == toml_document(text@),
{
    toml_parse(text)
}

/// A JSON document's value, or none when the text is not JSON.
pub fn parse_json_document(text: &str) -> (r: Option<JsonValue>)
    ensures
        r == json_document(text@),
{
    json_parse(text)
}

/// A JSON document that is an object, or none (for a parse error or
/// another value).
pub fn parse_json_object(text: &str) -> (r: Option<JsonValue>)
    ensures
        r == match json_document(text@) {
            Some(JsonValue::Object(m)) => Some(JsonValue::Object(m)),
            _ => None,
        },
{
    match parse_json_document(text) {
        Some(JsonValue::Object(m)) => Some(JsonValue::Object(m)),
        _ => None,
    }
}

} // verus!
