use vstd::prelude::*;
use crate::json::Json;

verus! {

#[verifier::external_type_specification]
#[verifier::external_body]
pub struct ExJsonValue(serde_json::Value);

/// The document that `serde_json` reads out of `s`, or `None` when `s` is
/// not valid JSON. Parsing is a function of the text alone.
pub uninterp spec fn json_of_text(s: Seq<char>) -> Option<Json>;

/// The text that `serde_json` writes for `j`. Rendering is a function of
/// the document alone.
pub uninterp spec fn json_text_of(j: Json) -> Seq<char>;

/// Rebuilds a tree that `serde_json` parsed in the library's own
/// representation, variant for variant; serves `parse_json`. A number that
/// fits `i64` is kept exactly, any other number as its literal text.
#[verifier::external_body]
fn json_of_value(v: &serde_json::Value) -> Json {
    match v {
        serde_json::Value::Null => Json::Null,
        serde_json::Value::Bool(b) => Json::Bool(*b),
        serde_json::Value::Number(n) => match n.as_i64() {
            Some(i) => Json::Int(i),
            None => Json::NumText(n.to_string()),
        },
        serde_json::Value::String(s) => Json::Str(s.clone()),
        serde_json::Value::Array(items) => Json::Arr(items.iter().map(json_of_value).collect()),
        serde_json::Value::Object(fields) => Json::Obj(
            fields.iter().map(|(k, x)| (k.clone(), json_of_value(x))).collect(),
        ),
    }
}

/// Hands a document of the library to `serde_json`, variant for variant;
/// serves `render_json`.
#[verifier::external_body]
fn json_to_value(j: &Json) -> serde_json::Value {
    match j {
        Json::Null => serde_json::Value::Null,
        Json::Bool(b) => serde_json::Value::Bool(*b),
        Json::Int(i) => serde_json::Value::Number(serde_json::Number::from(*i)),
        Json::NumText(s) => match s.parse::<serde_json::Number>() {
            Ok(n) => serde_json::Value::Number(n),
            Err(_) => serde_json::Value::Null,
        },
        Json::Str(s) => serde_json::Value::String(s.clone()),
        Json::Arr(items) => serde_json::Value::Array(items.iter().map(json_to_value).collect()),
        Json::Obj(fields) => serde_json::Value::Object(
            fields.iter().map(|(k, x)| (k.clone(), json_to_value(x))).collect(),
        ),
    }
}

/// Relies on `serde_json::from_str::<serde_json::Value>`: reads one JSON
/// document out of the text, deterministically, and fails on anything else.
#[verifier::external_body]
fn parse_json_raw(s: &str) -> (r: Option<Json>)
    ensures
        r == json_of_text(s@),
{
    match serde_json::from_str::<serde_json::Value>(s) {
        Ok(v) => Some(json_of_value(&v)),
        Err(_) => None,
    }
}

/// Relies on `serde_json::to_string`: writes the document as compact JSON,
/// deterministically.
#[verifier::external_body]
fn render_json_raw(j: &Json) -> (r: String)
    ensures
        r@ == json_text_of(*j),
{
    let v = json_to_value(j);
    serde_json::to_string(&v).unwrap_or_default()
}

/// Reads one JSON document out of `s`, or nothing when `s` is not JSON.
pub fn parse_json(s: &str) -> (r: Option<Json>)
    ensures
        r == json_of_text(s@),
{
    parse_json_raw(s)
}

/// Writes `j` as compact JSON text.
pub fn render_json(j: &Json) -> (r: String)
    ensures
        r@ == json_text_of(*j),
{
    render_json_raw(j)
}

} // verus!
