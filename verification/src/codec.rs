//! Encoding between the library's `Json` tree and wire text. The text
//! encoding itself is delegated to serde_json; these are the only trusted
//! items on the command path.
use vstd::prelude::*;

use crate::json::{Json, JsonV};

verus! {

#[verifier::external_type_specification]
#[verifier::external_body]
pub struct ExValue(serde_json::Value);

/// The one JSON text serde_json produces for a value. A value determines its
/// text alone, so the text may be given a name.
pub uninterp spec fn json_text(v: JsonV) -> Seq<char>;

/// What a piece of text parses to: `None` when serde_json rejects it, or when
/// it holds a number outside the signed 64-bit range this library models.
pub uninterp spec fn json_parsed(s: Seq<char>) -> Option<JsonV>;

/// Relies on serde_json::Value: rebuilds a library value as the equivalent
/// serde_json value, arm by arm. Objects go through serde_json's map, which
/// orders keys; the text for a value is still a function of the value.
#[verifier::external_body]
fn value_of_json(j: &Json) -> serde_json::Value {
    match j {
        Json::Null => serde_json::Value::Null,
        Json::Bool(b) => serde_json::Value::Bool(*b),
        Json::Int(i) => serde_json::Value::from(*i),
        Json::Str(s) => serde_json::Value::String(s.clone()),
        Json::Arr(items) => serde_json::Value::Array(items.iter().map(value_of_json).collect()),
        Json::Obj(pairs) => serde_json::Value::Object(
            pairs.iter().map(|p| (p.0.clone(), value_of_json(&p.1))).collect(),
        ),
    }
}

/// Relies on serde_json::Value: reads a serde_json value back into a library
/// value, arm by arm. Numbers outside the signed 64-bit range reject the
/// whole document.
#[verifier::external_body]
fn json_of_value(v: &serde_json::Value) -> Option<Json> {
    match v {
        serde_json::Value::Null => Some(Json::Null),
        serde_json::Value::Bool(b) => Some(Json::Bool(*b)),
        serde_json::Value::Number(n) => n.as_i64().map(Json::Int),
        serde_json::Value::String(s) => Some(Json::Str(s.clone())),
        serde_json::Value::Array(a) => {
            a.iter().map(json_of_value).collect::<Option<Vec<Json>>>().map(Json::Arr)
        },
        serde_json::Value::Object(m) => {
            m.iter().map(|(k, x)| Some((k.clone(), json_of_value(x)?))).collect::<Option<Vec<(String, Json)>>>().map(Json::Obj)
        },
    }
}

/// Relies on serde_json::to_string: one line of JSON text for a value, a
/// function of the value alone. Serializing a serde_json::Value never fails.
#[verifier::external_body]
pub(crate) fn json_to_line(j: &Json) -> (r: String)
    ensures
        r@ == json_text(j@),
{
    serde_json::to_string(&value_of_json(j)).unwrap_or_else(|_| String::new())
}

/// Relies on serde_json::from_str: parses one line of text, a function of the
/// text alone.
#[verifier::external_body]
pub(crate) fn parse_json_line(s: &str) -> (r: Option<Json>)
    ensures
        match r {
            Some(j) => json_parsed(s@) == Some(j@),
            None => json_parsed(s@) is None,
        },
{
    serde_json::from_str::<serde_json::Value>(s).ok().and_then(|v| json_of_value(&v))
}

} // verus!
