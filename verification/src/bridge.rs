use vstd::prelude::*;

use crate::json::Json;

verus! {

#[verifier::external_type_specification]
#[verifier::external_body]
pub struct ExJsonValue(serde_json::Value);

/// What a `serde_json::Value` holds, as the library's own tree.
pub uninterp spec fn value_model(v: serde_json::Value) -> Json;

/// What parsing a text as one JSON document yields: `None` where the text is
/// not valid JSON, otherwise the document it denotes.
pub uninterp spec fn json_of(s: Seq<char>) -> Option<Json>;

/// Relies on serde_json::from_str: whether a text parses, and to which
/// document, depends on the text alone.
#[verifier::external_body]
fn parse_value(s: &str) -> (r: Option<serde_json::Value>)
    ensures
        r matches Some(v) ==> json_of(s@) == Some(value_model(v)),
        r is None ==> json_of(s@) is None,
{
    serde_json::from_str::<serde_json::Value>(s).ok()
}

/// Relies on the variants of serde_json::Value, on serde_json's rendering of a
/// number as decimal text (its Display), and on Number::as_i64, which returns
/// the value of a whole number that fits in `i64` and nothing otherwise.
#[verifier::external_body]
fn value_tree(v: &serde_json::Value) -> (j: Json)
    ensures
        j == value_model(*v),
{
    match v {
        serde_json::Value::Null => Json::Null,
        serde_json::Value::Bool(b) => Json::Truth(*b),
        serde_json::Value::Number(n) => Json::Num(n.to_string(), n.as_i64()),
        serde_json::Value::String(s) => Json::Text(s.clone()),
        serde_json::Value::Array(a) => Json::Items(a.iter().map(value_tree).collect()),
        serde_json::Value::Object(m) => Json::Fields(
            m.iter().map(|p| (p.0.clone(), value_tree(p.1))).collect(),
        ),
    }
}

/// Parses a response body as one JSON document, into the library's own tree.
pub fn parse_document(s: &str) -> (r: Option<Json>)
    ensures
        match r {
            Some(j) => json_of(s@) == Some(j),
            None => json_of(s@) is None,
        },
{
    match parse_value(s) {
        Some(v) => Some(value_tree(&v)),
        None => None,
    }
}

} // verus!
