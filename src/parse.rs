//! Reading a response body as a JSON document, through serde_json.
use vstd::prelude::*;
use crate::error::JobError;
use crate::json::Json;

verus! {

/// serde_json's parsed value, copied into `Json` by `json_from_value`.
#[verifier::external_type_specification]
#[verifier::external_body]
pub struct ExValue(serde_json::Value);

/// Whether a text is a JSON document that serde_json accepts.
pub uninterp spec fn json_accepts(text: Seq<char>) -> bool;

/// The document that serde_json reads from an accepted text.
pub uninterp spec fn json_doc(text: Seq<char>) -> Json;

/// Relies on serde_json::from_str::<serde_json::Value>: whether a text parses,
/// and the value it parses to, depend on the text alone. The value is copied
/// into `Json` variant for variant.
#[verifier::external_body]
fn parse_json(text: &str) -> (r: Option<Json>)
    ensures
        r is Some <==> json_accepts(text@),
        r is Some ==> r->Some_0 == json_doc(text@),
{
    match serde_json::from_str::<serde_json::Value>(text) {
        Ok(v) => Some(json_from_value(v)),
        Err(_) => None,
    }
}

/// Relies on serde_json::Value's variants and on serde_json::Number::as_f64,
/// which is always a number without the `arbitrary_precision` feature: copies a
/// value variant for variant, a number as the standard rendering of its double.
#[verifier::external_body]
fn json_from_value(v: serde_json::Value) -> (r: Json) {
    match v {
        serde_json::Value::Null => Json::Null,
        serde_json::Value::Bool(b) => Json::Bool(b),
        serde_json::Value::Number(n) => Json::Number(n.as_f64().unwrap_or_default().to_string()),
        serde_json::Value::String(s) => Json::Text(s),
        serde_json::Value::Array(a) => Json::Array(a.into_iter().map(json_from_value).collect()),
        serde_json::Value::Object(m) => Json::Object(m.into_iter().map(|(k, x)| (k, json_from_value(x))).collect()),
    }
}

/// Parses a response body: the document serde_json reads from it, or `Parse`
/// exactly when serde_json rejects the text.
pub fn parse_document(body: &str) -> (r: Result<Json, JobError>)
    ensures
        json_accepts(body@) ==> r == Ok::<Json, JobError>(json_doc(body@)),
        !json_accepts(body@) ==> r == Err::<Json, JobError>(JobError::Parse),
{
    match parse_json(body) {
        Some(doc) => Ok(doc),
        None => Err(JobError::Parse),
    }
}

} // verus!
