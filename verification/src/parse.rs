use vstd::prelude::*;
use crate::errors::DecodeError;
use crate::json::{Json, JsonView, Member};

verus! {

/// `serde_json::Value`, taken as a value of which nothing is known but what
/// `value_document` names.
#[verifier::external_type_specification]
#[verifier::external_body]
pub struct ExValue(serde_json::Value);

/// `serde_json::Error`, taken as a value of which nothing is known.
#[verifier::external_type_specification]
#[verifier::external_body]
pub struct ExError(serde_json::Error);

/// The document that `serde_json::from_str` reads from a text; `None`
/// where it reads none and gives an error.
pub uninterp spec fn parsed_document(text: Seq<char>) -> Option<JsonView>;

/// The document that a `serde_json::Value` holds: what `document_from`
/// makes of it.
pub uninterp spec fn value_document(value: serde_json::Value) -> JsonView;

/// Calls `serde_json::from_str` for a `serde_json::Value`. Nothing is proved
/// of it: the contract only gives the outcome its name, `parsed_document`.
#[verifier::external_body]
fn read_value(text: &str) -> (res: Result<serde_json::Value, serde_json::Error>)
    ensures
        match res {
            Ok(value) => parsed_document(text@) == Some(value_document(value)),
            Err(_) => parsed_document(text@) is None,
        },
{
    serde_json::from_str::<serde_json::Value>(text)
}

/// Rewrites a `serde_json::Value` as a [`Json`], variant by variant: a
/// number as the text that `serde_json::Number` prints, the members of an
/// object in the order in which `serde_json::Map` hands them out. The
/// contract says that this is the document which `value_document` names.
#[verifier::external_body]
fn document_from(value: &serde_json::Value) -> (doc: Json)
    ensures
        doc@ == value_document(*value),
{
    match value {
        serde_json::Value::Null => Json::Null,
        serde_json::Value::Bool(flag) => Json::Bool(*flag),
        serde_json::Value::Number(number) => Json::Number(number.to_string()),
        serde_json::Value::String(text) => Json::Str(text.clone()),
        serde_json::Value::Array(items) => Json::Array(items.iter().map(document_from).collect()),
        serde_json::Value::Object(members) => Json::Object(
            members
                .iter()
                .map(|(key, item)| Member { key: key.clone(), value: document_from(item) })
                .collect(),
        ),
    }
}

/// The message of a `serde_json::Error`, as its `Display` prints it. The
/// contract claims nothing of the message.
#[verifier::external_body]
fn error_message(error: &serde_json::Error) -> (message: String) {
    error.to_string()
}

impl Json {
    /// Reads a JSON text. The document is the one that `serde_json` reads
    /// from it; a text that `serde_json` refuses gives `MalformedJson`.
    pub fn parse(text: &str) -> (res: Result<Json, DecodeError>)
        ensures
            match res {
                Ok(doc) => parsed_document(text@) == Some(doc@),
                Err(error) => parsed_document(text@) is None && error is MalformedJson,
            },
    {
        match read_value(text) {
            Ok(value) => Ok(document_from(&value)),
            Err(error) => Err(DecodeError::MalformedJson(error_message(&error))),
        }
    }
}

} // verus!
