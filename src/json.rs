//! Structured documents, through the `serde_json` crate.

use vstd::prelude::*;
use crate::error::AppError;

verus! {

#[verifier::external_type_specification]
#[verifier::external_body]
pub struct ExJsonValue(serde_json::Value);

#[verifier::external_type_specification]
#[verifier::external_body]
pub struct ExJsonError(serde_json::Error);

/// Relies on the `Clone` impl of `serde_json::Value`, which copies a document;
/// nothing is stated of the copy, as the document is opaque here.
pub assume_specification[ <serde_json::Value as Clone>::clone ](v: &serde_json::Value) -> serde_json::Value;

/// Whether `serde_json::from_str` reads a document from the text.
pub uninterp spec fn json_parses(text: Seq<char>) -> bool;

/// The document that `serde_json::from_str` reads from the text.
pub uninterp spec fn parsed_document(text: Seq<char>) -> serde_json::Value;

/// The empty mapping that `serde_json::Map::with_capacity` gives for a
/// capacity.
pub uninterp spec fn empty_document(capacity: int) -> serde_json::Value;

/// Relies on `serde_json::from_str`: the document that `text` holds, or the
/// reason it holds none; the outcome depends on the text alone.
#[verifier::external_body]
pub(crate) fn parse_document(text: &str) -> (r: Result<serde_json::Value, serde_json::Error>)
    ensures
        r is Ok <==> json_parses(text@),
        r matches Ok(v) ==> v == parsed_document(text@),
{
    serde_json::from_str(text)
}

/// Relies on `serde_json::Map::with_capacity`: an empty mapping.
#[verifier::external_body]
pub(crate) fn empty_mapping(capacity: usize) -> (r: serde_json::Value)
    ensures
        r == empty_document(capacity as int),
{
    serde_json::Value::Object(serde_json::Map::with_capacity(capacity))
}

/// The document held by `text` where it holds one, else the empty mapping.
pub open spec fn document_or_empty_of(text: Seq<char>) -> serde_json::Value {
    if json_parses(text) { parsed_document(text) } else { empty_document(0) }
}

/// The document that `text` holds, or a serialization error saying why it
/// holds none.
pub fn read_document(text: &str) -> (r: Result<serde_json::Value, AppError>)
    ensures
        r is Ok <==> json_parses(text@),
        r matches Ok(v) ==> v == parsed_document(text@),
        r is Err ==> r->Err_0 is Serialization,
{
    match parse_document(text) {
        Ok(v) => Ok(v),
        Err(e) => Err(AppError::Serialization(e.to_string())),
    }
}

/// The document that `text` holds, or the empty mapping where it holds none:
/// a permissions document that cannot be read grants nothing.
pub fn document_or_empty(text: &str) -> (r: serde_json::Value)
    ensures
        r == document_or_empty_of(text@),
{
    match read_document(text) {
        Ok(v) => v,
        Err(_) => empty_mapping(0),
    }
}

} // verus!
