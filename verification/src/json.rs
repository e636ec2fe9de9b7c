//! Reading single values out of JSON documents.

use vstd::prelude::*;

verus! {

#[verifier::external_type_specification]
#[verifier::external_body]
pub struct ExJsonError(serde_json::Error);

/// What `serde_json` finds at a JSON pointer in a document, read as a
/// string: `Err` where the document is no JSON, `Ok(None)` where the pointer
/// leads nowhere or to something that is no string.
pub uninterp spec fn json_text_at_pointer(document: Seq<u8>, pointer: Seq<char>) -> Result<Option<Seq<char>>, ()>;

/// What `serde_json` finds at a JSON pointer in a document, read as a
/// signed 64-bit integer: `Err` where the document is no JSON, `Ok(None)`
/// where the pointer leads nowhere or to something that is no such integer.
pub uninterp spec fn json_integer_at_pointer(document: Seq<u8>, pointer: Seq<char>) -> Result<Option<i64>, ()>;

/// Whether a lookup's result is the one that was named.
pub open spec fn text_lookup_matches(
    found: Result<Option<String>, serde_json::Error>,
    named: Result<Option<Seq<char>>, ()>,
) -> bool {
    match found {
        Ok(Some(text)) => named == Ok::<Option<Seq<char>>, ()>(Some(text@)),
        Ok(None) => named == Ok::<Option<Seq<char>>, ()>(None),
        Err(_) => named is Err,
    }
}

/// Whether a lookup's result is the one that was named.
pub open spec fn integer_lookup_matches(
    found: Result<Option<i64>, serde_json::Error>,
    named: Result<Option<i64>, ()>,
) -> bool {
    match found {
        Ok(value) => named == Ok::<Option<i64>, ()>(value),
        Err(_) => named is Err,
    }
}

/// Parses the document with `serde_json::from_slice` and follows the
/// pointer with `Value::pointer`, reading the target with `as_str`. The
/// contract names the outcome.
#[verifier::external_body]
pub(crate) fn json_text_at(document: &[u8], pointer: &str) -> (found: Result<Option<String>, serde_json::Error>)
    ensures
        text_lookup_matches(found, json_text_at_pointer(document@, pointer@)),
{
    let value: serde_json::Value = serde_json::from_slice(document)?;
    Ok(value.pointer(pointer).and_then(|target| target.as_str()).map(|text| text.to_string()))
}

/// Parses the document with `serde_json::from_slice` and follows the
/// pointer with `Value::pointer`, reading the target with `as_i64`. The
/// contract names the outcome.
#[verifier::external_body]
pub(crate) fn json_integer_at(document: &[u8], pointer: &str) -> (found: Result<Option<i64>, serde_json::Error>)
    ensures
        integer_lookup_matches(found, json_integer_at_pointer(document@, pointer@)),
{
    let value: serde_json::Value = serde_json::from_slice(document)?;
    Ok(value.pointer(pointer).and_then(|target| target.as_i64()))
}

/// The message of a `serde_json::Error`, through its `Display`. Nothing is
/// claimed of the text.
#[verifier::external_body]
pub(crate) fn json_error_message(error: &serde_json::Error) -> String {
    error.to_string()
}

} // verus!
