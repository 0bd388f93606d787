//! The crate's view of JSON documents.
//!
//! Configuration and initial-data files are JSON objects; this module leans on
//! `serde_json` to parse them and to look up top-level string fields. The
//! parsed document is opaque here: what the logic reads from it is named by
//! the two uninterpreted functions below, and everything downstream is proved
//! against those names.

use vstd::prelude::*;

verus! {

#[verifier::external_type_specification]
#[verifier::external_body]
pub struct ExValue(serde_json::Value);

/// Whether a text is well-formed JSON: `serde_json::from_str::<Value>` returns
/// `Ok` on it. The result depends on the characters alone.
pub uninterp spec fn json_valid(text: Seq<char>) -> bool;

/// The string held by a parsed JSON document at a top-level key: `Some` exactly
/// when the document is an object whose value at that key is a JSON string.
pub uninterp spec fn str_field(doc: serde_json::Value, key: Seq<char>) -> Option<Seq<char>>;

/// Relies on `serde_json::from_str::<Value>`: it returns `Ok` exactly on
/// well-formed JSON text. The error is carried over as its descriptive string.
#[verifier::external_body]
pub(crate) fn parse_json(text: &str) -> (r: Result<serde_json::Value, String>)
    ensures
        r is Ok <==> json_valid(text@),
{
    serde_json::from_str::<serde_json::Value>(text).map_err(|e| e.to_string())
}

/// Relies on `serde_json::Value::get` and `Value::as_str`: together they hand
/// out the string at a top-level key of an object, and nothing otherwise.
#[verifier::external_body]
pub(crate) fn get_str(doc: &serde_json::Value, key: &str) -> (r: Option<String>)
    ensures
        r is Some <==> str_field(*doc, key@) is Some,
        r matches Some(s) ==> str_field(*doc, key@) matches Some(f) && s@ == f,
{
    doc.get(key).and_then(|v| v.as_str()).map(|s| s.to_owned())
}

/// Parses the text a read came up with: the document when the read succeeded
/// and the text is well-formed JSON, and otherwise the error — the read's own,
/// or the parser's.
pub fn parse_document(io: Result<String, String>) -> (r: Result<serde_json::Value, String>)
    ensures
        io matches Ok(text) ==> (r is Ok <==> json_valid(text@)),
        io matches Err(e) ==> (r matches Err(kept) && kept@ == e@),
{
    match io {
        Ok(text) => parse_json(text.as_str()),
        Err(e) => Err(e),
    }
}

} // verus!
