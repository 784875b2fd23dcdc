//! Extraction of string fields from JSON response bodies.
//!
//! Several address-lookup services answer with a small JSON document instead
//! of a bare address literal. The detector only ever needs one top-level
//! string field out of such a document; the parse itself is delegated to
//! serde_json and its result is named, never restated.

use vstd::prelude::*;

verus! {

/// The named top-level string field of a JSON document, as serde_json reads
/// it: the bytes of that field's string value when the document is a valid
/// JSON object and the field holds a string, and nothing otherwise.
pub uninterp spec fn json_string_field_of(body: Seq<u8>, field: Seq<char>) -> Option<Seq<u8>>;

/// Relies on serde_json::from_slice, serde_json::Value::get and
/// serde_json::Value::as_str: parses the document and hands out the named
/// top-level field when it is a string. The result depends on the arguments
/// alone.
#[verifier::external_body]
pub(crate) fn json_string_field(body: &[u8], field: &str) -> (r: Option<Vec<u8>>)
    ensures
        match r {
            Some(v) => json_string_field_of(body@, field@) == Some(v@),
            None => json_string_field_of(body@, field@) is None,
        },
{
    serde_json::from_slice::<serde_json::Value>(body).ok().and_then(
        |doc| doc.get(field).and_then(|f| f.as_str()).map(|s| s.as_bytes().to_vec()),
    )
}

} // verus!
