//! Validation of custom platform-description files.
//!
//! A custom target spec must parse as a structured document before it is
//! accepted; the parse itself is delegated to serde_json.

use vstd::prelude::*;

verus! {

/// Whether `s` is a well-formed structured platform-description document.
/// The answer depends on the characters of `s` alone.
pub uninterp spec fn json_document(s: Seq<char>) -> bool;

/// Relies on serde_json::from_str::<serde_json::Value>: parsing succeeds or
/// fails as a function of the input text alone.
#[verifier::external_body]
pub(crate) fn json_parses(s: &str) -> (r: bool)
    ensures
        r == json_document(s@),
{
    serde_json::from_str::<serde_json::Value>(s).is_ok()
}

} // verus!
