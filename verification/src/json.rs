//! The trusted boundary to the JSON codec.
//!
//! The pipeline treats a detail record as an opaque JSON payload: it never
//! interprets the payload's fields, but it must decide whether a response
//! body is valid JSON at all, and it re-renders a payload as pretty-printed
//! text for display.  Both facts are functions of the body text alone, so
//! they are named here by uninterpreted spec functions, and the two wrappers
//! below relate the outside calls to those names.

use vstd::prelude::*;

verus! {

/// Whether a text is a valid JSON document, as the codec's parser decides it.
pub uninterp spec fn json_ok(s: Seq<char>) -> bool;

/// The pretty-printed rendering of a valid JSON text.
pub uninterp spec fn pretty_of(s: Seq<char>) -> Seq<char>;

/// Relies on `serde_json::from_str::<serde_json::Value>`: whether parsing
/// succeeds depends on the input text alone.
#[verifier::external_body]
pub(crate) fn is_json_text(s: &str) -> (r: bool)
    ensures
        r == json_ok(s@),
{
    serde_json::from_str::<serde_json::Value>(s).is_ok()
}

/// Relies on `serde_json::from_str::<serde_json::Value>`, which succeeds
/// exactly on valid JSON text, and `serde_json::to_string_pretty`, which
/// never fails on a `serde_json::Value` (such a value holds no non-string
/// map key and no value its serializer rejects); the composition depends on
/// the input text alone.
#[verifier::external_body]
pub(crate) fn to_pretty_json(s: &str) -> (r: Option<String>)
    ensures
        r is Some <==> json_ok(s@),
        r matches Some(p) ==> p@ == pretty_of(s@),
{
    match serde_json::from_str::<serde_json::Value>(s) {
        Ok(v) => serde_json::to_string_pretty(&v).ok(),
        Err(_) => None,
    }
}

} // verus!
