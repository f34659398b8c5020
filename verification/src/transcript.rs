//! The transcript slot that the protocol threads through its calls.
//!
//! Schemes that derive challenges by Fiat-Shamir absorb their messages
//! here; the reveal-based scheme carries the transcript without reading
//! it. The type itself comes from the merlin crate and is opaque.

use vstd::prelude::*;

verus! {

/// Declares merlin's transcript type so that it can stand in signatures
/// and fields; nothing is assumed about its contents.
#[verifier::external_type_specification]
#[verifier::external_body]
pub struct ExTranscript(merlin::Transcript);

/// Relies on merlin::Transcript::new: builds a fresh transcript under
/// the given domain-separation label.
#[verifier::external_body]
pub(crate) fn new_transcript(label: &'static str) -> merlin::Transcript {
    merlin::Transcript::new(label.as_bytes())
}

} // verus!
