//! A source of fresh scalars with domain-separation labels.
//!
//! The tape is backed by a merlin transcript: each draw absorbs the
//! label and squeezes challenge bytes. Nothing is promised about the
//! drawn values beyond their being canonical field elements, so callers
//! must hold for every outcome.

use vstd::prelude::*;
use crate::scalar::Scalar;

verus! {

/// A tape that hands out scalars on demand, one label per draw.
pub struct RandomTape {
    tape: merlin::Transcript,
}

/// Relies on merlin::Transcript::challenge_bytes: fills the supplied
/// buffer with challenge bytes derived from the transcript state and the
/// label. The buffer is this library's own and holds eight bytes.
#[verifier::external_body]
fn challenge_bytes8(t: &mut merlin::Transcript, label: &'static str) -> (r: Vec<u8>)
    ensures
        r@.len() == 8,
{
    let mut buf = [0u8; 8];
    t.challenge_bytes(label.as_bytes(), &mut buf);
    buf.to_vec()
}

impl RandomTape {
    /// Opens a fresh tape under the given name.
    pub fn new(name: &'static str) -> (r: RandomTape) {
        RandomTape { tape: crate::transcript::new_transcript(name) }
    }

    /// Draws one scalar under the given label. The result is a canonical
    /// field element; no more is promised of it.
    pub fn random_scalar(&mut self, label: &'static str) -> (r: Scalar)
        ensures
            r.reduced(),
    {
        let bytes = challenge_bytes8(&mut self.tape, label);
        let x = vstd::bytes::u64_from_le_bytes(bytes.as_slice());
        Scalar::new(x)
    }
}

} // verus!
