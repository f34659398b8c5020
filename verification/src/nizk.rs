//! Public generator sets for the proof-system collaborators.
//!
//! A generator set is scheme-wide setup data: a capacity and the
//! domain-separation label it was created under. It is created once and
//! only read afterwards.

use vstd::prelude::*;

verus! {

/// Setup data sized for dot-product style proofs: room for `n` elements,
/// created under a fixed label.
#[derive(Clone, Debug)]
pub struct DotProductProofGens {
    pub n: usize,
    pub label: String,
}

impl DotProductProofGens {
    /// Builds a generator set of capacity `n` under `label`.
    pub fn new(n: usize, label: &str) -> (r: DotProductProofGens)
        ensures
            r.n == n,
            r.label@ == label@,
    {
        DotProductProofGens { n, label: label.to_owned() }
    }
}

} // verus!
