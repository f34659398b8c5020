//! Error values surfaced by the verification step.

use vstd::prelude::*;

verus! {

/// The single failure kind that `verify` reports: some check of the
/// proof against the commitment and the queried point did not hold.
#[derive(Clone, Copy, Debug, PartialEq, Eq, Structural)]
pub enum ProofVerifyError {
    InternalError,
}

} // verus!
