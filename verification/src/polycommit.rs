//! The capability contract for polynomial commitment schemes.
//!
//! A scheme exposes three operations — `commit`, `open`, `verify` — over
//! five associated data kinds. What each operation guarantees is stated
//! by the scheme itself through the associated specification functions,
//! so callers generic over the scheme still get the scheme's contract.

use vstd::prelude::*;
use crate::errors::ProofVerifyError;
use crate::random::RandomTape;
use crate::scalar::Scalar;

verus! {

pub trait PolynomialCommitment: Sized {
    type Param;
    type Commitment;
    type Randomness;
    type Proof;
    type EvalCommitment;

    /// When a polynomial may be committed to.
    spec fn commit_req(&self) -> bool;

    /// What the scheme guarantees of a fresh commitment and its
    /// opening hint.
    spec fn commit_ens(&self, comm: Self::Commitment, rand: Self::Randomness) -> bool;

    /// When an opening call is well-formed.
    spec fn open_req(&self, blinds: Self::Randomness, r: Seq<Scalar>) -> bool;

    /// What the scheme guarantees of a produced proof and
    /// evaluation-commitment.
    spec fn open_ens(
        &self,
        blinds: Self::Randomness,
        r: Seq<Scalar>,
        proof: Self::Proof,
        eval_comm: Self::EvalCommitment,
    ) -> bool;

    /// When a verification call is well-formed.
    spec fn verify_req(r: Seq<Scalar>) -> bool;

    /// The verification predicate: exactly when `verify` accepts.
    spec fn verify_accepts(proof: Self::Proof, r: Seq<Scalar>, comm: Self::Commitment) -> bool;

    /// Binds to the polynomial's full coefficient sequence and returns
    /// the commitment together with the opening hint for a later `open`.
    fn commit(&self, gens: &Self::Param, rand: Option<&mut RandomTape>) -> (out: (
        Self::Commitment,
        Self::Randomness,
    ))
        requires
            self.commit_req(),
        ensures
            self.commit_ens(out.0, out.1),
    ;

    /// Produces an evaluation proof for the committed polynomial at the
    /// point `r`, together with a commitment to the evaluated value.
    fn open(
        &self,
        blinds: &Self::Randomness,
        r: &[Scalar],
        value: &Scalar,
        blind: Option<&Scalar>,
        gens: &Self::Param,
        transcript: &mut merlin::Transcript,
        rand: &mut RandomTape,
    ) -> (out: (Self::Proof, Self::EvalCommitment))
        requires
            self.open_req(*blinds, r@),
        ensures
            self.open_ens(*blinds, r@, out.0, out.1),
    ;

    /// Checks a proof against a commitment and a queried point. Accepts
    /// exactly when the scheme's verification predicate holds; any
    /// mismatch is reported as an error, never a fault.
    fn verify(
        proof: &Self::Proof,
        gens: &Self::Param,
        transcript: &mut merlin::Transcript,
        r: &[Scalar],
        eval_comm: &Self::EvalCommitment,
        comm: &Self::Commitment,
    ) -> (res: Result<(), ProofVerifyError>)
        requires
            Self::verify_req(r@),
        ensures
            res is Ok <==> Self::verify_accepts(*proof, r@, *comm),
    ;
}

} // verus!
