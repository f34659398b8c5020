//! The reveal-based polynomial commitment scheme.
//!
//! Committing hashes the polynomial's full coefficient sequence;
//! opening reveals that sequence alongside the claimed point and value;
//! verifying recomputes the hash and the evaluation. The scheme is
//! binding through the hash but offers no hiding: see `add_hiding_noise`
//! for the noise helper a hiding variant would fold into the digest.
//!
//! Verification deliberately leaves the evaluation-commitment unchecked:
//! a caller that relies on it must re-derive and compare it itself.

use vstd::prelude::*;
use crate::dense_poly::{poly_eval, DensePolynomial};
use crate::errors::ProofVerifyError;
use crate::hashing::{digests_eq, hash_scalars, scalar_seq_bytes, sha3_256_of};
use crate::nizk::DotProductProofGens;
use crate::polycommit::PolynomialCommitment;
use crate::random::RandomTape;
use crate::scalar::{scalar_slices_eq, Scalar, FIELD_MODULUS};

verus! {

/// A binding digest over a polynomial's full coefficient sequence.
#[derive(Clone, Debug)]
pub struct GreyhoundCommitment(pub [u8; 32]);

impl View for GreyhoundCommitment {
    type V = Seq<u8>;

    open spec fn view(&self) -> Seq<u8> {
        self.0@
    }
}

/// The opening hint produced at commit time: a copy of the committed
/// coefficient sequence, handed back to the later `open` call.
#[derive(Clone, Debug)]
pub struct GreyhoundBlinds {
    pub poly: Vec<Scalar>,
}

/// A binding digest over the claimed evaluated value alone.
#[derive(Clone, Debug)]
pub struct GreyhoundEvalCommitment(pub [u8; 32]);

impl View for GreyhoundEvalCommitment {
    type V = Seq<u8>;

    open spec fn view(&self) -> Seq<u8> {
        self.0@
    }
}

/// A self-contained evaluation proof: the point, the claimed value, and
/// the full coefficient sequence it claims to open.
#[derive(Clone, Debug)]
pub struct GreyhoundEvalProof {
    pub point: Vec<Scalar>,
    pub value: Scalar,
    pub poly: Vec<Scalar>,
}

/// Scheme-wide public parameters: a generator set sized for one element
/// under the scheme's domain-separation label.
pub struct GreyhoundGens {
    pub gens: DotProductProofGens,
}

impl GreyhoundGens {
    /// Builds the parameters, reused across all later calls.
    pub fn new() -> (r: GreyhoundGens)
        ensures
            r.gens.n == 1,
            r.gens.label@ == "greyhound"@,
    {
        GreyhoundGens { gens: DotProductProofGens::new(1, "greyhound") }
    }
}

/// The commitment digest of a coefficient sequence: the hash of the
/// scalars' concatenated fixed-width encodings.
pub open spec fn commit_digest(coeffs: Seq<Scalar>) -> Seq<u8> {
    sha3_256_of(scalar_seq_bytes(coeffs))
}

/// The digest of a single claimed value, used for the
/// evaluation-commitment.
pub open spec fn value_digest(v: Scalar) -> Seq<u8> {
    sha3_256_of(scalar_seq_bytes(seq![v]))
}

/// The verifier's three checks: the proof's point equals the queried
/// point, the commitment is the digest of the proof's coefficient
/// sequence, and that sequence evaluates at the point to the claimed
/// value.
pub open spec fn verify_ok(
    proof: GreyhoundEvalProof,
    r: Seq<Scalar>,
    comm: GreyhoundCommitment,
) -> bool {
    &&& proof.point@ == r
    &&& comm@ == commit_digest(proof.poly@)
    &&& proof.value.as_nat() == poly_eval(proof.poly@, r[0])
}

impl PolynomialCommitment for DensePolynomial {
    type Param = GreyhoundGens;

    type Commitment = GreyhoundCommitment;

    type Randomness = GreyhoundBlinds;

    type Proof = GreyhoundEvalProof;

    type EvalCommitment = GreyhoundEvalCommitment;

    open spec fn commit_req(&self) -> bool {
        self@.len() > 0
    }

    open spec fn commit_ens(&self, comm: GreyhoundCommitment, rand: GreyhoundBlinds) -> bool {
        &&& comm@ == commit_digest(self@)
        &&& rand.poly@ == self@
    }

    open spec fn open_req(&self, blinds: GreyhoundBlinds, r: Seq<Scalar>) -> bool {
        r.len() == 1
    }

    open spec fn open_ens(
        &self,
        blinds: GreyhoundBlinds,
        r: Seq<Scalar>,
        proof: GreyhoundEvalProof,
        eval_comm: GreyhoundEvalCommitment,
    ) -> bool {
        &&& proof.point@ == r
        &&& proof.value.as_nat() == poly_eval(self@, r[0])
        &&& proof.poly@ == blinds.poly@
        &&& eval_comm@ == value_digest(proof.value)
    }

    open spec fn verify_req(r: Seq<Scalar>) -> bool {
        r.len() == 1
    }

    open spec fn verify_accepts(
        proof: GreyhoundEvalProof,
        r: Seq<Scalar>,
        comm: GreyhoundCommitment,
    ) -> bool {
        verify_ok(proof, r, comm)
    }

    fn commit(&self, gens: &GreyhoundGens, rand: Option<&mut RandomTape>) -> (out: (
        GreyhoundCommitment,
        GreyhoundBlinds,
    )) {
        let bytes = hash_scalars(self.values().as_slice());
        (
            GreyhoundCommitment(bytes),
            GreyhoundBlinds { poly: vstd::slice::slice_to_vec(self.values().as_slice()) },
        )
    }

    fn open(
        &self,
        blinds: &GreyhoundBlinds,
        r: &[Scalar],
        value: &Scalar,
        blind: Option<&Scalar>,
        gens: &GreyhoundGens,
        transcript: &mut merlin::Transcript,
        rand: &mut RandomTape,
    ) -> (out: (GreyhoundEvalProof, GreyhoundEvalCommitment)) {
        let val = self.evaluate(r);
        let mut vbuf: Vec<Scalar> = Vec::new();
        vbuf.push(val);
        proof {
            assert(vbuf@ =~= seq![val]);
        }
        let ec = GreyhoundEvalCommitment(hash_scalars(vbuf.as_slice()));
        (
            GreyhoundEvalProof {
                point: vstd::slice::slice_to_vec(r),
                value: val,
                poly: vstd::slice::slice_to_vec(blinds.poly.as_slice()),
            },
            ec,
        )
    }

    fn verify(
        proof: &GreyhoundEvalProof,
        gens: &GreyhoundGens,
        transcript: &mut merlin::Transcript,
        r: &[Scalar],
        eval_comm: &GreyhoundEvalCommitment,
        comm: &GreyhoundCommitment,
    ) -> (res: Result<(), ProofVerifyError>) {
        if !scalar_slices_eq(proof.point.as_slice(), r) {
            return Err(ProofVerifyError::InternalError);
        }
        let expected = hash_scalars(proof.poly.as_slice());
        if !digests_eq(&expected, &comm.0) {
            return Err(ProofVerifyError::InternalError);
        }
        let opened = DensePolynomial::new(vstd::slice::slice_to_vec(proof.poly.as_slice()));
        let val = opened.evaluate(r);
        if !val.equals(&proof.value) {
            return Err(ProofVerifyError::InternalError);
        }
        Ok(())
    }
}

/// The hint-encoding helper: extracts a polynomial's raw coefficient
/// sequence.
pub fn encode_polynomial(poly: &DensePolynomial) -> (r: Vec<Scalar>)
    ensures
        r@ == poly@,
{
    vstd::slice::slice_to_vec(poly.values().as_slice())
}

/// Adds the given noise sequence pointwise to the coefficient sequence.
pub fn add_noise(poly: &mut Vec<Scalar>, noise: &[Scalar])
    requires
        old(poly)@.len() == noise@.len(),
    ensures
        final(poly)@.len() == old(poly)@.len(),
        forall|j: int|
            0 <= j < old(poly)@.len() ==> final(poly)@[j].as_nat() == (old(poly)@[j].as_nat()
                + noise@[j].as_nat()) % (FIELD_MODULUS as nat),
{
    let mut i: usize = 0;
    while i < poly.len()
        invariant
            poly@.len() == old(poly)@.len(),
            noise@.len() == old(poly)@.len(),
            i <= poly@.len(),
            forall|j: int|
                0 <= j < i ==> poly@[j].as_nat() == (old(poly)@[j].as_nat() + noise@[j].as_nat())
                    % (FIELD_MODULUS as nat),
            forall|j: int| i <= j < poly@.len() ==> poly@[j] == old(poly)@[j],
        decreases poly@.len() - i,
    {
        let c = poly[i];
        let updated = c.add(noise[i]);
        poly.set(i, updated);
        i = i + 1;
    }
}

/// The noise-injection helper: adds a freshly drawn field element to
/// every coefficient. Intended for a future hiding variant; `commit` and
/// `open` do not call it, so by itself it provides no hiding.
pub fn add_hiding_noise(poly: &mut Vec<Scalar>, tape: &mut RandomTape)
    ensures
        final(poly)@.len() == old(poly)@.len(),
        forall|j: int| 0 <= j < final(poly)@.len() ==> final(poly)@[j].reduced(),
{
    let mut noise: Vec<Scalar> = Vec::new();
    let mut i: usize = 0;
    while i < poly.len()
        invariant
            poly@ == old(poly)@,
            noise@.len() == i,
            i <= poly@.len(),
        decreases poly@.len() - i,
    {
        let n = tape.random_scalar("greyhound_noise");
        noise.push(n);
        i = i + 1;
    }
    add_noise(poly, noise.as_slice());
}

/// Completeness: a commitment, opening hint and proof produced by
/// honest `commit` and `open` calls on the same polynomial satisfy the
/// verification predicate at the opened point.
pub proof fn lemma_completeness(
    p: DensePolynomial,
    comm: GreyhoundCommitment,
    blinds: GreyhoundBlinds,
    r: Seq<Scalar>,
    pf: GreyhoundEvalProof,
    ec: GreyhoundEvalCommitment,
)
    requires
        p.commit_ens(comm, blinds),
        p.open_req(blinds, r),
        p.open_ens(blinds, r, pf, ec),
    ensures
        DensePolynomial::verify_accepts(pf, r, comm),
{
}

/// Binding tamper-detection: substituting a different coefficient
/// sequence of the same length into a proof makes verification fail
/// against the original commitment, whenever the two sequences' digests
/// differ — that is, absent a hash collision between them.
pub proof fn lemma_binding_tamper_detection(
    comm: GreyhoundCommitment,
    pf: GreyhoundEvalProof,
    tampered: GreyhoundEvalProof,
    r: Seq<Scalar>,
)
    requires
        comm@ == commit_digest(pf.poly@),
        tampered.poly@.len() == pf.poly@.len(),
        tampered.poly@ != pf.poly@,
        commit_digest(tampered.poly@) != commit_digest(pf.poly@),
    ensures
        !verify_ok(tampered, r, comm),
{
}

/// Point-mismatch detection: a proof verifies only against the very
/// point embedded in it, regardless of its hash or value.
pub proof fn lemma_point_mismatch_detection(
    pf: GreyhoundEvalProof,
    r: Seq<Scalar>,
    comm: GreyhoundCommitment,
)
    requires
        pf.point@ != r,
    ensures
        !verify_ok(pf, r, comm),
{
}

/// Value-consistency detection: a proof whose embedded coefficient
/// sequence does not evaluate, at its own embedded point, to its claimed
/// value is rejected at every queried point and against every
/// commitment, even one whose hash matches.
pub proof fn lemma_value_consistency_detection(
    pf: GreyhoundEvalProof,
    r: Seq<Scalar>,
    comm: GreyhoundCommitment,
)
    requires
        pf.point@.len() == 1,
        pf.value.as_nat() != poly_eval(pf.poly@, pf.point@[0]),
    ensures
        !verify_ok(pf, r, comm),
{
}

/// Determinism: two commit calls on the same coefficient sequence yield
/// byte-identical commitments.
pub proof fn lemma_commit_deterministic(
    p1: DensePolynomial,
    p2: DensePolynomial,
    c1: GreyhoundCommitment,
    b1: GreyhoundBlinds,
    c2: GreyhoundCommitment,
    b2: GreyhoundBlinds,
)
    requires
        p1@ == p2@,
        p1.commit_ens(c1, b1),
        p2.commit_ens(c2, b2),
    ensures
        c1@ == c2@,
{
}

/// Mirrors the open step outside the trait boundary: evaluates the
/// polynomial at the point and packages the proof and the
/// evaluation-commitment.
pub fn produce_evaluation_proof(poly: &DensePolynomial, r: &[Scalar]) -> (out: (
    GreyhoundEvalProof,
    GreyhoundEvalCommitment,
))
    requires
        r@.len() == 1,
    ensures
        out.0.point@ == r@,
        out.0.value.as_nat() == poly_eval(poly@, r@[0]),
        out.0.poly@ == poly@,
        out.1@ == value_digest(out.0.value),
{
    let val = poly.evaluate(r);
    let mut vbuf: Vec<Scalar> = Vec::new();
    vbuf.push(val);
    proof {
        assert(vbuf@ =~= seq![val]);
    }
    let ec = GreyhoundEvalCommitment(hash_scalars(vbuf.as_slice()));
    (
        GreyhoundEvalProof {
            point: vstd::slice::slice_to_vec(r),
            value: val,
            poly: vstd::slice::slice_to_vec(poly.values().as_slice()),
        },
        ec,
    )
}

} // verus!
