use greyhound::dense_poly::DensePolynomial;
use greyhound::errors::ProofVerifyError;
use greyhound::greyhound::{
    add_hiding_noise, encode_polynomial, produce_evaluation_proof, GreyhoundGens,
};
use greyhound::polycommit::PolynomialCommitment;
use greyhound::random::RandomTape;
use greyhound::scalar::{Scalar, FIELD_MODULUS};

fn poly_from(coeffs: &[u64]) -> DensePolynomial {
    let v: Vec<Scalar> = coeffs.iter().map(|&c| Scalar::new(c)).collect();
    DensePolynomial::new(v)
}

fn point(x: u64) -> Vec<Scalar> {
    vec![Scalar::new(x)]
}

#[test]
fn commit_open_verify_accepts_at_zero() {
    // Coefficients [1, 2, 3, 4], point [0]: the value is the constant term 1.
    let p = poly_from(&[1, 2, 3, 4]);
    let gens = GreyhoundGens::new();
    let r = point(0);
    let (comm, blinds) = p.commit(&gens, None);
    let mut transcript = merlin::Transcript::new(b"test");
    let mut tape = RandomTape::new("test");
    let value = Scalar::new(1);
    let (proof, eval_comm) = p.open(
        &blinds,
        &r,
        &value,
        None,
        &gens,
        &mut transcript,
        &mut tape,
    );
    assert_eq!(proof.value, Scalar::new(1));
    let mut vt = merlin::Transcript::new(b"verify");
    let res = DensePolynomial::verify(&proof, &gens, &mut vt, &r, &eval_comm, &comm);
    assert!(res.is_ok());
}

#[test]
fn flipped_coefficient_in_proof_is_rejected() {
    let p = poly_from(&[1, 2, 3, 4]);
    let gens = GreyhoundGens::new();
    let r = point(0);
    let (comm, blinds) = p.commit(&gens, None);
    let mut transcript = merlin::Transcript::new(b"test");
    let mut tape = RandomTape::new("test");
    let value = Scalar::new(1);
    let (mut proof, eval_comm) = p.open(
        &blinds,
        &r,
        &value,
        None,
        &gens,
        &mut transcript,
        &mut tape,
    );
    // Flip one coefficient in the proof's embedded sequence.
    proof.poly[2] = Scalar::new(7);
    let mut vt = merlin::Transcript::new(b"verify");
    let res = DensePolynomial::verify(&proof, &gens, &mut vt, &r, &eval_comm, &comm);
    assert_eq!(res, Err(ProofVerifyError::InternalError));
}

#[test]
fn substituted_equal_length_polynomial_is_rejected() {
    // A proof for one polynomial, with another equal-length polynomial's
    // coefficients substituted in, fails the hash check.
    let p = poly_from(&[1, 2, 3, 4]);
    let other = poly_from(&[4, 3, 2, 1]);
    let gens = GreyhoundGens::new();
    let r = point(3);
    let (comm, blinds) = p.commit(&gens, None);
    let mut transcript = merlin::Transcript::new(b"test");
    let mut tape = RandomTape::new("test");
    let value = Scalar::new(0);
    let (mut proof, eval_comm) = p.open(
        &blinds,
        &r,
        &value,
        None,
        &gens,
        &mut transcript,
        &mut tape,
    );
    proof.poly = encode_polynomial(&other);
    let mut vt = merlin::Transcript::new(b"verify");
    let res = DensePolynomial::verify(&proof, &gens, &mut vt, &r, &eval_comm, &comm);
    assert!(res.is_err());
}

#[test]
fn wrong_point_is_rejected() {
    // The proof embeds point [0]; verifying against [1] must fail even
    // though hash and value are intact.
    let p = poly_from(&[1, 2, 3, 4]);
    let gens = GreyhoundGens::new();
    let r = point(0);
    let (comm, blinds) = p.commit(&gens, None);
    let mut transcript = merlin::Transcript::new(b"test");
    let mut tape = RandomTape::new("test");
    let value = Scalar::new(1);
    let (proof, eval_comm) = p.open(
        &blinds,
        &r,
        &value,
        None,
        &gens,
        &mut transcript,
        &mut tape,
    );
    let wrong = point(1);
    let mut vt = merlin::Transcript::new(b"verify");
    let res = DensePolynomial::verify(&proof, &gens, &mut vt, &wrong, &eval_comm, &comm);
    assert_eq!(res, Err(ProofVerifyError::InternalError));
}

#[test]
fn inconsistent_claimed_value_is_rejected() {
    // Keep the point and the coefficient sequence (so the hash matches)
    // but claim a wrong value.
    let p = poly_from(&[1, 2, 3, 4]);
    let gens = GreyhoundGens::new();
    let r = point(0);
    let (comm, blinds) = p.commit(&gens, None);
    let mut transcript = merlin::Transcript::new(b"test");
    let mut tape = RandomTape::new("test");
    let value = Scalar::new(1);
    let (mut proof, eval_comm) = p.open(
        &blinds,
        &r,
        &value,
        None,
        &gens,
        &mut transcript,
        &mut tape,
    );
    proof.value = Scalar::new(2);
    let mut vt = merlin::Transcript::new(b"verify");
    let res = DensePolynomial::verify(&proof, &gens, &mut vt, &r, &eval_comm, &comm);
    assert_eq!(res, Err(ProofVerifyError::InternalError));
}

#[test]
fn commit_is_deterministic() {
    let p1 = poly_from(&[5, 6, 7]);
    let p2 = poly_from(&[5, 6, 7]);
    let gens = GreyhoundGens::new();
    let (c1, _) = p1.commit(&gens, None);
    let (c2, _) = p2.commit(&gens, None);
    assert_eq!(c1.0, c2.0);
}

#[test]
fn different_polynomials_commit_differently() {
    // Would fail if the hashing step handed its input bytes back: the two
    // coefficient sequences differ, so the digests must differ too.
    let p1 = poly_from(&[1, 2, 3, 4]);
    let p2 = poly_from(&[1, 2, 3, 5]);
    let gens = GreyhoundGens::new();
    let (c1, _) = p1.commit(&gens, None);
    let (c2, _) = p2.commit(&gens, None);
    assert_ne!(c1.0, c2.0);
}

#[test]
fn commitment_is_not_the_raw_encoding() {
    // Four scalars encode to exactly 32 bytes; if the hash were the
    // identity, the commitment would equal that encoding.
    let p = poly_from(&[1, 2, 3, 4]);
    let gens = GreyhoundGens::new();
    let (c, _) = p.commit(&gens, None);
    let mut encoding = [0u8; 32];
    encoding[0] = 1;
    encoding[8] = 2;
    encoding[16] = 3;
    encoding[24] = 4;
    assert_ne!(c.0, encoding);
}

#[test]
fn verify_accepts_at_nonzero_point() {
    // [1, 2, 3, 4] at x = 2: 1 + 2*2 + 3*4 + 4*8 = 49.
    let p = poly_from(&[1, 2, 3, 4]);
    let gens = GreyhoundGens::new();
    let r = point(2);
    let (comm, blinds) = p.commit(&gens, None);
    let mut transcript = merlin::Transcript::new(b"test");
    let mut tape = RandomTape::new("test");
    let value = Scalar::new(49);
    let (proof, eval_comm) = p.open(
        &blinds,
        &r,
        &value,
        None,
        &gens,
        &mut transcript,
        &mut tape,
    );
    assert_eq!(proof.value, Scalar::new(49));
    let mut vt = merlin::Transcript::new(b"verify");
    let res = DensePolynomial::verify(&proof, &gens, &mut vt, &r, &eval_comm, &comm);
    assert!(res.is_ok());
}

#[test]
fn produce_evaluation_proof_matches_open() {
    let p = poly_from(&[9, 8, 7]);
    let r = point(5);
    let (proof, eval_comm) = produce_evaluation_proof(&p, &r);
    // 9 + 8*5 + 7*25 = 224.
    assert_eq!(proof.value, Scalar::new(224));
    assert_eq!(proof.point, r);
    assert_eq!(proof.poly, encode_polynomial(&p));

    let gens = GreyhoundGens::new();
    let (comm, _) = p.commit(&gens, None);
    let mut vt = merlin::Transcript::new(b"verify");
    let res = DensePolynomial::verify(&proof, &gens, &mut vt, &r, &eval_comm, &comm);
    assert!(res.is_ok());
}

#[test]
fn encode_polynomial_returns_coefficients() {
    let p = poly_from(&[11, 22, 33]);
    let cs = encode_polynomial(&p);
    assert_eq!(cs, vec![Scalar::new(11), Scalar::new(22), Scalar::new(33)]);
}

#[test]
fn scalar_arithmetic_wraps_at_the_modulus() {
    assert_eq!(Scalar::new(FIELD_MODULUS), Scalar::new(0));
    assert_eq!(Scalar::new(FIELD_MODULUS - 1).add(Scalar::new(1)), Scalar::new(0));
    assert_eq!(Scalar::new(3).mul(Scalar::new(4)), Scalar::new(12));
    assert_eq!(
        Scalar::new(FIELD_MODULUS - 1).mul(Scalar::new(2)),
        Scalar::new(FIELD_MODULUS - 2)
    );
}

#[test]
fn evaluate_uses_the_constant_term_at_zero() {
    let p = poly_from(&[6, 5, 4]);
    let r = point(0);
    assert_eq!(p.evaluate(&r), Scalar::new(6));
}

#[test]
fn gens_carry_capacity_and_label() {
    let gens = GreyhoundGens::new();
    assert_eq!(gens.gens.n, 1);
    assert_eq!(gens.gens.label, "greyhound".to_string());
}

#[test]
fn hiding_noise_keeps_length_and_changes_coefficients() {
    let mut coeffs = vec![Scalar::new(1), Scalar::new(2), Scalar::new(3)];
    let before = coeffs.clone();
    let mut tape = RandomTape::new("noise_test");
    add_hiding_noise(&mut coeffs, &mut tape);
    assert_eq!(coeffs.len(), before.len());
    // The tape's challenges are not all zero, so at least one coefficient moves.
    assert_ne!(coeffs, before);
}

#[test]
fn add_noise_adds_pointwise() {
    let mut coeffs = vec![Scalar::new(1), Scalar::new(FIELD_MODULUS - 1)];
    let noise = vec![Scalar::new(10), Scalar::new(2)];
    greyhound::greyhound::add_noise(&mut coeffs, &noise);
    assert_eq!(coeffs, vec![Scalar::new(11), Scalar::new(1)]);
}

#[test]
fn random_tape_is_label_separated() {
    let mut t1 = RandomTape::new("tape");
    let mut t2 = RandomTape::new("tape");
    // Two tapes under the same name draw the same scalar first.
    let a = t1.random_scalar("x");
    let b = t2.random_scalar("x");
    assert_eq!(a, b);
    // A second draw differs from the first.
    let c = t1.random_scalar("x");
    assert_ne!(a, c);
}

#[test]
fn empty_point_proof_is_rejected_against_a_real_point() {
    // A malformed proof with an empty embedded point is reportable, not a fault.
    let p = poly_from(&[1, 2]);
    let gens = GreyhoundGens::new();
    let r = point(0);
    let (comm, blinds) = p.commit(&gens, None);
    let mut transcript = merlin::Transcript::new(b"test");
    let mut tape = RandomTape::new("test");
    let value = Scalar::new(1);
    let (mut proof, eval_comm) = p.open(
        &blinds,
        &r,
        &value,
        None,
        &gens,
        &mut transcript,
        &mut tape,
    );
    proof.point = Vec::new();
    let mut vt = merlin::Transcript::new(b"verify");
    let res = DensePolynomial::verify(&proof, &gens, &mut vt, &r, &eval_comm, &comm);
    assert_eq!(res, Err(ProofVerifyError::InternalError));
}
