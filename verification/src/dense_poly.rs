//! Dense univariate polynomials over the scalar field.
//!
//! A polynomial is its ordered coefficient sequence, constant term first.
//! Evaluation at a point follows Horner's rule; the evaluation point is a
//! one-element sequence, so the same call shape serves schemes whose
//! points have higher arity.

use vstd::prelude::*;
use crate::scalar::{Scalar, FIELD_MODULUS};

verus! {

/// The value of the polynomial with coefficients `coeffs` (constant term
/// first) at the point `x`, as a canonical residue.
pub open spec fn poly_eval(coeffs: Seq<Scalar>, x: Scalar) -> nat
    decreases coeffs.len(),
{
    if coeffs.len() == 0 {
        0
    } else {
        (coeffs[0].as_nat() + x.as_nat() * poly_eval(coeffs.drop_first(), x))
            % (FIELD_MODULUS as nat)
    }
}

/// A dense polynomial: the ordered sequence of its coefficients.
#[derive(Clone, Debug)]
pub struct DensePolynomial {
    coeffs: Vec<Scalar>,
}

impl View for DensePolynomial {
    type V = Seq<Scalar>;

    closed spec fn view(&self) -> Seq<Scalar> {
        self.coeffs@
    }
}

impl DensePolynomial {
    /// Wraps a coefficient sequence as a polynomial.
    pub fn new(coeffs: Vec<Scalar>) -> (r: DensePolynomial)
        ensures
            r@ == coeffs@,
    {
        DensePolynomial { coeffs }
    }

    /// Read access to the coefficient sequence.
    pub fn values(&self) -> (r: &Vec<Scalar>)
        ensures
            r@ == self@,
    {
        &self.coeffs
    }

    /// Evaluates the polynomial at the (one-element) point `r` by
    /// Horner's rule.
    pub fn evaluate(&self, r: &[Scalar]) -> (v: Scalar)
        requires
            r@.len() == 1,
        ensures
            v.as_nat() == poly_eval(self@, r@[0]),
            v.reduced(),
    {
        let x = r[0];
        let mut acc = Scalar::new(0);
        let mut i: usize = self.coeffs.len();
        proof {
            assert(self.coeffs@.skip(i as int) =~= Seq::<Scalar>::empty());
        }
        while i > 0
            invariant
                i <= self.coeffs@.len(),
                x == r@[0],
                acc.as_nat() == poly_eval(self.coeffs@.skip(i as int), x),
                acc.reduced(),
            decreases i,
        {
            i = i - 1;
            let c = self.coeffs[i];
            let t = x.mul(acc);
            proof {
                let tail = self.coeffs@.skip(i as int + 1);
                assert(self.coeffs@.skip(i as int).drop_first() =~= tail);
                vstd::arithmetic::div_mod::lemma_add_mod_noop_right(
                    c.as_nat() as int,
                    (x.as_nat() * poly_eval(tail, x)) as int,
                    FIELD_MODULUS as int,
                );
            }
            acc = c.add(t);
        }
        proof {
            assert(self.coeffs@.skip(0) =~= self.coeffs@);
        }
        acc
    }
}

} // verus!
