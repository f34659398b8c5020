//! The scalar field that polynomials are written over.
//!
//! A `Scalar` is an element of the prime field of order `FIELD_MODULUS`,
//! kept in reduced form: every value reachable through this module's
//! constructors and operations satisfies `as_nat() < FIELD_MODULUS`.

use vstd::prelude::*;

verus! {

/// The prime modulus of the scalar field: 2^61 - 1.
pub const FIELD_MODULUS: u64 = 0x1fff_ffff_ffff_ffff;

/// One element of the scalar field, stored as its canonical residue.
#[derive(Clone, Copy, Debug, PartialEq, Eq, Structural)]
pub struct Scalar {
    v: u64,
}

impl Scalar {
    /// The mathematical value of this scalar.
    pub closed spec fn as_nat(self) -> nat {
        self.v as nat
    }

    /// Whether the scalar is in canonical (reduced) form.
    pub open spec fn reduced(self) -> bool {
        self.as_nat() < FIELD_MODULUS
    }

    /// The fixed-width byte encoding of this scalar: eight little-endian bytes.
    pub closed spec fn spec_bytes(self) -> Seq<u8> {
        vstd::bytes::spec_u64_to_le_bytes(self.v)
    }

    /// Builds the field element congruent to `v`.
    pub fn new(v: u64) -> (r: Scalar)
        ensures
            r.as_nat() == v as nat % FIELD_MODULUS as nat,
            r.reduced(),
    {
        Scalar { v: v % FIELD_MODULUS }
    }

    /// Field addition.
    pub fn add(self, other: Scalar) -> (r: Scalar)
        ensures
            r.as_nat() == (self.as_nat() + other.as_nat()) % FIELD_MODULUS as nat,
            r.reduced(),
    {
        let s: u128 = self.v as u128 + other.v as u128;
        Scalar { v: (s % (FIELD_MODULUS as u128)) as u64 }
    }

    /// Field multiplication.
    pub fn mul(self, other: Scalar) -> (r: Scalar)
        ensures
            r.as_nat() == (self.as_nat() * other.as_nat()) % FIELD_MODULUS as nat,
            r.reduced(),
    {
        proof {
            assert((self.v as u128) * (other.v as u128) <= ((u64::MAX as u128) * (u64::MAX as u128)))
                by (nonlinear_arith)
                requires self.v <= u64::MAX, other.v <= u64::MAX,
            ;
        }
        let p: u128 = self.v as u128 * other.v as u128;
        Scalar { v: (p % (FIELD_MODULUS as u128)) as u64 }
    }

    /// The canonical residue as a machine integer.
    pub fn as_u64(&self) -> (r: u64)
        ensures
            r as nat == self.as_nat(),
    {
        self.v
    }

    /// Whether two scalars denote the same field element.
    pub fn equals(&self, other: &Scalar) -> (r: bool)
        ensures
            r <==> self.as_nat() == other.as_nat(),
    {
        self.v == other.v
    }

    /// The scalar's fixed-width encoding, used when hashing coefficient sequences.
    pub fn to_bytes(&self) -> (r: Vec<u8>)
        ensures
            r@ == self.spec_bytes(),
            r@.len() == 8,
    {
        vstd::bytes::u64_to_le_bytes(self.v)
    }
}

/// Whether two scalar sequences hold the same field elements in the
/// same order.
pub fn scalar_slices_eq(a: &[Scalar], b: &[Scalar]) -> (r: bool)
    ensures
        r <==> a@ == b@,
{
    if a.len() != b.len() {
        return false;
    }
    let mut i: usize = 0;
    while i < a.len()
        invariant
            a@.len() == b@.len(),
            i <= a@.len(),
            forall|j: int| 0 <= j < i ==> a@[j] == b@[j],
        decreases a@.len() - i,
    {
        if !a[i].equals(&b[i]) {
            return false;
        }
        i = i + 1;
    }
    proof {
        assert(a@ =~= b@);
    }
    true
}

} // verus!
