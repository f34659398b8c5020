//! Hashing of scalar sequences.
//!
//! The collision-resistant hash is an outside primitive used as a black
//! box: its digest is named by an uninterpreted function, and everything
//! the library proves about commitments goes through that name.

use vstd::prelude::*;
use crate::scalar::Scalar;

verus! {

/// The SHA3-256 digest of a byte sequence. The hash itself is an outside
/// primitive; this name stands for its (input-determined) 32-byte result.
pub uninterp spec fn sha3_256_of(bytes: Seq<u8>) -> Seq<u8>;

/// The concatenation, in order, of the fixed-width encodings of a
/// sequence of scalars: the byte stream that gets hashed.
pub open spec fn scalar_seq_bytes(s: Seq<Scalar>) -> Seq<u8>
    decreases s.len(),
{
    if s.len() == 0 {
        Seq::empty()
    } else {
        scalar_seq_bytes(s.drop_last()) + s.last().spec_bytes()
    }
}

/// Relies on sha3::Sha3_256, called through the digest crate's Digest
/// trait, for a one-shot SHA3-256 computation: the 32-byte result is a
/// function of the input bytes alone.
#[verifier::external_body]
fn sha3_digest(bytes: &[u8]) -> (r: [u8; 32])
    ensures
        r@ == sha3_256_of(bytes@),
{
    <sha3::Sha3_256 as sha3::digest::Digest>::digest(bytes).into()
}

/// Encodes each scalar in order and concatenates the encodings.
fn encode_scalars(data: &[Scalar]) -> (r: Vec<u8>)
    ensures
        r@ == scalar_seq_bytes(data@),
{
    let mut out: Vec<u8> = Vec::new();
    let mut i: usize = 0;
    while i < data.len()
        invariant
            i <= data@.len(),
            out@ == scalar_seq_bytes(data@.take(i as int)),
        decreases data@.len() - i,
    {
        let mut b = data[i].to_bytes();
        out.append(&mut b);
        proof {
            assert(data@.take(i as int + 1).drop_last() =~= data@.take(i as int));
        }
        i = i + 1;
    }
    proof {
        assert(data@.take(data@.len() as int) =~= data@);
    }
    out
}

/// Whether two 32-byte digests are identical.
pub fn digests_eq(a: &[u8; 32], b: &[u8; 32]) -> (r: bool)
    ensures
        r <==> a@ == b@,
{
    let mut i: usize = 0;
    while i < 32
        invariant
            i <= 32,
            forall|j: int| 0 <= j < i ==> a@[j] == b@[j],
        decreases 32 - i,
    {
        if a[i] != b[i] {
            return false;
        }
        i = i + 1;
    }
    proof {
        assert(a@ =~= b@);
    }
    true
}

/// Hashes a scalar sequence: the SHA3-256 digest of the scalars'
/// concatenated fixed-width encodings.
pub(crate) fn hash_scalars(data: &[Scalar]) -> (r: [u8; 32])
    ensures
        r@ == sha3_256_of(scalar_seq_bytes(data@)),
{
    let bytes = encode_scalars(data);
    sha3_digest(bytes.as_slice())
}

} // verus!
