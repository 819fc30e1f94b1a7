//! The hashing primitives of the claim verifier: the host SHA-256 digest and
//! the pairwise ordered hash used to build and check Merkle paths.

use vstd::prelude::*;
use crate::bytes::{lex_less, lemma_lex_total, lemma_lex_asymmetric, lex_less_bytes, push_all};

verus! {

/// The 32-byte SHA-256 digest of a byte string. The digest function is left
/// abstract: contracts relate digests to the exact bytes that were hashed,
/// never to digest bit patterns.
pub uninterp spec fn sha256_of(data: Seq<u8>) -> Seq<u8>;

/// Relies on solana_sha256_hasher::hashv: it returns the SHA-256 digest of
/// the given bytes, and a digest is exactly 32 bytes.
#[verifier::external_body]
pub(crate) fn sha256(data: &Vec<u8>) -> (r: Vec<u8>)
    ensures
        r@ == sha256_of(data@),
        r@.len() == 32,
{
    solana_sha256_hasher::hashv(&[data.as_slice()]).to_bytes().to_vec()
}

/// The pairwise ordered hash: the digest of the smaller operand (in
/// byte-lexicographic order) followed by the larger. Sorting the operands
/// frees an inclusion proof from carrying sibling-direction bits.
pub open spec fn combine_of(a: Seq<u8>, b: Seq<u8>) -> Seq<u8> {
    if lex_less(a, b) {
        sha256_of(a + b)
    } else {
        sha256_of(b + a)
    }
}

/// The ordered hash ignores operand position: feeding the two operands in
/// either order yields the same digest.
pub proof fn lemma_combine_symmetric(a: Seq<u8>, b: Seq<u8>)
    ensures
        combine_of(a, b) == combine_of(b, a),
{
    lemma_lex_total(a, b);
    lemma_lex_asymmetric(a, b);
}

/// Hashes an ordered pair of 32-byte nodes into their parent node.
pub fn combine(a: &Vec<u8>, b: &Vec<u8>) -> (r: Vec<u8>)
    requires
        a@.len() == 32,
        b@.len() == 32,
    ensures
        r@ == combine_of(a@, b@),
        r@.len() == 32,
{
    let mut buf: Vec<u8> = Vec::new();
    if lex_less_bytes(a, b) {
        push_all(&mut buf, a);
        push_all(&mut buf, b);
        proof {
            assert(buf@ =~= a@ + b@);
        }
    } else {
        push_all(&mut buf, b);
        push_all(&mut buf, a);
        proof {
            assert(buf@ =~= b@ + a@);
        }
    }
    sha256(&buf)
}

} // verus!
