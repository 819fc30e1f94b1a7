//! The claim verifier: recomputes a commitment root from a leaf and an
//! ordered inclusion proof and compares it to the committed root.

use vstd::prelude::*;
use crate::bytes::{u64_le, u32_le, u64_le_bytes, u32_le_bytes, bytes_eq, push_all};
use crate::hashing::{sha256_of, sha256, combine_of, combine};

verus! {

/// The byte strings held by a list of proof nodes.
pub open spec fn views_of(s: Seq<Vec<u8>>) -> Seq<Seq<u8>> {
    s.map_values(|v: Vec<u8>| v@)
}

/// The leaf commitment of one snapshot entry: the digest of the claimant
/// identity followed by the amount as eight little-endian bytes and the leaf
/// index as four little-endian bytes.
pub open spec fn leaf_of(claimant: Seq<u8>, amount: u64, leaf_index: u32) -> Seq<u8> {
    sha256_of(claimant + u64_le(amount) + u32_le(leaf_index))
}

/// Computes the leaf commitment of one snapshot entry.
pub fn compute_leaf(claimant: &Vec<u8>, amount: u64, leaf_index: u32) -> (r: Vec<u8>)
    requires
        claimant@.len() == 32,
    ensures
        r@ == leaf_of(claimant@, amount, leaf_index),
        r@.len() == 32,
{
    let mut buf: Vec<u8> = Vec::new();
    push_all(&mut buf, claimant);
    let amount_bytes = u64_le_bytes(amount);
    push_all(&mut buf, &amount_bytes);
    let index_bytes = u32_le_bytes(leaf_index);
    push_all(&mut buf, &index_bytes);
    proof {
        assert(buf@ =~= claimant@ + u64_le(amount) + u32_le(leaf_index));
    }
    sha256(&buf)
}

/// Folds an inclusion proof over a node, left to right, with the pairwise
/// ordered hash.
pub open spec fn fold_proof(node: Seq<u8>, proof: Seq<Seq<u8>>) -> Seq<u8>
    decreases proof.len(),
{
    if proof.len() == 0 {
        node
    } else {
        fold_proof(combine_of(node, proof[0]), proof.skip(1))
    }
}

/// A claim is a member of the snapshot iff folding its proof over its leaf
/// commitment reproduces the committed root.
pub open spec fn proof_matches_root(
    claimant: Seq<u8>,
    amount: u64,
    leaf_index: u32,
    proof: Seq<Seq<u8>>,
    root: Seq<u8>,
) -> bool {
    fold_proof(leaf_of(claimant, amount, leaf_index), proof) == root
}

/// Checks a claim's inclusion proof: true iff the leaf built from the
/// claimant, amount and leaf index, combined along the given proof, equals
/// the expected root.
pub fn verify(
    claimant: &Vec<u8>,
    amount: u64,
    leaf_index: u32,
    merkle_proof: &Vec<Vec<u8>>,
    expected_root: &Vec<u8>,
) -> (r: bool)
    requires
        claimant@.len() == 32,
        forall|i: int| 0 <= i < merkle_proof@.len() ==> (#[trigger] merkle_proof@[i])@.len() == 32,
        expected_root@.len() == 32,
    ensures
        r == proof_matches_root(
            claimant@,
            amount,
            leaf_index,
            views_of(merkle_proof@),
            expected_root@,
        ),
{
    let ghost all = views_of(merkle_proof@);
    let mut current = compute_leaf(claimant, amount, leaf_index);
    proof {
        assert(all.skip(0) =~= all);
    }
    let mut i: usize = 0;
    while i < merkle_proof.len()
        invariant
            i <= merkle_proof@.len(),
            all == views_of(merkle_proof@),
            forall|j: int| 0 <= j < merkle_proof@.len() ==> (#[trigger] merkle_proof@[j])@.len()
                == 32,
            current@.len() == 32,
            fold_proof(current@, all.skip(i as int)) == fold_proof(
                leaf_of(claimant@, amount, leaf_index),
                all,
            ),
        decreases merkle_proof@.len() - i,
    {
        proof {
            assert(all[i as int] == merkle_proof@[i as int]@);
            assert(all.skip(i as int)[0] == all[i as int]);
            assert(all.skip(i as int).skip(1) =~= all.skip(i as int + 1));
        }
        let next = combine(&current, &merkle_proof[i]);
        current = next;
        i += 1;
    }
    proof {
        assert(all.skip(merkle_proof@.len() as int).len() == 0);
    }
    bytes_eq(&current, expected_root)
}

} // verus!
