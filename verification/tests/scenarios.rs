//! End-to-end scenarios against the ledger: claims with real proofs,
//! lifecycle transitions, and liquidity-reserve accounting.

use necro_migrate::authority::derive_authority;
use necro_migrate::hashing::combine;
use necro_migrate::ledger::{MigrationLedger, AUTHORITY_NONCE};
use necro_migrate::merkle::{compute_leaf, verify};
use necro_migrate::records::ErrorCode;

/// A three-leaf snapshot: the root commits to leaves 0, 1, 2 pairwise.
fn three_leaf_tree(
    claimants: &[Vec<u8>; 3],
    amounts: &[u64; 3],
) -> (Vec<Vec<u8>>, Vec<u8>) {
    let leaves: Vec<Vec<u8>> = (0..3)
        .map(|i| compute_leaf(&claimants[i], amounts[i], i as u32))
        .collect();
    let parent01 = combine(&leaves[0], &leaves[1]);
    let root = combine(&parent01, &leaves[2]);
    (leaves, root)
}

fn setup_claim_ledger() -> (MigrationLedger, usize, [Vec<u8>; 3], [u64; 3], Vec<Vec<u8>>, Vec<u8>) {
    let claimants = [vec![10u8; 32], vec![11u8; 32], vec![12u8; 32]];
    let amounts = [100u64, 200u64, 300u64];
    let (leaves, root) = three_leaf_tree(&claimants, &amounts);

    let admin = vec![1u8; 32];
    let mut ledger = MigrationLedger::new();
    let mid = ledger
        .create_migration(
            &admin,
            &vec![0u8; 64],
            1u16,
            &vec![2u8; 32],
            &root,
            1_000_000_000u64,
        )
        .unwrap();
    (ledger, mid, claimants, amounts, leaves, root)
}

#[test]
fn test_claim_tokens() {
    let (mut ledger, mid, claimants, amounts, leaves, root) = setup_claim_ledger();

    // Claimant 1 proves membership with siblings [leaf 0, leaf 2].
    let proof = vec![leaves[0].clone(), leaves[2].clone()];
    assert!(verify(&claimants[1], amounts[1], 1, &proof, &root));

    let ti = ledger
        .claim(mid, &claimants[1], amounts[1], &proof, 1)
        .unwrap();
    assert_eq!(ti.amount, 200);
    assert_eq!(ti.destination, claimants[1]);
    // The transfer is authorized by the migration's derived authority.
    let admin = vec![1u8; 32];
    assert_eq!(ti.authority, derive_authority(&admin, 1u16, AUTHORITY_NONCE));

    // A second attempt with the very same inputs is a replay.
    let replay = ledger.claim(mid, &claimants[1], amounts[1], &proof, 1);
    assert_eq!(replay.unwrap_err(), ErrorCode::AlreadyClaimed);

    // A different claimant with a zeroed sibling carries no valid proof.
    let broken = vec![vec![0u8; 32], leaves[2].clone()];
    let r = ledger.claim(mid, &claimants[0], amounts[0], &broken, 0);
    assert_eq!(r.unwrap_err(), ErrorCode::InvalidMerkleProof);

    // With the honest proof the other claimant still succeeds once.
    let proof0 = vec![leaves[1].clone(), leaves[2].clone()];
    assert!(ledger.claim(mid, &claimants[0], amounts[0], &proof0, 0).is_ok());
}

#[test]
fn test_verify_bit_flips() {
    let (_, _, claimants, amounts, leaves, root) = setup_claim_ledger();
    let proof = vec![leaves[0].clone(), leaves[2].clone()];
    assert!(verify(&claimants[1], amounts[1], 1, &proof, &root));

    // Any single corrupted input must make verification fail.
    assert!(!verify(&claimants[1], amounts[1] + 1, 1, &proof, &root));
    assert!(!verify(&claimants[1], amounts[1], 2, &proof, &root));
    let mut other_claimant = claimants[1].clone();
    other_claimant[31] ^= 0x01;
    assert!(!verify(&other_claimant, amounts[1], 1, &proof, &root));
    let mut broken_proof = proof.clone();
    broken_proof[0][0] ^= 0x80;
    assert!(!verify(&claimants[1], amounts[1], 1, &broken_proof, &root));
    let mut broken_root = root.clone();
    broken_root[16] ^= 0x40;
    assert!(!verify(&claimants[1], amounts[1], 1, &proof, &broken_root));
}

#[test]
fn test_claim_rejects_zero_amount() {
    let (mut ledger, mid, claimants, _, leaves, _) = setup_claim_ledger();
    let proof = vec![leaves[0].clone(), leaves[2].clone()];
    let r = ledger.claim(mid, &claimants[1], 0, &proof, 1);
    assert_eq!(r.unwrap_err(), ErrorCode::InvalidAmount);
}

#[test]
fn test_finalized_migration_rejects_claims() {
    // create_migration with total_supply = 1_000_000_000, then finalize,
    // then any claim fails even with a perfectly valid proof.
    let (mut ledger, mid, claimants, amounts, leaves, root) = setup_claim_ledger();
    let admin = vec![1u8; 32];
    ledger.finalize_migration(mid, &admin).unwrap();
    assert!(!ledger.migrations[mid].is_active);

    let proof = vec![leaves[0].clone(), leaves[2].clone()];
    assert!(verify(&claimants[1], amounts[1], 1, &proof, &root));
    let r = ledger.claim(mid, &claimants[1], amounts[1], &proof, 1);
    assert_eq!(r.unwrap_err(), ErrorCode::MigrationNotActive);
}

#[test]
fn test_finalize_authorization() {
    let (mut ledger, mid, _, _, _, _) = setup_claim_ledger();
    let stranger = vec![8u8; 32];
    let admin = vec![1u8; 32];

    let r = ledger.finalize_migration(mid, &stranger);
    assert_eq!(r.unwrap_err(), ErrorCode::Unauthorized);
    assert!(ledger.migrations[mid].is_active);

    assert!(ledger.finalize_migration(mid, &admin).is_ok());
    assert!(!ledger.migrations[mid].is_active);

    // Finalizing again reasserts the cleared flag without an error.
    assert!(ledger.finalize_migration(mid, &admin).is_ok());
    assert!(!ledger.migrations[mid].is_active);
}

#[test]
fn test_duplicate_migration() {
    let admin = vec![1u8; 32];
    let mut ledger = MigrationLedger::new();
    let root = vec![3u8; 32];
    let first = ledger.create_migration(&admin, &vec![0u8; 64], 1u16, &vec![2u8; 32], &root, 10);
    assert_eq!(first.unwrap(), 0);

    let again = ledger.create_migration(&admin, &vec![0u8; 64], 1u16, &vec![2u8; 32], &root, 10);
    assert_eq!(again.unwrap_err(), ErrorCode::DuplicateMigration);

    // The same admin may register a snapshot of another source chain.
    let other_chain = ledger.create_migration(&admin, &vec![0u8; 64], 2u16, &vec![2u8; 32], &root, 10);
    assert_eq!(other_chain.unwrap(), 1);
}

#[test]
fn test_liquidity_reserve_policy() {
    // initialize_liquidity_reserve(percentage = 25) fails validation
    // (out of [1, 20]); percentage = 20 succeeds.
    let (mut ledger, mid, _, _, _, _) = setup_claim_ledger();
    let treasury = vec![6u8; 32];

    let too_high = ledger.initialize_dao_liquidity(mid, &treasury, 25);
    assert_eq!(too_high.unwrap_err(), ErrorCode::InvalidOperation);

    let zero = ledger.initialize_dao_liquidity(mid, &treasury, 0);
    assert_eq!(zero.unwrap_err(), ErrorCode::InvalidOperation);

    let rid = ledger.initialize_dao_liquidity(mid, &treasury, 20).unwrap();
    assert_eq!(ledger.reserves[rid].lp_percentage, 20);
    assert_eq!(ledger.reserves[rid].total_reserved, 0);

    // One reserve per migration.
    let second = ledger.initialize_dao_liquidity(mid, &treasury, 10);
    assert_eq!(second.unwrap_err(), ErrorCode::InvalidOperation);
}

#[test]
fn test_contributions_accumulate() {
    let (mut ledger, mid, _, _, _, _) = setup_claim_ledger();
    let treasury = vec![6u8; 32];
    let contributor = vec![7u8; 32];
    let rid = ledger.initialize_dao_liquidity(mid, &treasury, 5).unwrap();

    let ti = ledger.contribute_to_dao_lp(mid, rid, &contributor, 5).unwrap();
    assert_eq!(ti.amount, 5);
    assert_eq!(ti.destination, treasury);
    assert_eq!(ti.authority, contributor);
    assert_eq!(ledger.reserves[rid].total_reserved, 5);

    ledger.contribute_to_dao_lp(mid, rid, &contributor, 7).unwrap();
    assert_eq!(ledger.reserves[rid].total_reserved, 12);

    let zero = ledger.contribute_to_dao_lp(mid, rid, &contributor, 0);
    assert_eq!(zero.unwrap_err(), ErrorCode::InvalidAmount);
    assert_eq!(ledger.reserves[rid].total_reserved, 12);
}

#[test]
fn test_contribution_overflow() {
    let (mut ledger, mid, _, _, _, _) = setup_claim_ledger();
    let treasury = vec![6u8; 32];
    let contributor = vec![7u8; 32];
    let rid = ledger.initialize_dao_liquidity(mid, &treasury, 5).unwrap();

    ledger.contribute_to_dao_lp(mid, rid, &contributor, u64::MAX).unwrap();
    assert_eq!(ledger.reserves[rid].total_reserved, u64::MAX);

    // An addition that would overflow fails and leaves the total unchanged.
    let r = ledger.contribute_to_dao_lp(mid, rid, &contributor, 1);
    assert_eq!(r.unwrap_err(), ErrorCode::Overflow);
    assert_eq!(ledger.reserves[rid].total_reserved, u64::MAX);
}

#[test]
fn test_contribution_wrong_migration() {
    let (mut ledger, mid, _, _, _, root) = setup_claim_ledger();
    let admin = vec![1u8; 32];
    let other_mid = ledger
        .create_migration(&admin, &vec![0u8; 64], 2u16, &vec![2u8; 32], &root, 10)
        .unwrap();
    let treasury = vec![6u8; 32];
    let contributor = vec![7u8; 32];
    let rid = ledger.initialize_dao_liquidity(mid, &treasury, 5).unwrap();

    // The reserve is bound to `mid`; aiming it at the other migration fails.
    let r = ledger.contribute_to_dao_lp(other_mid, rid, &contributor, 5);
    assert_eq!(r.unwrap_err(), ErrorCode::InvalidOperation);
    assert_eq!(ledger.reserves[rid].total_reserved, 0);
}

#[test]
fn test_combine_is_order_independent() {
    let a = vec![0xaau8; 32];
    let b = vec![0x55u8; 32];
    assert_eq!(combine(&a, &b), combine(&b, &a));
    // The ordered hash is a digest, not either operand.
    let c = combine(&a, &b);
    assert_ne!(c, a);
    assert_ne!(c, b);
}

#[test]
fn test_combine_known_digest() {
    // SHA-256 of 64 zero bytes.
    let expected: [u8; 32] = [
        0xf5, 0xa5, 0xfd, 0x42, 0xd1, 0x6a, 0x20, 0x30, 0x27, 0x98, 0xef, 0x6e, 0xd3, 0x09,
        0x97, 0x9b, 0x43, 0x00, 0x3d, 0x23, 0x20, 0xd9, 0xf0, 0xe8, 0xea, 0x98, 0x31, 0xa9,
        0x27, 0x59, 0xfb, 0x4b,
    ];
    let zero = vec![0u8; 32];
    assert_eq!(combine(&zero, &zero), expected.to_vec());
}

#[test]
fn test_derive_authority_deterministic() {
    let admin = vec![1u8; 32];
    let a1 = derive_authority(&admin, 1u16, AUTHORITY_NONCE);
    let a2 = derive_authority(&admin, 1u16, AUTHORITY_NONCE);
    assert_eq!(a1, a2);
    assert_eq!(a1.len(), 32);

    // Any change in the migration identity moves the authority.
    assert_ne!(a1, derive_authority(&admin, 2u16, AUTHORITY_NONCE));
    assert_ne!(a1, derive_authority(&vec![2u8; 32], 1u16, AUTHORITY_NONCE));
    assert_ne!(a1, derive_authority(&admin, 1u16, 254));
}
