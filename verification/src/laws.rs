//! The ledger's cross-operation guarantees, each stated over the spec-level
//! transitions that the operations' own contracts return.

use vstd::prelude::*;
use crate::ledger::{LedgerView, claim_record_of};
use crate::records::{ErrorCode, MigrationView};

verus! {

/// At most one claim per (migration, claimant) pair succeeds: once the
/// ledger records the pair's consumed claim, every further claim for the
/// pair with a positive amount fails with `AlreadyClaimed`, whatever
/// amount, proof or leaf index it carries.
pub proof fn lemma_claim_at_most_once(
    l: LedgerView,
    migration_id: usize,
    user: Seq<u8>,
    amount1: u64,
    proof1: Seq<Seq<u8>>,
    leaf_index1: u32,
    amount2: u64,
    proof2: Seq<Seq<u8>>,
    leaf_index2: u32,
)
    requires
        migration_id < l.migrations.len(),
        l.claim_error(migration_id, user, amount1, proof1, leaf_index1) is None,
        amount2 > 0,
    ensures
        l.after_claim(migration_id, user, amount1).claim_error(
            migration_id,
            user,
            amount2,
            proof2,
            leaf_index2,
        ) == Some(ErrorCode::AlreadyClaimed),
{
    let l2 = l.after_claim(migration_id, user, amount1);
    assert(l2.migrations == l.migrations);
    assert(l2.claims[l.claims.len() as int] == claim_record_of(migration_id, user, amount1));
    assert(l2.already_claimed(migration_id, user));
}

/// A consumed claim is never reset: recording any further claim, for any
/// pair, preserves it.
pub proof fn lemma_claimed_persists(
    l: LedgerView,
    migration_id: usize,
    user: Seq<u8>,
    other_migration_id: usize,
    other_user: Seq<u8>,
    other_amount: u64,
)
    requires
        l.already_claimed(migration_id, user),
    ensures
        l.after_claim(other_migration_id, other_user, other_amount).already_claimed(
            migration_id,
            user,
        ),
{
    let l2 = l.after_claim(other_migration_id, other_user, other_amount);
    let i = choose|i: int|
        0 <= i < l.claims.len() && (#[trigger] l.claims[i]).migration_id == migration_id
            && l.claims[i].user == user;
    assert(l2.claims[i] == l.claims[i]);
}

/// Claims against an inactive migration always fail with
/// `MigrationNotActive`, regardless of proof validity.
pub proof fn lemma_inactive_rejects_claims(
    l: LedgerView,
    migration_id: usize,
    user: Seq<u8>,
    amount: u64,
    proof: Seq<Seq<u8>>,
    leaf_index: u32,
)
    requires
        migration_id < l.migrations.len(),
        !l.migrations[migration_id as int].is_active,
    ensures
        l.claim_error(migration_id, user, amount, proof, leaf_index) == Some(
            ErrorCode::MigrationNotActive,
        ),
{
}

/// Finalization is idempotently observable: finalizing a record that is
/// already finalized reasserts the cleared flag and changes nothing.
pub proof fn lemma_finalize_idempotent(l: LedgerView, migration_id: usize)
    requires
        migration_id < l.migrations.len(),
    ensures
        l.after_finalize(migration_id).after_finalize(migration_id) == l.after_finalize(
            migration_id,
        ),
{
    let l1 = l.after_finalize(migration_id);
    let l2 = l1.after_finalize(migration_id);
    assert((MigrationView { is_active: false, ..l1.migrations[migration_id as int] })
        =~= l1.migrations[migration_id as int]);
    assert(l2.migrations =~= l1.migrations);
    assert(l2 =~= l1);
}

/// A contribution never decreases the reserve's running total, and a
/// successful one adds exactly the contributed amount.
pub proof fn lemma_contribute_monotonic(
    l: LedgerView,
    migration_id: usize,
    reserve_id: usize,
    amount: u64,
)
    requires
        reserve_id < l.reserves.len(),
        l.contribute_error(migration_id, reserve_id, amount) is None,
    ensures
        l.after_contribute(reserve_id, amount).reserves[reserve_id as int].total_reserved
            == l.reserves[reserve_id as int].total_reserved + amount,
        l.after_contribute(reserve_id, amount).reserves[reserve_id as int].total_reserved
            >= l.reserves[reserve_id as int].total_reserved,
{
}

/// Repeated contributions accumulate exactly: two successful contributions
/// add the sum of their amounts.
pub proof fn lemma_contributions_accumulate(
    l: LedgerView,
    migration_id: usize,
    reserve_id: usize,
    amount1: u64,
    amount2: u64,
)
    requires
        reserve_id < l.reserves.len(),
        l.contribute_error(migration_id, reserve_id, amount1) is None,
        l.after_contribute(reserve_id, amount1).contribute_error(
            migration_id,
            reserve_id,
            amount2,
        ) is None,
    ensures
        l.after_contribute(reserve_id, amount1).after_contribute(
            reserve_id,
            amount2,
        ).reserves[reserve_id as int].total_reserved == l.reserves[reserve_id as int]
            .total_reserved + amount1 + amount2,
{
    let l1 = l.after_contribute(reserve_id, amount1);
    assert(l1.reserves[reserve_id as int].total_reserved
        == l.reserves[reserve_id as int].total_reserved + amount1);
}

} // verus!
