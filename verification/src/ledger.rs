//! The migration ledger: a deterministic state-transition processor over
//! migration records, consumed-claim records and liquidity reserves. Each
//! operation is a single indivisible step; on any error it leaves every
//! record exactly as it was. The host applies a returned transfer request
//! and the mutation that produced it as one transaction.

use vstd::prelude::*;
use crate::bytes::{bytes_eq, clone_bytes};
use crate::authority::{authority_of, derive_authority};
use crate::merkle::{views_of, proof_matches_root, verify};
use crate::records::{
    ErrorCode, Migration, MigrationView, UserClaim, UserClaimView, DaoLiquidity,
    DaoLiquidityView, TransferInstruction,
};

verus! {

/// The disambiguation nonce every new migration record fixes for authority
/// derivation.
pub const AUTHORITY_NONCE: u8 = 255;

/// The registry of all records, keyed by ledger id (position). The host
/// grants each operation exclusive access for its duration.
pub struct MigrationLedger {
    pub migrations: Vec<Migration>,
    pub claims: Vec<UserClaim>,
    pub reserves: Vec<DaoLiquidity>,
}

/// The mathematical value of the whole ledger.
#[verifier::ext_equal]
pub struct LedgerView {
    pub migrations: Seq<MigrationView>,
    pub claims: Seq<UserClaimView>,
    pub reserves: Seq<DaoLiquidityView>,
}

impl View for MigrationLedger {
    type V = LedgerView;

    open spec fn view(&self) -> LedgerView {
        LedgerView {
            migrations: self.migrations@.map_values(|m: Migration| m@),
            claims: self.claims@.map_values(|c: UserClaim| c@),
            reserves: self.reserves@.map_values(|d: DaoLiquidity| d@),
        }
    }
}

/// The record a successful claim appends: consumed, for exactly `amount`.
pub open spec fn claim_record_of(migration_id: usize, user: Seq<u8>, amount: u64)
    -> UserClaimView {
    UserClaimView { migration_id: migration_id, user: user, is_claimed: true, amount: amount }
}

/// The record a successful creation appends: active, nothing migrated yet.
pub open spec fn new_migration_record(
    admin: Seq<u8>,
    name: Seq<u8>,
    source_chain: u16,
    source_address: Seq<u8>,
    snapshot_root: Seq<u8>,
    total_supply: u64,
) -> MigrationView {
    MigrationView {
        name: name,
        admin: admin,
        source_chain: source_chain,
        source_address: source_address,
        snapshot_root: snapshot_root,
        total_supply: total_supply,
        migrated_amount: 0,
        is_active: true,
        authority_nonce: AUTHORITY_NONCE,
    }
}

/// The record a successful reserve initialization appends: empty, not yet
/// backing a pool.
pub open spec fn new_reserve_record(
    migration_id: usize,
    dao_treasury: Seq<u8>,
    lp_percentage: u8,
) -> DaoLiquidityView {
    DaoLiquidityView {
        migration_id: migration_id,
        dao_treasury: dao_treasury,
        lp_percentage: lp_percentage,
        pool_initialized: false,
        total_reserved: 0,
    }
}

impl LedgerView {
    /// Well-formedness: schema field widths, reserve percentages in policy
    /// range, every reference resolving to a migration, claim records all
    /// consumed, and uniqueness of each registry key.
    pub open spec fn wf(self) -> bool {
        &&& forall|i: int|
            0 <= i < self.migrations.len() ==> (#[trigger] self.migrations[i]).wf()
        &&& forall|i: int, j: int|
            #![trigger self.migrations[i], self.migrations[j]]
            0 <= i < j < self.migrations.len() ==> !(self.migrations[i].admin
                == self.migrations[j].admin && self.migrations[i].source_chain
                == self.migrations[j].source_chain)
        &&& forall|i: int|
            0 <= i < self.claims.len() ==> (#[trigger] self.claims[i]).migration_id
                < self.migrations.len() && self.claims[i].user.len() == 32
                && self.claims[i].is_claimed
        &&& forall|i: int, j: int|
            #![trigger self.claims[i], self.claims[j]]
            0 <= i < j < self.claims.len() ==> !(self.claims[i].migration_id
                == self.claims[j].migration_id && self.claims[i].user == self.claims[j].user)
        &&& forall|i: int|
            0 <= i < self.reserves.len() ==> (#[trigger] self.reserves[i]).migration_id
                < self.migrations.len() && self.reserves[i].dao_treasury.len() == 32
                && 1 <= self.reserves[i].lp_percentage <= 20
        &&& forall|i: int, j: int|
            #![trigger self.reserves[i], self.reserves[j]]
            0 <= i < j < self.reserves.len() ==> self.reserves[i].migration_id
                != self.reserves[j].migration_id
    }

    /// A migration record for this (admin, source chain) pair exists.
    pub open spec fn has_migration(self, admin: Seq<u8>, source_chain: u16) -> bool {
        exists|i: int|
            0 <= i < self.migrations.len() && (#[trigger] self.migrations[i]).admin == admin
                && self.migrations[i].source_chain == source_chain
    }

    /// The (migration, claimant) pair has already consumed its claim.
    pub open spec fn already_claimed(self, migration_id: usize, user: Seq<u8>) -> bool {
        exists|i: int|
            0 <= i < self.claims.len() && (#[trigger] self.claims[i]).migration_id
                == migration_id && self.claims[i].user == user
    }

    /// A liquidity reserve bound to this migration exists.
    pub open spec fn has_reserve(self, migration_id: usize) -> bool {
        exists|i: int|
            0 <= i < self.reserves.len() && (#[trigger] self.reserves[i]).migration_id
                == migration_id
    }

    /// Which error a claim returns, or None when it succeeds. The checks run
    /// in the engine's order: activity, amount, replay, proof.
    pub open spec fn claim_error(
        self,
        migration_id: usize,
        user: Seq<u8>,
        amount: u64,
        proof: Seq<Seq<u8>>,
        leaf_index: u32,
    ) -> Option<ErrorCode> {
        if !self.migrations[migration_id as int].is_active {
            Some(ErrorCode::MigrationNotActive)
        } else if amount == 0 {
            Some(ErrorCode::InvalidAmount)
        } else if self.already_claimed(migration_id, user) {
            Some(ErrorCode::AlreadyClaimed)
        } else if !proof_matches_root(
            user,
            amount,
            leaf_index,
            proof,
            self.migrations[migration_id as int].snapshot_root,
        ) {
            Some(ErrorCode::InvalidMerkleProof)
        } else {
            None
        }
    }

    /// The ledger after a successful claim: one consumed-claim record
    /// appended, nothing else touched.
    pub open spec fn after_claim(self, migration_id: usize, user: Seq<u8>, amount: u64)
        -> LedgerView {
        LedgerView {
            claims: self.claims.push(claim_record_of(migration_id, user, amount)),
            ..self
        }
    }

    /// The ledger after a successful finalize: the record's active flag
    /// cleared, every other field and record untouched.
    pub open spec fn after_finalize(self, migration_id: usize) -> LedgerView {
        LedgerView {
            migrations: self.migrations.update(
                migration_id as int,
                (MigrationView { is_active: false, ..self.migrations[migration_id as int] }),
            ),
            ..self
        }
    }

    /// Which error a contribution returns, or None when it succeeds. The
    /// checks run in the engine's order: amount, binding, overflow.
    pub open spec fn contribute_error(self, migration_id: usize, reserve_id: usize, amount: u64)
        -> Option<ErrorCode> {
        if amount == 0 {
            Some(ErrorCode::InvalidAmount)
        } else if self.reserves[reserve_id as int].migration_id != migration_id {
            Some(ErrorCode::InvalidOperation)
        } else if self.reserves[reserve_id as int].total_reserved + amount > u64::MAX {
            Some(ErrorCode::Overflow)
        } else {
            None
        }
    }

    /// The ledger after a successful contribution: exactly `amount` added to
    /// the reserve's running total, nothing else touched.
    pub open spec fn after_contribute(self, reserve_id: usize, amount: u64) -> LedgerView {
        LedgerView {
            reserves: self.reserves.update(
                reserve_id as int,
                (DaoLiquidityView {
                    total_reserved: (self.reserves[reserve_id as int].total_reserved + amount)
                        as u64,
                    ..self.reserves[reserve_id as int]
                }),
            ),
            ..self
        }
    }
}

/// Appending a migration record with a fresh (admin, source chain) key
/// preserves well-formedness.
proof fn lemma_wf_push_migration(l: LedgerView, m: MigrationView)
    requires
        l.wf(),
        m.wf(),
        !l.has_migration(m.admin, m.source_chain),
    ensures
        (LedgerView { migrations: l.migrations.push(m), ..l }).wf(),
{
    let l2 = LedgerView { migrations: l.migrations.push(m), ..l };
    assert forall|i: int| 0 <= i < l2.migrations.len() implies (
        #[trigger] l2.migrations[i]).wf() by {
        if i < l.migrations.len() {
            assert(l2.migrations[i] == l.migrations[i]);
        } else {
            assert(l2.migrations[i] == m);
        }
    }
    assert forall|i: int, j: int|
        #![trigger l2.migrations[i], l2.migrations[j]]
        0 <= i < j < l2.migrations.len() implies !(l2.migrations[i].admin
            == l2.migrations[j].admin && l2.migrations[i].source_chain
            == l2.migrations[j].source_chain) by {
        assert(l2.migrations[i] == l.migrations[i]);
        if j == l.migrations.len() {
            assert(l2.migrations[j] == m);
            if l.migrations[i].admin == m.admin && l.migrations[i].source_chain
                == m.source_chain {
                assert(l.has_migration(m.admin, m.source_chain));
            }
        } else {
            assert(l2.migrations[j] == l.migrations[j]);
        }
    }
    assert forall|i: int| 0 <= i < l2.claims.len() implies (
        #[trigger] l2.claims[i]).migration_id < l2.migrations.len()
        && l2.claims[i].user.len() == 32 && l2.claims[i].is_claimed by {
        assert(l.claims[i].migration_id < l.migrations.len());
    }
    assert forall|i: int| 0 <= i < l2.reserves.len() implies (
        #[trigger] l2.reserves[i]).migration_id < l2.migrations.len()
        && l2.reserves[i].dao_treasury.len() == 32
        && 1 <= l2.reserves[i].lp_percentage <= 20 by {
        assert(l.reserves[i].migration_id < l.migrations.len());
    }
}

/// Appending the consumed-claim record of a pair that had not yet claimed
/// preserves well-formedness.
proof fn lemma_wf_push_claim(l: LedgerView, c: UserClaimView)
    requires
        l.wf(),
        c.migration_id < l.migrations.len(),
        c.user.len() == 32,
        c.is_claimed,
        !l.already_claimed(c.migration_id, c.user),
    ensures
        (LedgerView { claims: l.claims.push(c), ..l }).wf(),
{
    let l2 = LedgerView { claims: l.claims.push(c), ..l };
    assert forall|i: int| 0 <= i < l2.claims.len() implies (
        #[trigger] l2.claims[i]).migration_id < l2.migrations.len()
        && l2.claims[i].user.len() == 32 && l2.claims[i].is_claimed by {
        if i < l.claims.len() {
            assert(l2.claims[i] == l.claims[i]);
        } else {
            assert(l2.claims[i] == c);
        }
    }
    assert forall|i: int, j: int|
        #![trigger l2.claims[i], l2.claims[j]]
        0 <= i < j < l2.claims.len() implies !(l2.claims[i].migration_id
            == l2.claims[j].migration_id && l2.claims[i].user == l2.claims[j].user) by {
        assert(l2.claims[i] == l.claims[i]);
        if j == l.claims.len() {
            assert(l2.claims[j] == c);
            if l.claims[i].migration_id == c.migration_id && l.claims[i].user == c.user {
                assert(l.already_claimed(c.migration_id, c.user));
            }
        } else {
            assert(l2.claims[j] == l.claims[j]);
        }
    }
}

/// Appending a reserve record bound to a migration that had none preserves
/// well-formedness.
proof fn lemma_wf_push_reserve(l: LedgerView, d: DaoLiquidityView)
    requires
        l.wf(),
        d.migration_id < l.migrations.len(),
        d.dao_treasury.len() == 32,
        1 <= d.lp_percentage <= 20,
        !l.has_reserve(d.migration_id),
    ensures
        (LedgerView { reserves: l.reserves.push(d), ..l }).wf(),
{
    let l2 = LedgerView { reserves: l.reserves.push(d), ..l };
    assert forall|i: int| 0 <= i < l2.reserves.len() implies (
        #[trigger] l2.reserves[i]).migration_id < l2.migrations.len()
        && l2.reserves[i].dao_treasury.len() == 32
        && 1 <= l2.reserves[i].lp_percentage <= 20 by {
        if i < l.reserves.len() {
            assert(l2.reserves[i] == l.reserves[i]);
        } else {
            assert(l2.reserves[i] == d);
        }
    }
    assert forall|i: int, j: int|
        #![trigger l2.reserves[i], l2.reserves[j]]
        0 <= i < j < l2.reserves.len() implies l2.reserves[i].migration_id
            != l2.reserves[j].migration_id by {
        assert(l2.reserves[i] == l.reserves[i]);
        if j == l.reserves.len() {
            assert(l2.reserves[j] == d);
            if l.reserves[i].migration_id == d.migration_id {
                assert(l.has_reserve(d.migration_id));
            }
        } else {
            assert(l2.reserves[j] == l.reserves[j]);
        }
    }
}

/// Clearing a migration's active flag preserves well-formedness.
proof fn lemma_wf_after_finalize(l: LedgerView, migration_id: usize)
    requires
        l.wf(),
        migration_id < l.migrations.len(),
    ensures
        l.after_finalize(migration_id).wf(),
{
    let l2 = l.after_finalize(migration_id);
    assert forall|i: int| 0 <= i < l2.migrations.len() implies (
        #[trigger] l2.migrations[i]).wf() by {
        if i != migration_id {
            assert(l2.migrations[i] == l.migrations[i]);
        }
    }
    assert forall|i: int, j: int|
        #![trigger l2.migrations[i], l2.migrations[j]]
        0 <= i < j < l2.migrations.len() implies !(l2.migrations[i].admin
            == l2.migrations[j].admin && l2.migrations[i].source_chain
            == l2.migrations[j].source_chain) by {
        assert(l2.migrations[i].admin == l.migrations[i].admin);
        assert(l2.migrations[i].source_chain == l.migrations[i].source_chain);
        assert(l2.migrations[j].admin == l.migrations[j].admin);
        assert(l2.migrations[j].source_chain == l.migrations[j].source_chain);
    }
    assert forall|i: int| 0 <= i < l2.claims.len() implies (
        #[trigger] l2.claims[i]).migration_id < l2.migrations.len()
        && l2.claims[i].user.len() == 32 && l2.claims[i].is_claimed by {
        assert(l.claims[i].migration_id < l.migrations.len());
    }
    assert forall|i: int| 0 <= i < l2.reserves.len() implies (
        #[trigger] l2.reserves[i]).migration_id < l2.migrations.len()
        && l2.reserves[i].dao_treasury.len() == 32
        && 1 <= l2.reserves[i].lp_percentage <= 20 by {
        assert(l.reserves[i].migration_id < l.migrations.len());
    }
}

/// Adding to a reserve's running total preserves well-formedness.
proof fn lemma_wf_after_contribute(l: LedgerView, reserve_id: usize, amount: u64)
    requires
        l.wf(),
        reserve_id < l.reserves.len(),
    ensures
        l.after_contribute(reserve_id, amount).wf(),
{
    let l2 = l.after_contribute(reserve_id, amount);
    assert forall|i: int| 0 <= i < l2.reserves.len() implies (
        #[trigger] l2.reserves[i]).migration_id < l2.migrations.len()
        && l2.reserves[i].dao_treasury.len() == 32
        && 1 <= l2.reserves[i].lp_percentage <= 20 by {
        if i != reserve_id {
            assert(l2.reserves[i] == l.reserves[i]);
        }
        assert(l.reserves[i].migration_id < l.migrations.len());
    }
    assert forall|i: int, j: int|
        #![trigger l2.reserves[i], l2.reserves[j]]
        0 <= i < j < l2.reserves.len() implies l2.reserves[i].migration_id
            != l2.reserves[j].migration_id by {
        assert(l2.reserves[i].migration_id == l.reserves[i].migration_id);
        assert(l2.reserves[j].migration_id == l.reserves[j].migration_id);
    }
}

impl MigrationLedger {
    /// Creates an empty ledger.
    pub fn new() -> (r: MigrationLedger)
        ensures
            r@.wf(),
            r@.migrations.len() == 0,
            r@.claims.len() == 0,
            r@.reserves.len() == 0,
    {
        MigrationLedger { migrations: Vec::new(), claims: Vec::new(), reserves: Vec::new() }
    }

    /// Looks a migration up by its (admin, source chain) key.
    fn find_migration(&self, admin: &Vec<u8>, source_chain: u16) -> (r: Option<usize>)
        ensures
            match r {
                Some(i) => i < self@.migrations.len()
                    && self@.migrations[i as int].admin == admin@
                    && self@.migrations[i as int].source_chain == source_chain,
                None => !self@.has_migration(admin@, source_chain),
            },
    {
        let mut i: usize = 0;
        while i < self.migrations.len()
            invariant
                i <= self.migrations@.len(),
                forall|j: int|
                    0 <= j < i ==> !((#[trigger] self@.migrations[j]).admin == admin@
                        && self@.migrations[j].source_chain == source_chain),
            decreases self.migrations@.len() - i,
        {
            let m = &self.migrations[i];
            proof {
                assert(self@.migrations[i as int] == self.migrations@[i as int]@);
            }
            if m.source_chain == source_chain && bytes_eq(&m.admin, admin) {
                return Some(i);
            }
            i += 1;
        }
        None
    }

    /// Looks the consumed-claim record of a (migration, claimant) pair up.
    fn find_claim(&self, migration_id: usize, user: &Vec<u8>) -> (r: Option<usize>)
        ensures
            match r {
                Some(i) => i < self@.claims.len()
                    && self@.claims[i as int].migration_id == migration_id
                    && self@.claims[i as int].user == user@,
                None => !self@.already_claimed(migration_id, user@),
            },
    {
        let mut i: usize = 0;
        while i < self.claims.len()
            invariant
                i <= self.claims@.len(),
                forall|j: int|
                    0 <= j < i ==> !((#[trigger] self@.claims[j]).migration_id == migration_id
                        && self@.claims[j].user == user@),
            decreases self.claims@.len() - i,
        {
            let c = &self.claims[i];
            proof {
                assert(self@.claims[i as int] == self.claims@[i as int]@);
            }
            if c.migration_id == migration_id && bytes_eq(&c.user, user) {
                return Some(i);
            }
            i += 1;
        }
        None
    }

    /// Looks the liquidity reserve bound to a migration up.
    fn find_reserve(&self, migration_id: usize) -> (r: Option<usize>)
        ensures
            match r {
                Some(i) => i < self@.reserves.len()
                    && self@.reserves[i as int].migration_id == migration_id,
                None => !self@.has_reserve(migration_id),
            },
    {
        let mut i: usize = 0;
        while i < self.reserves.len()
            invariant
                i <= self.reserves@.len(),
                forall|j: int|
                    0 <= j < i ==> (#[trigger] self@.reserves[j]).migration_id != migration_id,
            decreases self.reserves@.len() - i,
        {
            let d = &self.reserves[i];
            proof {
                assert(self@.reserves[i as int] == self.reserves@[i as int]@);
            }
            if d.migration_id == migration_id {
                return Some(i);
            }
            i += 1;
        }
        None
    }

    /// Registers a new migration record. Fails with `DuplicateMigration` iff
    /// a record for this (admin, source chain) pair already exists;
    /// otherwise appends the record, initially active with nothing migrated,
    /// and returns its ledger id.
    pub fn create_migration(
        &mut self,
        admin: &Vec<u8>,
        name: &Vec<u8>,
        source_chain: u16,
        source_address: &Vec<u8>,
        snapshot_root: &Vec<u8>,
        total_supply: u64,
    ) -> (r: Result<usize, ErrorCode>)
        requires
            old(self)@.wf(),
            admin@.len() == 32,
            name@.len() == 64,
            source_address@.len() == 32,
            snapshot_root@.len() == 32,
        ensures
            final(self)@.wf(),
            match r {
                Ok(migration_id) => {
                    &&& !old(self)@.has_migration(admin@, source_chain)
                    &&& migration_id == old(self)@.migrations.len()
                    &&& final(self)@.migrations == old(self)@.migrations.push(
                        new_migration_record(
                            admin@,
                            name@,
                            source_chain,
                            source_address@,
                            snapshot_root@,
                            total_supply,
                        ),
                    )
                    &&& final(self)@.claims == old(self)@.claims
                    &&& final(self)@.reserves == old(self)@.reserves
                },
                Err(e) => {
                    &&& e == ErrorCode::DuplicateMigration
                    &&& old(self)@.has_migration(admin@, source_chain)
                    &&& final(self)@ == old(self)@
                },
            },
    {
        match self.find_migration(admin, source_chain) {
            Some(i) => {
                proof {
                    assert(0 <= i < self@.migrations.len()
                        && self@.migrations[i as int].admin == admin@
                        && self@.migrations[i as int].source_chain == source_chain);
                }
                Err(ErrorCode::DuplicateMigration)
            },
            None => {
                let record = Migration {
                    name: clone_bytes(name),
                    admin: clone_bytes(admin),
                    source_chain: source_chain,
                    source_address: clone_bytes(source_address),
                    snapshot_root: clone_bytes(snapshot_root),
                    total_supply: total_supply,
                    migrated_amount: 0,
                    is_active: true,
                    authority_nonce: AUTHORITY_NONCE,
                };
                let migration_id = self.migrations.len();
                proof {
                    lemma_wf_push_migration(self@, record@);
                }
                self.migrations.push(record);
                proof {
                    assert(self@ =~= (LedgerView {
                        migrations: old(self)@.migrations.push(new_migration_record(
                            admin@,
                            name@,
                            source_chain,
                            source_address@,
                            snapshot_root@,
                            total_supply,
                        )),
                        ..old(self)@
                    }));
                }
                Ok(migration_id)
            },
        }
    }

    /// Processes a claim. Checks the migration's activity, the amount, claim
    /// replay, and the inclusion proof, in that order; only on success does
    /// it append the consumed-claim record and issue the delegated transfer
    /// request, for exactly the claimed amount, to the claimant, authorized
    /// by the migration's derived authority. On an error the ledger is
    /// exactly as it was.
    pub fn claim(
        &mut self,
        migration_id: usize,
        user: &Vec<u8>,
        amount: u64,
        merkle_proof: &Vec<Vec<u8>>,
        leaf_index: u32,
    ) -> (r: Result<TransferInstruction, ErrorCode>)
        requires
            old(self)@.wf(),
            migration_id < old(self)@.migrations.len(),
            user@.len() == 32,
            forall|i: int|
                0 <= i < merkle_proof@.len() ==> (#[trigger] merkle_proof@[i])@.len() == 32,
        ensures
            final(self)@.wf(),
            match r {
                Ok(ti) => {
                    &&& old(self)@.claim_error(
                        migration_id,
                        user@,
                        amount,
                        views_of(merkle_proof@),
                        leaf_index,
                    ) is None
                    &&& final(self)@ == old(self)@.after_claim(migration_id, user@, amount)
                    &&& ti@.amount == amount
                    &&& ti@.destination == user@
                    &&& ti@.authority == authority_of(
                        old(self)@.migrations[migration_id as int].admin,
                        old(self)@.migrations[migration_id as int].source_chain,
                        old(self)@.migrations[migration_id as int].authority_nonce,
                    )
                },
                Err(e) => {
                    &&& old(self)@.claim_error(
                        migration_id,
                        user@,
                        amount,
                        views_of(merkle_proof@),
                        leaf_index,
                    ) == Some(e)
                    &&& final(self)@ == old(self)@
                },
            },
    {
        proof {
            assert(self@.migrations[migration_id as int]
                == self.migrations@[migration_id as int]@);
            assert(self@.migrations[migration_id as int].wf());
        }
        if !self.migrations[migration_id].is_active {
            return Err(ErrorCode::MigrationNotActive);
        }
        if amount == 0 {
            return Err(ErrorCode::InvalidAmount);
        }
        match self.find_claim(migration_id, user) {
            Some(i) => {
                proof {
                    assert(0 <= i < self@.claims.len()
                        && self@.claims[i as int].migration_id == migration_id
                        && self@.claims[i as int].user == user@);
                }
                return Err(ErrorCode::AlreadyClaimed);
            },
            None => {},
        }
        let ok = verify(
            user,
            amount,
            leaf_index,
            merkle_proof,
            &self.migrations[migration_id].snapshot_root,
        );
        if !ok {
            return Err(ErrorCode::InvalidMerkleProof);
        }
        let authority = derive_authority(
            &self.migrations[migration_id].admin,
            self.migrations[migration_id].source_chain,
            self.migrations[migration_id].authority_nonce,
        );
        let destination = clone_bytes(user);
        let record = UserClaim {
            migration_id: migration_id,
            user: clone_bytes(user),
            is_claimed: true,
            amount: amount,
        };
        proof {
            lemma_wf_push_claim(self@, record@);
        }
        self.claims.push(record);
        proof {
            assert(self@ =~= old(self)@.after_claim(migration_id, user@, amount));
        }
        Ok(TransferInstruction {
            destination: destination,
            amount: amount,
            authority: authority,
        })
    }

    /// Deactivates a migration. Fails with `Unauthorized` iff the caller is
    /// not the record's admin; otherwise clears the active flag (reasserting
    /// it on a record already finalized) and touches nothing else.
    pub fn finalize_migration(&mut self, migration_id: usize, caller: &Vec<u8>) -> (r: Result<
        (),
        ErrorCode,
    >)
        requires
            old(self)@.wf(),
            migration_id < old(self)@.migrations.len(),
        ensures
            final(self)@.wf(),
            match r {
                Ok(_) => {
                    &&& caller@ == old(self)@.migrations[migration_id as int].admin
                    &&& final(self)@ == old(self)@.after_finalize(migration_id)
                },
                Err(e) => {
                    &&& e == ErrorCode::Unauthorized
                    &&& caller@ != old(self)@.migrations[migration_id as int].admin
                    &&& final(self)@ == old(self)@
                },
            },
    {
        proof {
            assert(self@.migrations[migration_id as int]
                == self.migrations@[migration_id as int]@);
        }
        let authorized = bytes_eq(&self.migrations[migration_id].admin, caller);
        if !authorized {
            return Err(ErrorCode::Unauthorized);
        }
        proof {
            lemma_wf_after_finalize(self@, migration_id);
        }
        let m = &mut self.migrations[migration_id];
        m.is_active = false;
        proof {
            assert(self@ =~= old(self)@.after_finalize(migration_id));
        }
        Ok(())
    }

    /// Creates the liquidity reserve bound to a migration. Fails with
    /// `InvalidOperation` iff the percentage lies outside [1, 20] or the
    /// migration already has a reserve; otherwise appends the empty reserve
    /// and returns its ledger id.
    pub fn initialize_dao_liquidity(
        &mut self,
        migration_id: usize,
        treasury: &Vec<u8>,
        lp_reserve_percentage: u8,
    ) -> (r: Result<usize, ErrorCode>)
        requires
            old(self)@.wf(),
            migration_id < old(self)@.migrations.len(),
            treasury@.len() == 32,
        ensures
            final(self)@.wf(),
            match r {
                Ok(reserve_id) => {
                    &&& 1 <= lp_reserve_percentage <= 20
                    &&& !old(self)@.has_reserve(migration_id)
                    &&& reserve_id == old(self)@.reserves.len()
                    &&& final(self)@.reserves == old(self)@.reserves.push(
                        new_reserve_record(migration_id, treasury@, lp_reserve_percentage),
                    )
                    &&& final(self)@.migrations == old(self)@.migrations
                    &&& final(self)@.claims == old(self)@.claims
                },
                Err(e) => {
                    &&& e == ErrorCode::InvalidOperation
                    &&& (lp_reserve_percentage == 0 || lp_reserve_percentage > 20
                        || old(self)@.has_reserve(migration_id))
                    &&& final(self)@ == old(self)@
                },
            },
    {
        if lp_reserve_percentage == 0 || lp_reserve_percentage > 20 {
            return Err(ErrorCode::InvalidOperation);
        }
        match self.find_reserve(migration_id) {
            Some(i) => {
                proof {
                    assert(0 <= i < self@.reserves.len()
                        && self@.reserves[i as int].migration_id == migration_id);
                }
                Err(ErrorCode::InvalidOperation)
            },
            None => {
                let record = DaoLiquidity {
                    migration_id: migration_id,
                    dao_treasury: clone_bytes(treasury),
                    lp_percentage: lp_reserve_percentage,
                    pool_initialized: false,
                    total_reserved: 0,
                };
                let reserve_id = self.reserves.len();
                proof {
                    lemma_wf_push_reserve(self@, record@);
                }
                self.reserves.push(record);
                proof {
                    assert(self@ =~= (LedgerView {
                        reserves: old(self)@.reserves.push(new_reserve_record(
                            migration_id,
                            treasury@,
                            lp_reserve_percentage,
                        )),
                        ..old(self)@
                    }));
                }
                Ok(reserve_id)
            },
        }
    }

    /// Contributes to a migration's liquidity reserve. Checks the amount,
    /// the reserve's binding to the migration, and 64-bit overflow of the
    /// running total, in that order; on success adds exactly `amount` to the
    /// total and issues the transfer request that moves the contribution to
    /// the DAO treasury, authorized by the contributor. On an error the
    /// ledger is exactly as it was.
    pub fn contribute_to_dao_lp(
        &mut self,
        migration_id: usize,
        reserve_id: usize,
        contributor: &Vec<u8>,
        amount: u64,
    ) -> (r: Result<TransferInstruction, ErrorCode>)
        requires
            old(self)@.wf(),
            migration_id < old(self)@.migrations.len(),
            reserve_id < old(self)@.reserves.len(),
            contributor@.len() == 32,
        ensures
            final(self)@.wf(),
            match r {
                Ok(ti) => {
                    &&& old(self)@.contribute_error(migration_id, reserve_id, amount) is None
                    &&& final(self)@ == old(self)@.after_contribute(reserve_id, amount)
                    &&& ti@.amount == amount
                    &&& ti@.destination == old(self)@.reserves[reserve_id as int].dao_treasury
                    &&& ti@.authority == contributor@
                },
                Err(e) => {
                    &&& old(self)@.contribute_error(migration_id, reserve_id, amount)
                        == Some(e)
                    &&& final(self)@ == old(self)@
                },
            },
    {
        proof {
            assert(self@.reserves[reserve_id as int] == self.reserves@[reserve_id as int]@);
        }
        if amount == 0 {
            return Err(ErrorCode::InvalidAmount);
        }
        if self.reserves[reserve_id].migration_id != migration_id {
            return Err(ErrorCode::InvalidOperation);
        }
        let current = self.reserves[reserve_id].total_reserved;
        if current > u64::MAX - amount {
            return Err(ErrorCode::Overflow);
        }
        let destination = clone_bytes(&self.reserves[reserve_id].dao_treasury);
        let authority = clone_bytes(contributor);
        proof {
            lemma_wf_after_contribute(self@, reserve_id, amount);
        }
        let d = &mut self.reserves[reserve_id];
        d.total_reserved = current + amount;
        proof {
            assert(self@ =~= old(self)@.after_contribute(reserve_id, amount));
        }
        Ok(TransferInstruction {
            destination: destination,
            amount: amount,
            authority: authority,
        })
    }
}

} // verus!
