//! The record schemas of the ledger: migration records, consumed-claim
//! records, the DAO liquidity reserve, the governance stub, the error
//! taxonomy, and the one request the engine hands to the token subsystem.

use vstd::prelude::*;

verus! {

/// Every way a ledger operation can fail. Each error is terminal for the
/// triggering call and leaves every record exactly as it was.
#[derive(Clone, Copy, Debug, PartialEq, Eq, Structural)]
pub enum ErrorCode {
    /// A validation that fits no more specific kind failed: a reserve
    /// percentage outside [1, 20], a second reserve for one migration, or a
    /// contribution aimed at a reserve bound to another migration.
    InvalidOperation,
    /// A claim was attempted after finalization.
    MigrationNotActive,
    /// A zero amount was supplied.
    InvalidAmount,
    /// A claim replay for an already consumed (migration, claimant) pair.
    AlreadyClaimed,
    /// The recomputed root does not match the committed root.
    InvalidMerkleProof,
    /// Finalize was called by an identity other than the record's admin.
    Unauthorized,
    /// An accounting addition would exceed the 64-bit unsigned range.
    Overflow,
    /// A migration for this (admin, source chain) pair already exists.
    DuplicateMigration,
}

/// One source-chain snapshot eligible for claiming, as the admin registered
/// it.
#[derive(Debug)]
pub struct Migration {
    /// Fixed-length descriptive label, 64 bytes.
    pub name: Vec<u8>,
    /// The principal allowed to finalize the record, 32 bytes.
    pub admin: Vec<u8>,
    /// Identifier of the originating network.
    pub source_chain: u16,
    /// Address of the token contract on the originating network, 32 bytes.
    pub source_address: Vec<u8>,
    /// Merkle root committing to the snapshot, 32 bytes.
    pub snapshot_root: Vec<u8>,
    /// Total allocation committed.
    pub total_supply: u64,
    /// Running total actually claimed. Written at creation and reserved for
    /// future enforcement; claims do not yet add to it, so nothing caps
    /// total claims at `total_supply`.
    pub migrated_amount: u64,
    /// Claims are honored only while true; finalization clears it.
    pub is_active: bool,
    /// Disambiguation value fixing the derived authority identity.
    pub authority_nonce: u8,
}

/// The mathematical value of a `Migration`.
#[verifier::ext_equal]
pub struct MigrationView {
    pub name: Seq<u8>,
    pub admin: Seq<u8>,
    pub source_chain: u16,
    pub source_address: Seq<u8>,
    pub snapshot_root: Seq<u8>,
    pub total_supply: u64,
    pub migrated_amount: u64,
    pub is_active: bool,
    pub authority_nonce: u8,
}

impl View for Migration {
    type V = MigrationView;

    open spec fn view(&self) -> MigrationView {
        MigrationView {
            name: self.name@,
            admin: self.admin@,
            source_chain: self.source_chain,
            source_address: self.source_address@,
            snapshot_root: self.snapshot_root@,
            total_supply: self.total_supply,
            migrated_amount: self.migrated_amount,
            is_active: self.is_active,
            authority_nonce: self.authority_nonce,
        }
    }
}

impl MigrationView {
    /// The field widths the schema fixes.
    pub open spec fn wf(self) -> bool {
        &&& self.name.len() == 64
        &&& self.admin.len() == 32
        &&& self.source_address.len() == 32
        &&& self.snapshot_root.len() == 32
    }
}

/// One consumed claim: the ledger holds a record for a (migration,
/// claimant) pair only once that pair's claim has succeeded, and never
/// mutates it again.
#[derive(Debug)]
pub struct UserClaim {
    /// The migration the claim was made against, as its ledger id.
    pub migration_id: usize,
    /// The claimant identity, 32 bytes.
    pub user: Vec<u8>,
    /// Set exactly once, by the successful claim that created the record.
    pub is_claimed: bool,
    /// The amount that claim proved and received.
    pub amount: u64,
}

/// The mathematical value of a `UserClaim`.
#[verifier::ext_equal]
pub struct UserClaimView {
    pub migration_id: usize,
    pub user: Seq<u8>,
    pub is_claimed: bool,
    pub amount: u64,
}

impl View for UserClaim {
    type V = UserClaimView;

    open spec fn view(&self) -> UserClaimView {
        UserClaimView {
            migration_id: self.migration_id,
            user: self.user@,
            is_claimed: self.is_claimed,
            amount: self.amount,
        }
    }
}

/// The DAO-held liquidity reserve bound to one migration: accounting only,
/// never a gate on claim processing.
#[derive(Debug)]
pub struct DaoLiquidity {
    /// The migration the reserve is bound to, as its ledger id.
    pub migration_id: usize,
    /// The DAO treasury identity contributions are transferred to, 32 bytes.
    pub dao_treasury: Vec<u8>,
    /// Percentage reserve policy fixed at initialization, in [1, 20].
    pub lp_percentage: u8,
    /// Write-only flag; nothing sets or gates on it yet.
    pub pool_initialized: bool,
    /// Total contributed so far; never decreases.
    pub total_reserved: u64,
}

/// The mathematical value of a `DaoLiquidity`.
#[verifier::ext_equal]
pub struct DaoLiquidityView {
    pub migration_id: usize,
    pub dao_treasury: Seq<u8>,
    pub lp_percentage: u8,
    pub pool_initialized: bool,
    pub total_reserved: u64,
}

impl View for DaoLiquidity {
    type V = DaoLiquidityView;

    open spec fn view(&self) -> DaoLiquidityView {
        DaoLiquidityView {
            migration_id: self.migration_id,
            dao_treasury: self.dao_treasury@,
            lp_percentage: self.lp_percentage,
            pool_initialized: self.pool_initialized,
            total_reserved: self.total_reserved,
        }
    }
}

/// Governance bookkeeping attached to a migration. The engine keeps it at
/// the data level only; no operation reads or writes it.
#[derive(Debug)]
pub struct Governance {
    /// The migration the governance record is bound to, as its ledger id.
    pub migration_id: usize,
    /// Accumulated vote weight.
    pub total_votes: u64,
}

/// The one request the engine hands to the external token subsystem on a
/// success: move `amount` units from the operation's vault to `destination`,
/// authorized as `authority`.
#[derive(Debug)]
pub struct TransferInstruction {
    /// The identity the funds go to, 32 bytes.
    pub destination: Vec<u8>,
    /// How many units to move.
    pub amount: u64,
    /// The principal asserted as the transfer's authorizer, 32 bytes.
    pub authority: Vec<u8>,
}

/// The mathematical value of a `TransferInstruction`.
#[verifier::ext_equal]
pub struct TransferInstructionView {
    pub destination: Seq<u8>,
    pub amount: u64,
    pub authority: Seq<u8>,
}

impl View for TransferInstruction {
    type V = TransferInstructionView;

    open spec fn view(&self) -> TransferInstructionView {
        TransferInstructionView {
            destination: self.destination@,
            amount: self.amount,
            authority: self.authority@,
        }
    }
}

} // verus!
