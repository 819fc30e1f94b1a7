//! Cross-chain token migration ledger.
//!
//! An administrator registers a snapshot of token balances taken on a source
//! network as a migration record holding a Merkle commitment root. Holders
//! later prove, with a Merkle inclusion proof, that they are entitled to a
//! specific balance, and receive that allocation on the destination network
//! exactly once. A deterministic authority derived from the migration's
//! identity authorizes the delegated transfer out of the pooled vault, and an
//! optional DAO liquidity reserve accumulates contributions under a bounded
//! percentage policy.

pub mod bytes;
pub mod hashing;
pub mod merkle;
pub mod authority;
pub mod records;
pub mod ledger;
pub mod laws;
