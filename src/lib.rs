//! A single-node ledger: an append-only chain of blocks, each sealed by a
//! parallel proof-of-work search, with a self-adjusting difficulty and a
//! staging area for pending transfers.
//!
//! Amounts are counted in base units: one coin is `calculations::COIN` units.

pub mod calculations;
pub mod encoding;
pub mod transaction;
pub mod transaction_pool;
pub mod block;
pub mod hashing;
pub mod chain;
pub mod wallet;
