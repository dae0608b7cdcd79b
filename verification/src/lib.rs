//! In-memory data model and aggregation core of a blockchain indexer.
//!
//! The crate models the ledger entities of an indexed chain — blocks,
//! transactions, transfer amounts, addresses — together with the
//! incremental aggregation of per-address statistics, the halving-based
//! supply estimate, and the interchange records the entities travel in.
//! Coin quantities are held as signed 64-bit counts of the chain's
//! smallest unit, so every computation here is exact integer arithmetic.

pub mod address;
pub mod block;
pub mod blockchain;
pub mod clock;
pub mod json;
pub mod text;
pub mod transaction;

