//! A per-client transaction ledger: deposits, withdrawals and disputes
//! applied to accounts that are sharded by client.
pub mod engine;
