//! Decoding and correlation of ledger transactions for a fixed set of
//! programs: a token program, a stake-pool program and a vault program.
pub mod account;
pub mod wire;
pub mod instruction;
pub mod token_2022;
pub mod stake_pool;
pub mod vault;
pub mod parser;
pub mod notify;
pub mod laws;
