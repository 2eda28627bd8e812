//! Verified models of a handful of small Solana programs: counters, a
//! calculator, a favourites record, a lamport vault and a voting program.
//!
//! Each program is written here as pure decisions over plain values: the
//! bytes held by accounts, the flags the runtime reports for them, and the
//! instruction data. Reading accounts, asking the runtime for sysvars or
//! program addresses and invoking other programs is left to the caller, which
//! hands the results in and performs the actions handed back.
pub mod account;
pub mod codec;
pub mod counter;
pub mod counter_mollusk;
pub mod pinocchio_counter;
pub mod anchor_counter;
pub mod vault;
pub mod calculator;
pub mod favorites;
pub mod voting;
