//! Academy reward vesting: cliff-then-linear vesting grants, claims,
//! revocation with a timelock, batches, and the storage layout behind them.

pub mod storage;
pub mod vesting;
pub mod laws;
