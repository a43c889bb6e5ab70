//! Social rewards: granted rewards with per-user and unclaimed indexes and
//! running statistics.

pub mod contract;
pub mod laws;
pub mod storage;
