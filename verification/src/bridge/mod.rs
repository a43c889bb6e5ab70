//! Lock-and-mint bridge between Stellar and external chains.

pub mod types;
pub mod storage;
pub mod security;
pub mod contract;
pub mod laws;
