//! Yield farming: LP tokens staked in pools with a lock period earn base
//! and multiplier-weighted bonus rewards per second.

pub mod farming;
pub mod storage;
