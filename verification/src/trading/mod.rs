//! Trading: trade records and statistics, pausing by admins, and the keyed
//! storage layout with per-trader and recent-trade indexes.

pub mod contract;
pub mod storage;
pub mod stats;
