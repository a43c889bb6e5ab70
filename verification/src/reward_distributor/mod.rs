//! Rule-based reward distribution: admins define rules, mark users eligible
//! with a multiplier, and pay eligible users in batches or by hand.

pub mod distributor;
pub mod storage;
