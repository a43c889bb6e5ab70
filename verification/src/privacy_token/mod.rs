//! The privacy token: public balances that can be moved into and out of a
//! commitment pool.

pub mod contract;
