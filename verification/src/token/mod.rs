//! A fungible token with admin minting, allowances, authorization flags and
//! a running total supply.

pub mod storage;
pub mod nft;
pub mod admin;
pub mod contract;
pub mod laws;
