//! Verified core logic of the Stellara Soroban contracts: the cross-chain
//! bridge, disaster recovery, vesting, reward distribution, farming,
//! governance, factory registry, token ledgers and trading books.
//!
//! Each contract is modelled as a plain state value; ledger time, caller
//! identity and the balances held by other token contracts are passed in as
//! arguments, and the token movements a call decides are handed back.

pub mod bridge;

pub mod common;
pub mod store;
pub mod crypto;
pub mod disaster_recovery;
pub mod academy;
pub mod token;
pub mod reward_distributor;
pub mod trading;
pub mod governance;
pub mod privacy_trading;
pub mod yield_farming;
pub mod social_rewards;
pub mod contract_factory;
pub mod message_bridge;
pub mod identity;
pub mod privacy_token;
