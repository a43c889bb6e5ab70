//! Storage of the identity registry: decentralized identifiers, verifier
//! accounts and credentials kept by the hash of their claim.

pub mod types;
pub mod storage;
