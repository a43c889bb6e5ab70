//! The contract factory: a registry of versioned contract templates and of
//! the instances deployed from them.

pub mod types;
pub mod deployer;
pub mod registry;
pub mod contract;
pub mod laws;
