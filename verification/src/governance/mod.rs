//! Token-weighted governance: proposals, delegated voting, quorum and
//! threshold, a timelock and a grace period for execution.

pub mod contract;
