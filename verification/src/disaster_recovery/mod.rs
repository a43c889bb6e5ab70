//! Disaster recovery: multi-level pausing, circuit breakers, quorum-approved
//! recovery proposals and an alert log, all sharing one contract state.

pub mod errors;
pub mod env;
pub mod monitoring;
pub mod pause_control;
pub mod circuit_breaker;
pub mod recovery;
pub mod contract;
pub mod laws;
