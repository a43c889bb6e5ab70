//! The message bridge: validators co-sign messages from other chains, which
//! mint wrapped assets here; outbound transfers burn them; validators govern
//! the validator set by proposals.

pub mod types;
pub mod verification;
pub mod assets;
pub mod governance;
pub mod contract;
pub mod laws;
