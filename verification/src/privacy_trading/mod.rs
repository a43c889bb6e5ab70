//! Private trading: orders carry commitments to their amounts and a
//! nullifier that can be used once; a matcher settles a buy against a sell.

pub mod contract;
