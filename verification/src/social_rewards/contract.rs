//! The social rewards contract entry point.

use vstd::prelude::*;
use crate::common::Address;

verus! {

pub struct SocialRewardsContract;

impl SocialRewardsContract {
    /// Accept a reward for `user`; the amount must be positive (the host
    /// aborts the call otherwise).
    pub fn add_reward(user: Address, amount: i128)
        requires
            amount > 0,
    {
    }
}

} // verus!
