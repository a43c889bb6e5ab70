//! The admin guard of the token contract.

use vstd::prelude::*;
use crate::token::storage::TokenEnv;

verus! {

/// The contract must have an admin; the admin's authorization is checked by
/// the host.
pub fn require_admin(env: &TokenEnv)
    requires
        env@.admin is Some,
{
    let _admin = crate::token::storage::get_admin(env);
}

} // verus!
