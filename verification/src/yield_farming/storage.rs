//! Accessors of the farming contract's storage.

use vstd::prelude::*;
use crate::common::{Address, pair_key};
use crate::yield_farming::farming::{FarmEnv, FarmView, FarmingPool, FarmingPosition, position_key};

verus! {

pub fn has_admin(env: &FarmEnv) -> (b: bool)
    ensures
        b == env@.admin is Some,
{
    env.admin.is_some()
}

pub fn set_admin(env: &mut FarmEnv, admin: Address)
    requires
        old(env).wf(),
    ensures
        final(env).wf(),
        final(env)@ == (FarmView { admin: Some(admin), ..old(env)@ }),
{
    env.admin = Some(admin);
}

/// The admin; there must be one.
pub fn get_admin(env: &FarmEnv) -> (a: Address)
    requires
        env@.admin is Some,
    ensures
        Some(a) == env@.admin,
{
    match env.admin {
        Some(a) => a,
        None => Address(0),
    }
}

pub fn set_next_pool_id(env: &mut FarmEnv, pool_id: u32)
    requires
        old(env).wf(),
    ensures
        final(env).wf(),
        final(env)@ == (FarmView { next_pool_id: pool_id, ..old(env)@ }),
{
    env.next_pool_id = pool_id;
}

pub fn get_next_pool_id(env: &FarmEnv) -> (n: u32)
    ensures
        n == env@.next_pool_id,
{
    env.next_pool_id
}

pub fn set_farming_pool(env: &mut FarmEnv, pool_id: u32, pool: FarmingPool)
    requires
        old(env).wf(),
    ensures
        final(env).wf(),
        final(env)@ == (FarmView { pools: old(env)@.pools.insert(pool_id as u128, pool), ..old(env)@ }),
{
    let ghost pre = env@;
    env.pools.set(pool_id as u128, pool);
    assert(env@ =~= FarmView { pools: pre.pools.insert(pool_id as u128, pool), ..pre });
}

pub fn get_farming_pool(env: &FarmEnv, pool_id: u32) -> (r: Option<FarmingPool>)
    requires
        env.wf(),
    ensures
        r == (if env@.pools.contains_key(pool_id as u128) { Some(env@.pools[pool_id as u128]) } else { None }),
{
    match env.pools.get(pool_id as u128) {
        Some(p) => Some(*p),
        None => None,
    }
}

pub fn set_farming_position(env: &mut FarmEnv, key: (u32, Address), position: FarmingPosition)
    requires
        old(env).wf(),
    ensures
        final(env).wf(),
        final(env)@ == (FarmView {
            positions: old(env)@.positions.insert(position_key(key.0, key.1), position),
            ..old(env)@
        }),
{
    let ghost pre = env@;
    let k = pair_key(key.0 as u64, key.1);
    env.positions.set(k, position);
    assert(env@ =~= FarmView { positions: pre.positions.insert(k, position), ..pre });
}

pub fn get_farming_position(env: &FarmEnv, key: (u32, Address)) -> (r: Option<FarmingPosition>)
    requires
        env.wf(),
    ensures
        r == (if env@.positions.contains_key(position_key(key.0, key.1)) {
            Some(env@.positions[position_key(key.0, key.1)])
        } else {
            None
        }),
{
    match env.positions.get(pair_key(key.0 as u64, key.1)) {
        Some(p) => Some(*p),
        None => None,
    }
}

pub fn has_farming_position(env: &FarmEnv, key: (u32, Address)) -> (b: bool)
    requires
        env.wf(),
    ensures
        b == env@.positions.contains_key(position_key(key.0, key.1)),
{
    env.positions.contains(pair_key(key.0 as u64, key.1))
}

pub fn remove_farming_position(env: &mut FarmEnv, key: (u32, Address))
    requires
        old(env).wf(),
    ensures
        final(env).wf(),
        final(env)@ == (FarmView { positions: old(env)@.positions.remove(position_key(key.0, key.1)), ..old(env)@ }),
{
    let ghost pre = env@;
    let k = pair_key(key.0 as u64, key.1);
    env.positions.remove(k);
    assert(env@ =~= FarmView { positions: pre.positions.remove(k), ..pre });
}

} // verus!
