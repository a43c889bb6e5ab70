//! Accessors of the distributor's storage.

use vstd::prelude::*;
use crate::common::{Address, pair_key};
use crate::reward_distributor::distributor::{
    DistEnv, DistView, DistributionBatch, DistributionRecord, DistributionRule, UserEligibility, copy_rule, elig_key,
};

verus! {

pub fn has_admin(env: &DistEnv) -> (b: bool)
    ensures
        b == env@.admin is Some,
{
    env.admin.is_some()
}

pub fn set_admin(env: &mut DistEnv, admin: Address)
    requires
        old(env).wf(),
    ensures
        final(env).wf(),
        final(env)@ == (DistView { admin: Some(admin), ..old(env)@ }),
{
    env.admin = Some(admin);
}

/// The admin; there must be one.
pub fn get_admin(env: &DistEnv) -> (a: Address)
    requires
        env@.admin is Some,
    ensures
        Some(a) == env@.admin,
{
    match env.admin {
        Some(a) => a,
        None => Address(0),
    }
}

pub fn set_next_rule_id(env: &mut DistEnv, rule_id: u32)
    requires
        old(env).wf(),
    ensures
        final(env).wf(),
        final(env)@ == (DistView { next_rule_id: rule_id, ..old(env)@ }),
{
    env.next_rule_id = rule_id;
}

pub fn get_next_rule_id(env: &DistEnv) -> (n: u32)
    ensures
        n == env@.next_rule_id,
{
    env.next_rule_id
}

pub fn set_next_distribution_id(env: &mut DistEnv, distribution_id: u64)
    requires
        old(env).wf(),
    ensures
        final(env).wf(),
        final(env)@ == (DistView { next_distribution_id: distribution_id, ..old(env)@ }),
{
    env.next_distribution_id = distribution_id;
}

pub fn get_next_distribution_id(env: &DistEnv) -> (n: u64)
    ensures
        n == env@.next_distribution_id,
{
    env.next_distribution_id
}

pub fn set_next_batch_id(env: &mut DistEnv, batch_id: u64)
    requires
        old(env).wf(),
    ensures
        final(env).wf(),
        final(env)@ == (DistView { next_batch_id: batch_id, ..old(env)@ }),
{
    env.next_batch_id = batch_id;
}

pub fn get_next_batch_id(env: &DistEnv) -> (n: u64)
    ensures
        n == env@.next_batch_id,
{
    env.next_batch_id
}

/// Store rule `rule_id` (a rule is kept under its own id, with a positive
/// reward).
pub fn set_distribution_rule(env: &mut DistEnv, rule_id: u32, rule: DistributionRule)
    requires
        old(env).wf(),
        rule.rule_id == rule_id,
        rule.reward_amount > 0,
    ensures
        final(env).wf(),
        final(env)@ == (DistView { rules: old(env)@.rules.insert(rule_id as u128, rule@), ..old(env)@ }),
{
    let ghost pre = env@;
    let ghost rv = rule@;
    env.rules.set(rule_id as u128, rule);
    assert(env@.rules =~= pre.rules.insert(rule_id as u128, rv));
    assert(env@ =~= DistView { rules: pre.rules.insert(rule_id as u128, rv), ..pre });
}

pub fn get_distribution_rule(env: &DistEnv, rule_id: u32) -> (r: Option<DistributionRule>)
    requires
        env.wf(),
    ensures
        r is Some <==> env@.rules.contains_key(rule_id as u128),
        r matches Some(x) ==> x@ == env@.rules[rule_id as u128],
{
    match env.rules.get(rule_id as u128) {
        Some(r) => Some(copy_rule(r)),
        None => None,
    }
}

/// Store the eligibility of `key.1` under rule `key.0` (kept under its own
/// rule and user).
pub fn set_user_eligibility(env: &mut DistEnv, key: (u32, Address), eligibility: UserEligibility)
    requires
        old(env).wf(),
        eligibility.rule_id == key.0,
        eligibility.user == key.1,
    ensures
        final(env).wf(),
        final(env)@ == (DistView {
            eligibility: old(env)@.eligibility.insert(elig_key(key.0, key.1), eligibility),
            eligibility_order: final(env)@.eligibility_order,
            ..old(env)@
        }),
        old(env)@.eligibility.contains_key(elig_key(key.0, key.1)) ==> final(env)@.eligibility_order
            == old(env)@.eligibility_order.update(old(env).eligibility.index_of(elig_key(key.0, key.1)), eligibility),
        !old(env)@.eligibility.contains_key(elig_key(key.0, key.1)) ==> final(env)@.eligibility_order
            == old(env)@.eligibility_order.push(eligibility),
{
    let ghost pre = *env;
    let k = pair_key(key.0 as u64, key.1);
    env.eligibility.set(k, eligibility);
    proof {
        if pre@.eligibility.contains_key(k) {
            assert(env@.eligibility_order =~= pre@.eligibility_order.update(pre.eligibility.index_of(k), eligibility));
        } else {
            assert(env@.eligibility_order =~= pre@.eligibility_order.push(eligibility));
        }
        assert(env@ =~= DistView {
            eligibility: pre@.eligibility.insert(k, eligibility),
            eligibility_order: env@.eligibility_order,
            ..pre@
        });
    }
}

pub fn get_user_eligibility(env: &DistEnv, key: (u32, Address)) -> (r: Option<UserEligibility>)
    requires
        env.wf(),
    ensures
        r is Some <==> env@.eligibility.contains_key(elig_key(key.0, key.1)),
        r matches Some(e) ==> e == env@.eligibility[elig_key(key.0, key.1)],
{
    match env.eligibility.get(pair_key(key.0 as u64, key.1)) {
        Some(e) => Some(*e),
        None => None,
    }
}

pub fn set_distribution_batch(env: &mut DistEnv, batch_id: u64, batch: DistributionBatch)
    requires
        old(env).wf(),
    ensures
        final(env).wf(),
        final(env)@ == (DistView { batches: old(env)@.batches.insert(batch_id as u128, batch), ..old(env)@ }),
{
    let ghost pre = env@;
    env.batches.set(batch_id as u128, batch);
    assert(env@ =~= DistView { batches: pre.batches.insert(batch_id as u128, batch), ..pre });
}

pub fn get_distribution_batch(env: &DistEnv, batch_id: u64) -> (r: Option<DistributionBatch>)
    requires
        env.wf(),
    ensures
        r == (if env@.batches.contains_key(batch_id as u128) { Some(env@.batches[batch_id as u128]) } else { None }),
{
    match env.batches.get(batch_id as u128) {
        Some(b) => Some(*b),
        None => None,
    }
}

pub fn set_distribution_record(env: &mut DistEnv, distribution_id: u64, record: DistributionRecord)
    requires
        old(env).wf(),
    ensures
        final(env).wf(),
        final(env)@ == (DistView { records: old(env)@.records.insert(distribution_id as u128, record), ..old(env)@ }),
{
    let ghost pre = env@;
    env.records.set(distribution_id as u128, record);
    assert(env@ =~= DistView { records: pre.records.insert(distribution_id as u128, record), ..pre });
}

pub fn get_distribution_record(env: &DistEnv, distribution_id: u64) -> (r: Option<DistributionRecord>)
    requires
        env.wf(),
    ensures
        r == (if env@.records.contains_key(distribution_id as u128) {
            Some(env@.records[distribution_id as u128])
        } else {
            None
        }),
{
    match env.records.get(distribution_id as u128) {
        Some(d) => Some(*d),
        None => None,
    }
}

} // verus!
