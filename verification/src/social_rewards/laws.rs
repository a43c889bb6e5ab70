//! Properties of social-reward storage that span its operations.

use vstd::prelude::*;
use crate::social_rewards::storage::{
    OptimizedRewardView, SOCIAL_STORAGE_VERSION, SocialView, spec_migrate, spec_set_reward, spec_update_reward,
    user_ids,
};

verus! {

/// After a migration nothing is left to migrate, and migrating again changes
/// nothing.
pub proof fn law_migration_idempotent(v: SocialView)
    ensures
        !(spec_migrate(v).version < SOCIAL_STORAGE_VERSION),
        spec_migrate(spec_migrate(v)) == spec_migrate(v),
{
}

/// A stored reward reads back as written, is listed last among its user's
/// rewards, and is pending exactly when it was stored unclaimed.
pub proof fn law_reward_read_back(v: SocialView, r: OptimizedRewardView)
    ensures
        spec_set_reward(v, r).rewards.contains_key(r.id as u128),
        spec_set_reward(v, r).rewards[r.id as u128] == r,
        user_ids(spec_set_reward(v, r), r.user).last() == r.id,
        user_ids(spec_set_reward(v, r), r.user).drop_last() == user_ids(v, r.user),
        !r.claimed ==> spec_set_reward(v, r).unclaimed.contains(r.id),
        r.claimed ==> spec_set_reward(v, r).unclaimed == v.unclaimed,
{
    let w = spec_set_reward(v, r);
    assert(user_ids(w, r.user) == user_ids(v, r.user).push(r.id));
    assert(user_ids(v, r.user).push(r.id).drop_last() =~= user_ids(v, r.user));
    if !r.claimed {
        assert(w.unclaimed.last() == r.id);
        assert(w.unclaimed[w.unclaimed.len() - 1] == r.id);
    }
}

/// Once a reward is recorded as claimed it leaves the unclaimed index, and
/// the other pending rewards stay in it.
pub proof fn law_claimed_leaves_unclaimed(v: SocialView, r: OptimizedRewardView, other: u64)
    requires
        r.claimed,
        other != r.id,
    ensures
        !spec_update_reward(v, r).unclaimed.contains(r.id),
        v.unclaimed.contains(other) ==> spec_update_reward(v, r).unclaimed.contains(other),
        spec_update_reward(v, r).rewards[r.id as u128] == r,
{
    let w = spec_update_reward(v, r);
    let f = |x: u64| x != r.id;
    assert(w.unclaimed == v.unclaimed.filter(f));
    if w.unclaimed.contains(r.id) {
        let i = choose|i: int| 0 <= i < w.unclaimed.len() && w.unclaimed[i] == r.id;
        v.unclaimed.lemma_filter_pred(f, i);
    }
    if v.unclaimed.contains(other) {
        let j = choose|j: int| 0 <= j < v.unclaimed.len() && v.unclaimed[j] == other;
        v.unclaimed.lemma_filter_contains(f, j);
    }
}

} // verus!
