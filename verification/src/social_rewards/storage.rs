//! Storage of social rewards: statistics, rewards by id, each user's reward
//! ids and the index of unclaimed rewards, with migration from the legacy
//! layout.

use vstd::prelude::*;
use crate::common::{Address, addr_key, spec_addr_key};
use crate::store::Store;

verus! {

/// Storage layout version this code writes.
pub const SOCIAL_STORAGE_VERSION: u32 = 2;

#[derive(Clone, Copy, Debug, PartialEq, Eq, Structural)]
pub struct OptimizedRewardStats {
    pub total_rewards: u64,
    pub total_amount: i128,
    pub total_claimed: i128,
    pub last_reward_id: u64,
}

#[derive(Debug)]
pub struct OptimizedReward {
    pub id: u64,
    pub user: Address,
    pub amount: i128,
    pub reward_type: String,
    pub reason: String,
    pub granted_by: Address,
    pub granted_at: u64,
    pub claimed: bool,
    pub claimed_at: u64,
}

pub struct OptimizedRewardView {
    pub id: u64,
    pub user: Address,
    pub amount: i128,
    pub reward_type: Seq<char>,
    pub reason: Seq<char>,
    pub granted_by: Address,
    pub granted_at: u64,
    pub claimed: bool,
    pub claimed_at: u64,
}

impl View for OptimizedReward {
    type V = OptimizedRewardView;

    open spec fn view(&self) -> OptimizedRewardView {
        OptimizedRewardView {
            id: self.id,
            user: self.user,
            amount: self.amount,
            reward_type: self.reward_type@,
            reason: self.reason@,
            granted_by: self.granted_by,
            granted_at: self.granted_at,
            claimed: self.claimed,
            claimed_at: self.claimed_at,
        }
    }
}

pub fn copy_reward(r: &OptimizedReward) -> (c: OptimizedReward)
    ensures
        c@ == r@,
{
    OptimizedReward {
        id: r.id,
        user: r.user,
        amount: r.amount,
        reward_type: r.reward_type.clone(),
        reason: r.reason.clone(),
        granted_by: r.granted_by,
        granted_at: r.granted_at,
        claimed: r.claimed,
        claimed_at: r.claimed_at,
    }
}

#[derive(Clone, Copy, Debug, PartialEq, Eq, Structural)]
pub enum SocialRewardsDataKey {
    Init,
    Admin,
    Token,
    Stats,
    Reward(u64),
    UserRewardIds(Address),
    UnclaimedIndex,
}

/// Contract storage of the social rewards contract, with the legacy values
/// it migrates from.
pub struct SocialEnv {
    pub initialized: bool,
    pub version: u32,
    pub admin: Option<Address>,
    pub token: Option<Address>,
    pub stats: Option<OptimizedRewardStats>,
    pub rewards: Store<OptimizedReward>,
    pub user_index: Store<Vec<u64>>,
    pub unclaimed: Vec<u64>,
    pub legacy_admin: Option<Address>,
    pub legacy_token: Option<Address>,
    pub legacy_stats: Option<OptimizedRewardStats>,
}

#[verifier::ext_equal]
pub struct SocialView {
    pub initialized: bool,
    pub version: u32,
    pub admin: Option<Address>,
    pub token: Option<Address>,
    pub stats: Option<OptimizedRewardStats>,
    pub rewards: Map<u128, OptimizedRewardView>,
    pub user_index: Map<u128, Seq<u64>>,
    pub unclaimed: Seq<u64>,
    pub legacy_admin: Option<Address>,
    pub legacy_token: Option<Address>,
    pub legacy_stats: Option<OptimizedRewardStats>,
}

impl View for SocialEnv {
    type V = SocialView;

    open spec fn view(&self) -> SocialView {
        SocialView {
            initialized: self.initialized,
            version: self.version,
            admin: self.admin,
            token: self.token,
            stats: self.stats,
            rewards: self.rewards@.map_values(|r: OptimizedReward| r@),
            user_index: self.user_index@.map_values(|v: Vec<u64>| v@),
            unclaimed: self.unclaimed@,
            legacy_admin: self.legacy_admin,
            legacy_token: self.legacy_token,
            legacy_stats: self.legacy_stats,
        }
    }
}

impl SocialEnv {
    pub open spec fn wf(&self) -> bool {
        &&& self.rewards.wf()
        &&& self.user_index.wf()
    }

    pub fn new() -> (e: Self)
        ensures
            e.wf(),
            e@ == (SocialView {
                initialized: false,
                version: 0,
                admin: None,
                token: None,
                stats: None,
                rewards: Map::empty(),
                user_index: Map::empty(),
                unclaimed: Seq::empty(),
                legacy_admin: None,
                legacy_token: None,
                legacy_stats: None,
            }),
    {
        let e = SocialEnv {
            initialized: false,
            version: 0,
            admin: None,
            token: None,
            stats: None,
            rewards: Store::new(),
            user_index: Store::new(),
            unclaimed: Vec::new(),
            legacy_admin: None,
            legacy_token: None,
            legacy_stats: None,
        };
        assert(e@ =~= SocialView {
            initialized: false,
            version: 0,
            admin: None,
            token: None,
            stats: None,
            rewards: Map::empty(),
            user_index: Map::empty(),
            unclaimed: Seq::empty(),
            legacy_admin: None,
            legacy_token: None,
            legacy_stats: None,
        });
        e
    }
}

pub open spec fn zero_stats() -> OptimizedRewardStats {
    OptimizedRewardStats { total_rewards: 0, total_amount: 0, total_claimed: 0, last_reward_id: 0 }
}

pub open spec fn spec_stats(v: SocialView) -> OptimizedRewardStats {
    match v.stats {
        Some(s) => s,
        None => zero_stats(),
    }
}

pub open spec fn user_ids(v: SocialView, user: Address) -> Seq<u64> {
    if v.user_index.contains_key(spec_addr_key(user)) {
        v.user_index[spec_addr_key(user)]
    } else {
        Seq::empty()
    }
}

/// The rewards `ids` name, skipping ids with none; only unclaimed ones when
/// `pending_only`.
pub open spec fn rewards_of(rewards: Map<u128, OptimizedRewardView>, ids: Seq<u64>, pending_only: bool) -> Seq<OptimizedRewardView>
    decreases ids.len(),
{
    if ids.len() == 0 {
        Seq::empty()
    } else {
        let rest = rewards_of(rewards, ids.drop_last(), pending_only);
        let k = ids.last() as u128;
        if rewards.contains_key(k) && !(pending_only && rewards[k].claimed) {
            rest.push(rewards[k])
        } else {
            rest
        }
    }
}

/// Sum of the amounts of the unclaimed rewards `ids` name.
pub open spec fn pending_total(rewards: Map<u128, OptimizedRewardView>, ids: Seq<u64>) -> int
    decreases ids.len(),
{
    if ids.len() == 0 {
        0
    } else {
        let k = ids.last() as u128;
        pending_total(rewards, ids.drop_last()) + if rewards.contains_key(k) && !rewards[k].claimed {
            rewards[k].amount as int
        } else {
            0
        }
    }
}

/// Every partial sum of the pending total fits in an `i128`.
pub open spec fn pending_total_ok(rewards: Map<u128, OptimizedRewardView>, ids: Seq<u64>) -> bool
    decreases ids.len(),
{
    if ids.len() == 0 {
        true
    } else {
        pending_total_ok(rewards, ids.drop_last()) && i128::MIN <= pending_total(rewards, ids) <= i128::MAX
    }
}

/// State after a reward is stored and indexed.
pub open spec fn spec_set_reward(v: SocialView, r: OptimizedRewardView) -> SocialView {
    SocialView {
        rewards: v.rewards.insert(r.id as u128, r),
        user_index: v.user_index.insert(spec_addr_key(r.user), user_ids(v, r.user).push(r.id)),
        unclaimed: if !r.claimed { v.unclaimed.push(r.id) } else { v.unclaimed },
        ..v
    }
}

/// State after a reward record is replaced.
pub open spec fn spec_update_reward(v: SocialView, r: OptimizedRewardView) -> SocialView {
    SocialView {
        rewards: v.rewards.insert(r.id as u128, r),
        unclaimed: if r.claimed { v.unclaimed.filter(|x: u64| x != r.id) } else { v.unclaimed },
        ..v
    }
}

pub open spec fn spec_set_all(v: SocialView, rs: Seq<OptimizedRewardView>) -> SocialView
    decreases rs.len(),
{
    if rs.len() == 0 {
        v
    } else {
        spec_set_reward(spec_set_all(v, rs.drop_last()), rs.last())
    }
}

pub open spec fn spec_update_all(v: SocialView, rs: Seq<OptimizedRewardView>) -> SocialView
    decreases rs.len(),
{
    if rs.len() == 0 {
        v
    } else {
        spec_update_reward(spec_update_all(v, rs.drop_last()), rs.last())
    }
}

pub open spec fn legacy_count(v: SocialView) -> u64 {
    ((if v.legacy_admin is Some { 1int } else { 0 }) + (if v.legacy_token is Some { 1int } else { 0 }) + (
    if v.legacy_stats is Some { 1int } else { 0 })) as u64
}

pub open spec fn spec_migrated(v: SocialView) -> SocialView {
    SocialView {
        admin: if v.legacy_admin is Some { v.legacy_admin } else { v.admin },
        token: if v.legacy_token is Some { v.legacy_token } else { v.token },
        stats: if v.legacy_stats is Some { v.legacy_stats } else { v.stats },
        ..v
    }
}

/// State after `migrate_storage`: an unversioned layout is stamped with the
/// current version, a version-1 layout also has its legacy records carried
/// over, and a current one is left alone.
pub open spec fn spec_migrate(v: SocialView) -> SocialView {
    if v.version == 0 {
        SocialView { version: SOCIAL_STORAGE_VERSION, ..v }
    } else if v.version == 1 {
        SocialView { version: SOCIAL_STORAGE_VERSION, ..spec_migrated(v) }
    } else {
        v
    }
}

fn copy_ids(v: &Vec<u64>) -> (r: Vec<u64>)
    ensures
        r@ == v@,
{
    let mut r: Vec<u64> = Vec::new();
    let mut i: usize = 0;
    while i < v.len()
        invariant
            0 <= i <= v@.len(),
            r@ == v@.subrange(0, i as int),
        decreases v@.len() - i,
    {
        r.push(v[i]);
        assert(v@.subrange(0, i + 1) =~= v@.subrange(0, i as int).push(v@[i as int]));
        i = i + 1;
    }
    assert(v@.subrange(0, v@.len() as int) =~= v@);
    r
}

pub struct SocialRewardsStorage;

impl SocialRewardsStorage {
    pub fn is_initialized(env: &SocialEnv) -> (b: bool)
        ensures
            b == env@.initialized,
    {
        env.initialized
    }

    /// Mark initialized with zero statistics.
    pub fn set_initialized(env: &mut SocialEnv)
        requires
            old(env).wf(),
        ensures
            final(env).wf(),
            final(env)@ == (SocialView { initialized: true, stats: Some(zero_stats()), ..old(env)@ }),
    {
        env.initialized = true;
        env.stats = Some(OptimizedRewardStats { total_rewards: 0, total_amount: 0, total_claimed: 0, last_reward_id: 0 });
    }

    pub fn get_version(env: &SocialEnv) -> (v: u32)
        ensures
            v == env@.version,
    {
        env.version
    }

    pub fn set_version(env: &mut SocialEnv, version: u32)
        requires
            old(env).wf(),
        ensures
            final(env).wf(),
            final(env)@ == (SocialView { version, ..old(env)@ }),
    {
        env.version = version;
    }

    pub fn set_admin(env: &mut SocialEnv, admin: Address)
        requires
            old(env).wf(),
        ensures
            final(env).wf(),
            final(env)@ == (SocialView { admin: Some(admin), ..old(env)@ }),
    {
        env.admin = Some(admin);
    }

    pub fn get_admin(env: &SocialEnv) -> (a: Option<Address>)
        ensures
            a == env@.admin,
    {
        env.admin
    }

    pub fn set_token(env: &mut SocialEnv, token: Address)
        requires
            old(env).wf(),
        ensures
            final(env).wf(),
            final(env)@ == (SocialView { token: Some(token), ..old(env)@ }),
    {
        env.token = Some(token);
    }

    pub fn get_token(env: &SocialEnv) -> (t: Option<Address>)
        ensures
            t == env@.token,
    {
        env.token
    }

    pub fn get_stats(env: &SocialEnv) -> (s: OptimizedRewardStats)
        ensures
            s == spec_stats(env@),
    {
        match env.stats {
            Some(s) => s,
            None => OptimizedRewardStats { total_rewards: 0, total_amount: 0, total_claimed: 0, last_reward_id: 0 },
        }
    }

    pub fn set_stats(env: &mut SocialEnv, stats: OptimizedRewardStats)
        requires
            old(env).wf(),
        ensures
            final(env).wf(),
            final(env)@ == (SocialView { stats: Some(stats), ..old(env)@ }),
    {
        env.stats = Some(stats);
    }

    /// Count a new reward of `amount`; returns its id.
    pub fn increment_reward_stats(env: &mut SocialEnv, amount: i128) -> (id: u64)
        requires
            old(env).wf(),
            spec_stats(old(env)@).last_reward_id < u64::MAX,
            spec_stats(old(env)@).total_rewards < u64::MAX,
            i128::MIN <= spec_stats(old(env)@).total_amount + amount <= i128::MAX,
        ensures
            final(env).wf(),
            ({
                let s = spec_stats(old(env)@);
                &&& id == s.last_reward_id + 1
                &&& final(env)@ == (SocialView {
                    stats: Some(OptimizedRewardStats {
                        last_reward_id: id,
                        total_rewards: (s.total_rewards + 1) as u64,
                        total_amount: (s.total_amount + amount) as i128,
                        ..s
                    }),
                    ..old(env)@
                })
            }),
    {
        let mut stats = Self::get_stats(env);
        stats.last_reward_id = stats.last_reward_id + 1;
        stats.total_rewards = stats.total_rewards + 1;
        stats.total_amount = stats.total_amount + amount;
        Self::set_stats(env, stats);
        stats.last_reward_id
    }

    /// Count a claim of `amount`.
    pub fn record_claim(env: &mut SocialEnv, amount: i128)
        requires
            old(env).wf(),
            i128::MIN <= spec_stats(old(env)@).total_claimed + amount <= i128::MAX,
        ensures
            final(env).wf(),
            final(env)@ == (SocialView {
                stats: Some(OptimizedRewardStats {
                    total_claimed: (spec_stats(old(env)@).total_claimed + amount) as i128,
                    ..spec_stats(old(env)@)
                }),
                ..old(env)@
            }),
    {
        let mut stats = Self::get_stats(env);
        stats.total_claimed = stats.total_claimed + amount;
        Self::set_stats(env, stats);
    }

    /// Store a reward and index it for its user (and as unclaimed).
    pub fn set_reward(env: &mut SocialEnv, reward: OptimizedReward)
        requires
            old(env).wf(),
        ensures
            final(env).wf(),
            final(env)@ == spec_set_reward(old(env)@, reward@),
    {
        let ghost v = env@;
        let ghost rv = reward@;
        let id = reward.id;
        let user = reward.user;
        let claimed = reward.claimed;
        env.rewards.set(id as u128, reward);
        assert(env@.rewards =~= v.rewards.insert(id as u128, rv));
        Self::add_reward_to_user_index(env, user, id);
        if !claimed {
            Self::add_to_unclaimed_index(env, id);
        }
        assert(env@ =~= spec_set_reward(v, rv));
    }

    pub fn get_reward(env: &SocialEnv, reward_id: u64) -> (r: Option<OptimizedReward>)
        requires
            env.wf(),
        ensures
            r is Some <==> env@.rewards.contains_key(reward_id as u128),
            r matches Some(x) ==> x@ == env@.rewards[reward_id as u128],
    {
        match env.rewards.get(reward_id as u128) {
            Some(r) => Some(copy_reward(r)),
            None => None,
        }
    }

    pub fn has_reward(env: &SocialEnv, reward_id: u64) -> (b: bool)
        requires
            env.wf(),
        ensures
            b == env@.rewards.contains_key(reward_id as u128),
    {
        env.rewards.contains(reward_id as u128)
    }

    /// Replace a reward record; a claimed one leaves the unclaimed index.
    pub fn update_reward(env: &mut SocialEnv, reward: OptimizedReward)
        requires
            old(env).wf(),
        ensures
            final(env).wf(),
            final(env)@ == spec_update_reward(old(env)@, reward@),
    {
        let ghost v = env@;
        let ghost rv = reward@;
        let id = reward.id;
        let claimed = reward.claimed;
        env.rewards.set(id as u128, reward);
        assert(env@.rewards =~= v.rewards.insert(id as u128, rv));
        if claimed {
            Self::remove_from_unclaimed_index(env, id);
        }
        assert(env@ =~= spec_update_reward(v, rv));
    }

    fn add_reward_to_user_index(env: &mut SocialEnv, user: Address, reward_id: u64)
        requires
            old(env).wf(),
        ensures
            final(env).wf(),
            final(env)@ == (SocialView {
                user_index: old(env)@.user_index.insert(spec_addr_key(user), user_ids(old(env)@, user).push(reward_id)),
                ..old(env)@
            }),
    {
        let mut ids = Self::get_user_reward_ids(env, user);
        ids.push(reward_id);
        let ghost iv = ids@;
        env.user_index.set(addr_key(user), ids);
        assert(env@.user_index =~= old(env)@.user_index.insert(spec_addr_key(user), iv));
        assert(env@ =~= SocialView { user_index: old(env)@.user_index.insert(spec_addr_key(user), iv), ..old(env)@ });
    }

    /// `user`'s reward ids, oldest first.
    pub fn get_user_reward_ids(env: &SocialEnv, user: Address) -> (r: Vec<u64>)
        requires
            env.wf(),
        ensures
            r@ == user_ids(env@, user),
    {
        match env.user_index.get(addr_key(user)) {
            Some(v) => copy_ids(v),
            None => Vec::new(),
        }
    }

    fn collect(env: &SocialEnv, user: Address, pending_only: bool) -> (r: Vec<OptimizedReward>)
        requires
            env.wf(),
        ensures
            r@.map_values(|x: OptimizedReward| x@) == rewards_of(env@.rewards, user_ids(env@, user), pending_only),
    {
        let ids = Self::get_user_reward_ids(env, user);
        let mut r: Vec<OptimizedReward> = Vec::new();
        let mut i: usize = 0;
        while i < ids.len()
            invariant
                env.wf(),
                0 <= i <= ids@.len(),
                r@.map_values(|x: OptimizedReward| x@) == rewards_of(env@.rewards, ids@.subrange(0, i as int), pending_only),
            decreases ids@.len() - i,
        {
            assert(ids@.subrange(0, i + 1).drop_last() =~= ids@.subrange(0, i as int));
            match Self::get_reward(env, ids[i]) {
                Some(x) => {
                    if !(pending_only && x.claimed) {
                        let ghost before = r@;
                        let ghost xv = x@;
                        r.push(x);
                        assert(r@.map_values(|x: OptimizedReward| x@) =~= before.map_values(|x: OptimizedReward| x@).push(xv));
                    }
                },
                None => {},
            }
            i = i + 1;
        }
        assert(ids@.subrange(0, ids@.len() as int) =~= ids@);
        r
    }

    /// `user`'s rewards, oldest first.
    pub fn get_user_rewards(env: &SocialEnv, user: Address) -> (r: Vec<OptimizedReward>)
        requires
            env.wf(),
        ensures
            r@.map_values(|x: OptimizedReward| x@) == rewards_of(env@.rewards, user_ids(env@, user), false),
    {
        Self::collect(env, user, false)
    }

    /// `user`'s unclaimed rewards, oldest first.
    pub fn get_user_pending_rewards(env: &SocialEnv, user: Address) -> (r: Vec<OptimizedReward>)
        requires
            env.wf(),
        ensures
            r@.map_values(|x: OptimizedReward| x@) == rewards_of(env@.rewards, user_ids(env@, user), true),
    {
        Self::collect(env, user, true)
    }

    /// Total of `user`'s unclaimed rewards.
    pub fn get_pending_rewards_total(env: &SocialEnv, user: Address) -> (total: i128)
        requires
            env.wf(),
            pending_total_ok(env@.rewards, user_ids(env@, user)),
        ensures
            total == pending_total(env@.rewards, user_ids(env@, user)),
    {
        let ids = Self::get_user_reward_ids(env, user);
        let mut total: i128 = 0;
        let mut i: usize = 0;
        while i < ids.len()
            invariant
                env.wf(),
                0 <= i <= ids@.len(),
                pending_total_ok(env@.rewards, ids@),
                total == pending_total(env@.rewards, ids@.subrange(0, i as int)),
            decreases ids@.len() - i,
        {
            assert(ids@.subrange(0, i + 1).drop_last() =~= ids@.subrange(0, i as int));
            proof {
                lemma_pending_ok_prefix(env@.rewards, ids@, i + 1);
                assert(ids@.take(i + 1) =~= ids@.subrange(0, i + 1));
            }
            match Self::get_reward(env, ids[i]) {
                Some(x) => {
                    if !x.claimed {
                        total = total + x.amount;
                    }
                },
                None => {},
            }
            i = i + 1;
        }
        assert(ids@.subrange(0, ids@.len() as int) =~= ids@);
        total
    }

    fn add_to_unclaimed_index(env: &mut SocialEnv, reward_id: u64)
        requires
            old(env).wf(),
        ensures
            final(env).wf(),
            final(env)@ == (SocialView { unclaimed: old(env)@.unclaimed.push(reward_id), ..old(env)@ }),
    {
        env.unclaimed.push(reward_id);
    }

    fn remove_from_unclaimed_index(env: &mut SocialEnv, reward_id: u64)
        requires
            old(env).wf(),
        ensures
            final(env).wf(),
            final(env)@ == (SocialView { unclaimed: old(env)@.unclaimed.filter(|x: u64| x != reward_id), ..old(env)@ }),
    {
        let mut kept: Vec<u64> = Vec::new();
        let mut i: usize = 0;
        while i < env.unclaimed.len()
            invariant
                0 <= i <= env.unclaimed@.len(),
                kept@ == env.unclaimed@.subrange(0, i as int).filter(|x: u64| x != reward_id),
            decreases env.unclaimed@.len() - i,
        {
            proof {
                reveal_with_fuel(Seq::<_>::filter, 1);
                assert(env.unclaimed@.subrange(0, i + 1).drop_last() =~= env.unclaimed@.subrange(0, i as int));
            }
            if env.unclaimed[i] != reward_id {
                kept.push(env.unclaimed[i]);
            }
            i = i + 1;
        }
        assert(env.unclaimed@.subrange(0, env.unclaimed@.len() as int) =~= env.unclaimed@);
        env.unclaimed = kept;
    }

    pub fn get_unclaimed_reward_ids(env: &SocialEnv) -> (r: Vec<u64>)
        ensures
            r@ == env@.unclaimed,
    {
        copy_ids(&env.unclaimed)
    }

    /// Store several rewards in turn.
    pub fn batch_set_rewards(env: &mut SocialEnv, rewards: &Vec<OptimizedReward>)
        requires
            old(env).wf(),
        ensures
            final(env).wf(),
            final(env)@ == spec_set_all(old(env)@, rewards@.map_values(|r: OptimizedReward| r@)),
    {
        let ghost v = env@;
        let ghost rvs = rewards@.map_values(|r: OptimizedReward| r@);
        let mut i: usize = 0;
        while i < rewards.len()
            invariant
                env.wf(),
                0 <= i <= rewards@.len(),
                rvs == rewards@.map_values(|r: OptimizedReward| r@),
                env@ == spec_set_all(v, rvs.take(i as int)),
            decreases rewards@.len() - i,
        {
            let x = copy_reward(&rewards[i]);
            proof {
                assert(rvs.take(i + 1).drop_last() =~= rvs.take(i as int));
                assert(rvs.take(i + 1).last() == x@);
            }
            Self::set_reward(env, x);
            i = i + 1;
        }
        assert(rvs.take(rvs.len() as int) =~= rvs);
    }

    /// Replace several rewards in turn.
    pub fn batch_update_rewards(env: &mut SocialEnv, rewards: &Vec<OptimizedReward>)
        requires
            old(env).wf(),
        ensures
            final(env).wf(),
            final(env)@ == spec_update_all(old(env)@, rewards@.map_values(|r: OptimizedReward| r@)),
    {
        let ghost v = env@;
        let ghost rvs = rewards@.map_values(|r: OptimizedReward| r@);
        let mut i: usize = 0;
        while i < rewards.len()
            invariant
                env.wf(),
                0 <= i <= rewards@.len(),
                rvs == rewards@.map_values(|r: OptimizedReward| r@),
                env@ == spec_update_all(v, rvs.take(i as int)),
            decreases rewards@.len() - i,
        {
            let x = copy_reward(&rewards[i]);
            proof {
                assert(rvs.take(i + 1).drop_last() =~= rvs.take(i as int));
                assert(rvs.take(i + 1).last() == x@);
            }
            Self::update_reward(env, x);
            i = i + 1;
        }
        assert(rvs.take(rvs.len() as int) =~= rvs);
    }

    pub fn needs_migration(env: &SocialEnv) -> (b: bool)
        ensures
            b == (env@.version < SOCIAL_STORAGE_VERSION),
    {
        env.version < SOCIAL_STORAGE_VERSION
    }

    /// Bring the layout to the current version; returns how many legacy
    /// records were carried over.
    pub fn migrate_storage(env: &mut SocialEnv) -> (n: u64)
        requires
            old(env).wf(),
        ensures
            final(env).wf(),
            n == (if old(env)@.version == 1 { legacy_count(old(env)@) } else { 0 }),
            final(env)@ == spec_migrate(old(env)@),
    {
        let current = Self::get_version(env);
        if current == 0 {
            Self::set_version(env, SOCIAL_STORAGE_VERSION);
            0
        } else if current == 1 {
            let migrated = Self::migrate_from_legacy(env);
            Self::set_version(env, SOCIAL_STORAGE_VERSION);
            migrated
        } else {
            0
        }
    }

    fn migrate_from_legacy(env: &mut SocialEnv) -> (n: u64)
        requires
            old(env).wf(),
        ensures
            final(env).wf(),
            n == legacy_count(old(env)@),
            final(env)@ == spec_migrated(old(env)@),
    {
        let mut migrated: u64 = 0;
        if let Some(admin) = env.legacy_admin {
            env.admin = Some(admin);
            migrated = migrated + 1;
        }
        if let Some(token) = env.legacy_token {
            env.token = Some(token);
            migrated = migrated + 1;
        }
        if let Some(stats) = env.legacy_stats {
            env.stats = Some(stats);
            migrated = migrated + 1;
        }
        assert(env@ =~= spec_migrated(old(env)@));
        migrated
    }

    pub fn has_legacy_data(env: &SocialEnv) -> (b: bool)
        ensures
            b == (env@.legacy_admin is Some || env@.legacy_token is Some || env@.legacy_stats is Some),
    {
        env.legacy_admin.is_some() || env.legacy_token.is_some() || env.legacy_stats.is_some()
    }

    /// Total rewards, unclaimed count and last reward id.
    pub fn get_storage_stats(env: &SocialEnv) -> (r: (u64, u64, u64))
        ensures
            r == (spec_stats(env@).total_rewards, env@.unclaimed.len() as u64, spec_stats(env@).last_reward_id),
    {
        let stats = Self::get_stats(env);
        let unclaimed = Self::get_unclaimed_reward_ids(env);
        (stats.total_rewards, unclaimed.len() as u64, stats.last_reward_id)
    }
}

pub proof fn lemma_pending_ok_prefix(rewards: Map<u128, OptimizedRewardView>, ids: Seq<u64>, i: int)
    requires
        0 <= i <= ids.len(),
        pending_total_ok(rewards, ids),
    ensures
        pending_total_ok(rewards, ids.take(i)),
        i128::MIN <= pending_total(rewards, ids.take(i)) <= i128::MAX,
    decreases ids.len(),
{
    if i == ids.len() {
        assert(ids.take(i) =~= ids);
        if ids.len() == 0 {
            assert(pending_total(rewards, ids) == 0);
        }
    } else {
        lemma_pending_ok_prefix(rewards, ids.drop_last(), i);
        assert(ids.drop_last().take(i) =~= ids.take(i));
    }
}

} // verus!
