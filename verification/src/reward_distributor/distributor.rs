//! The reward distributor contract and its storage.

use vstd::prelude::*;
use crate::common::{Address, TokenTransfer, pair_key, spec_pair_key};
use crate::store::Store;

verus! {

#[derive(Clone, Copy, Debug, PartialEq, Eq, Structural)]
pub enum ConditionType {
    TimeBased,
    BalanceBased,
    ActivityBased,
    TierBased,
    Custom,
}

/// A reward rule: `reward_amount` of `reward_token` per distribution, at
/// most `max_distributions` times, between its start and optional end.
#[derive(Debug)]
pub struct DistributionRule {
    pub rule_id: u32,
    pub name: String,
    pub condition_type: ConditionType,
    pub reward_token: Address,
    pub reward_amount: i128,
    pub max_distributions: u32,
    pub current_distributions: u32,
    pub start_time: u64,
    pub end_time: Option<u64>,
    pub is_active: bool,
}

pub struct DistributionRuleView {
    pub rule_id: u32,
    pub name: Seq<char>,
    pub condition_type: ConditionType,
    pub reward_token: Address,
    pub reward_amount: i128,
    pub max_distributions: u32,
    pub current_distributions: u32,
    pub start_time: u64,
    pub end_time: Option<u64>,
    pub is_active: bool,
}

impl View for DistributionRule {
    type V = DistributionRuleView;

    open spec fn view(&self) -> DistributionRuleView {
        DistributionRuleView {
            rule_id: self.rule_id,
            name: self.name@,
            condition_type: self.condition_type,
            reward_token: self.reward_token,
            reward_amount: self.reward_amount,
            max_distributions: self.max_distributions,
            current_distributions: self.current_distributions,
            start_time: self.start_time,
            end_time: self.end_time,
            is_active: self.is_active,
        }
    }
}

pub fn copy_rule(r: &DistributionRule) -> (c: DistributionRule)
    ensures
        c@ == r@,
{
    DistributionRule {
        rule_id: r.rule_id,
        name: r.name.clone(),
        condition_type: r.condition_type,
        reward_token: r.reward_token,
        reward_amount: r.reward_amount,
        max_distributions: r.max_distributions,
        current_distributions: r.current_distributions,
        start_time: r.start_time,
        end_time: r.end_time,
        is_active: r.is_active,
    }
}

/// Whether `user` is eligible under `rule_id`, with a multiplier in basis
/// points.
#[derive(Clone, Copy, Debug, PartialEq, Eq, Structural)]
pub struct UserEligibility {
    pub user: Address,
    pub rule_id: u32,
    pub is_eligible: bool,
    pub last_check_time: u64,
    pub multiplier: u32,
}

#[derive(Clone, Copy, Debug, PartialEq, Eq, Structural)]
pub struct DistributionRecord {
    pub distribution_id: u64,
    pub rule_id: u32,
    pub recipient: Address,
    pub amount: i128,
    pub timestamp: u64,
}

#[derive(Clone, Copy, Debug, PartialEq, Eq, Structural)]
pub enum BatchStatus {
    Pending,
    Processing,
    Completed,
    Failed,
}

#[derive(Clone, Copy, Debug, PartialEq, Eq, Structural)]
pub struct DistributionBatch {
    pub batch_id: u64,
    pub rule_id: u32,
    pub total_recipients: u32,
    pub total_amount: i128,
    pub start_time: u64,
    pub end_time: u64,
    pub status: BatchStatus,
}

#[derive(Clone, Copy, Debug, PartialEq, Eq, Structural)]
pub enum DistributionError {
    NotInitialized,
    Unauthorized,
    InsufficientBalance,
    InvalidAmount,
    RuleNotFound,
    RuleNotActive,
    UserNotEligible,
    DistributionFailed,
    BatchNotFound,
    InvalidCondition,
    MaxDistributionsReached,
}

/// Contract storage and ledger of the distributor.
pub struct DistEnv {
    pub timestamp: u64,
    pub contract_address: Address,
    pub admin: Option<Address>,
    pub next_rule_id: u32,
    pub next_distribution_id: u64,
    pub next_batch_id: u64,
    pub rules: Store<DistributionRule>,
    /// Eligibilities by `(rule id, user)`, in the order first recorded.
    pub eligibility: Store<UserEligibility>,
    pub batches: Store<DistributionBatch>,
    pub records: Store<DistributionRecord>,
}

#[verifier::ext_equal]
pub struct DistView {
    pub timestamp: u64,
    pub contract_address: Address,
    pub admin: Option<Address>,
    pub next_rule_id: u32,
    pub next_distribution_id: u64,
    pub next_batch_id: u64,
    pub rules: Map<u128, DistributionRuleView>,
    pub eligibility: Map<u128, UserEligibility>,
    /// Eligibility records in storage order.
    pub eligibility_order: Seq<UserEligibility>,
    pub batches: Map<u128, DistributionBatch>,
    pub records: Map<u128, DistributionRecord>,
}

impl View for DistEnv {
    type V = DistView;

    open spec fn view(&self) -> DistView {
        DistView {
            timestamp: self.timestamp,
            contract_address: self.contract_address,
            admin: self.admin,
            next_rule_id: self.next_rule_id,
            next_distribution_id: self.next_distribution_id,
            next_batch_id: self.next_batch_id,
            rules: self.rules@.map_values(|r: DistributionRule| r@),
            eligibility: self.eligibility@,
            eligibility_order: self.eligibility.entries@.map_values(|e: (u128, UserEligibility)| e.1),
            batches: self.batches@,
            records: self.records@,
        }
    }
}

/// The eligibility record `update_eligibility` stores; the multiplier
/// defaults to 10000 (1x).
pub open spec fn spec_eligibility(
    user: Address,
    rule_id: u32,
    is_eligible: bool,
    now: u64,
    multiplier: Option<u32>,
) -> UserEligibility {
    UserEligibility {
        user,
        rule_id,
        is_eligible,
        last_check_time: now,
        multiplier: match multiplier {
            Some(m) => m,
            None => 10000,
        },
    }
}

/// Storage key of the eligibility of `user` under `rule_id`.
pub open spec fn elig_key(rule_id: u32, user: Address) -> u128 {
    spec_pair_key(rule_id as u64, user)
}

impl DistEnv {
    /// Stores are well formed, each rule sits under its id with a positive
    /// reward, and each eligibility sits under its own `(rule id, user)` key.
    pub open spec fn wf(&self) -> bool {
        &&& self.rules.wf()
        &&& self.eligibility.wf()
        &&& self.batches.wf()
        &&& self.records.wf()
        &&& forall|k: u128| #[trigger] self.rules@.contains_key(k) ==> self.rules@[k].rule_id as u128 == k
            && self.rules@[k].reward_amount > 0
        &&& forall|i: int| 0 <= i < self.eligibility.entries@.len() ==> (#[trigger] self.eligibility.entries@[i]).0
            == elig_key(self.eligibility.entries@[i].1.rule_id, self.eligibility.entries@[i].1.user)
    }

    pub fn new(contract_address: Address, timestamp: u64) -> (e: Self)
        ensures
            e.wf(),
            e@.admin is None,
            e@.rules == Map::<u128, DistributionRuleView>::empty(),
            e@.eligibility_order.len() == 0,
            e@.batches == Map::<u128, DistributionBatch>::empty(),
            e@.records == Map::<u128, DistributionRecord>::empty(),
            e@.timestamp == timestamp,
            e@.contract_address == contract_address,
            e@.next_rule_id == 0 && e@.next_distribution_id == 0 && e@.next_batch_id == 0,
    {
        let e = DistEnv {
            timestamp,
            contract_address,
            admin: None,
            next_rule_id: 0,
            next_distribution_id: 0,
            next_batch_id: 0,
            rules: Store::new(),
            eligibility: Store::new(),
            batches: Store::new(),
            records: Store::new(),
        };
        assert(e@.rules =~= Map::<u128, DistributionRuleView>::empty());
        e
    }
}

/// The admin must be set (its authorization is checked by the host).
pub fn require_admin(env: &DistEnv)
    requires
        env@.admin is Some,
{
}

/// Users eligible under `rule_id`, in storage order.
pub open spec fn spec_eligible_users(order: Seq<UserEligibility>, rule_id: u32) -> Seq<Address> {
    order.filter(|e: UserEligibility| e.rule_id == rule_id && e.is_eligible).map_values(|e: UserEligibility| e.user)
}

/// Reward of one eligible user: the rule's amount scaled by the multiplier
/// in basis points.
pub open spec fn spec_user_reward(reward_amount: i128, multiplier: u32) -> int {
    (reward_amount * multiplier) / 10000
}

/// Running state of a batch payout: records, next record id, remaining
/// balance, total paid, number paid, transfers made.
pub struct Payout {
    pub records: Map<u128, DistributionRecord>,
    pub next_id: u64,
    pub balance: i128,
    pub distributed: i128,
    pub count: u32,
    pub transfers: Seq<TokenTransfer>,
}

/// The payouts of a batch to `users`, in turn: each eligible user whose
/// reward the remaining balance covers is paid and recorded.
pub open spec fn spec_payout(v: DistView, rule: DistributionRuleView, users: Seq<Address>, balance: i128) -> Payout
    decreases users.len(),
{
    if users.len() == 0 {
        Payout {
            records: v.records,
            next_id: v.next_distribution_id,
            balance,
            distributed: 0,
            count: 0,
            transfers: Seq::empty(),
        }
    } else {
        let p = spec_payout(v, rule, users.drop_last(), balance);
        let u = users.last();
        let k = elig_key(rule.rule_id, u);
        let e = v.eligibility[k];
        let amount = spec_user_reward(rule.reward_amount, e.multiplier) as i128;
        if v.eligibility.contains_key(k) && e.is_eligible && p.balance >= amount {
            Payout {
                records: p.records.insert(p.next_id as u128, DistributionRecord {
                    distribution_id: p.next_id,
                    rule_id: rule.rule_id,
                    recipient: u,
                    amount,
                    timestamp: v.timestamp,
                }),
                next_id: (p.next_id + 1) as u64,
                balance: if u == v.contract_address { p.balance } else { (p.balance - amount) as i128 },
                distributed: (p.distributed + amount) as i128,
                count: (p.count + 1) as u32,
                transfers: p.transfers.push(TokenTransfer { token: rule.reward_token, from: v.contract_address, to: u, amount }),
            }
        } else {
            p
        }
    }
}

/// The arithmetic of a batch payout does not overflow.
pub open spec fn payout_ok(v: DistView, rule: DistributionRuleView, users: Seq<Address>, balance: i128) -> bool
    decreases users.len(),
{
    if users.len() == 0 {
        true
    } else {
        let p = spec_payout(v, rule, users.drop_last(), balance);
        let u = users.last();
        let k = elig_key(rule.rule_id, u);
        let e = v.eligibility[k];
        let prod = rule.reward_amount * e.multiplier;
        &&& payout_ok(v, rule, users.drop_last(), balance)
        &&& (v.eligibility.contains_key(k) && e.is_eligible) ==> {
            &&& i128::MIN <= prod <= i128::MAX
            &&& (p.balance >= spec_user_reward(rule.reward_amount, e.multiplier) ==> {
                &&& p.next_id < u64::MAX
                &&& i128::MIN <= p.distributed + spec_user_reward(rule.reward_amount, e.multiplier) <= i128::MAX
                &&& i128::MIN <= p.balance - spec_user_reward(rule.reward_amount, e.multiplier) <= i128::MAX
                &&& p.count < u32::MAX
            })
        }
    }
}

pub proof fn lemma_payout_prefix_ok(v: DistView, rule: DistributionRuleView, users: Seq<Address>, balance: i128, i: int)
    requires
        0 <= i <= users.len(),
        payout_ok(v, rule, users, balance),
    ensures
        payout_ok(v, rule, users.take(i), balance),
    decreases users.len(),
{
    if i == users.len() {
        assert(users.take(i) =~= users);
    } else {
        lemma_payout_prefix_ok(v, rule, users.drop_last(), balance, i);
        assert(users.drop_last().take(i) =~= users.take(i));
    }
}

pub struct RewardDistributor;

impl RewardDistributor {
    /// Set the admin and start all id counters at 1; a second call fails.
    pub fn initialize(env: &mut DistEnv, admin: Address) -> (r: Result<(), DistributionError>)
        requires
            old(env).wf(),
        ensures
            final(env).wf(),
            r == (if old(env)@.admin is Some { Err(DistributionError::NotInitialized) } else { Ok(()) }),
            r is Err ==> final(env)@ == old(env)@,
            r is Ok ==> final(env)@ == (DistView {
                admin: Some(admin),
                next_rule_id: 1,
                next_distribution_id: 1,
                next_batch_id: 1,
                ..old(env)@
            }),
    {
        if env.admin.is_some() {
            return Err(DistributionError::NotInitialized);
        }
        env.admin = Some(admin);
        env.next_rule_id = 1;
        env.next_distribution_id = 1;
        env.next_batch_id = 1;
        Ok(())
    }

    /// Define a rule (admin only); returns its id.
    pub fn create_rule(
        env: &mut DistEnv,
        admin: Address,
        name: String,
        condition_type: ConditionType,
        reward_token: Address,
        reward_amount: i128,
        max_distributions: u32,
        start_time: u64,
        end_time: Option<u64>,
    ) -> (r: Result<u32, DistributionError>)
        requires
            old(env).wf(),
            old(env)@.admin is Some,
            reward_amount > 0 && max_distributions > 0 ==> old(env)@.next_rule_id < u32::MAX,
        ensures
            final(env).wf(),
            r == (if reward_amount <= 0 || max_distributions == 0 {
                Err(DistributionError::InvalidAmount)
            } else {
                Ok(old(env)@.next_rule_id)
            }),
            r is Err ==> final(env)@ == old(env)@,
            r matches Ok(id) ==> final(env)@ == (DistView {
                rules: old(env)@.rules.insert(id as u128, DistributionRuleView {
                    rule_id: id,
                    name: name@,
                    condition_type,
                    reward_token,
                    reward_amount,
                    max_distributions,
                    current_distributions: 0,
                    start_time,
                    end_time,
                    is_active: true,
                }),
                next_rule_id: (id + 1) as u32,
                ..old(env)@
            }),
    {
        require_admin(env);
        if reward_amount <= 0 || max_distributions == 0 {
            return Err(DistributionError::InvalidAmount);
        }
        let rule_id = env.next_rule_id;
        let rule = DistributionRule {
            rule_id,
            name,
            condition_type,
            reward_token,
            reward_amount,
            max_distributions,
            current_distributions: 0,
            start_time,
            end_time,
            is_active: true,
        };
        let ghost rv = rule@;
        let ghost v = env@;
        env.rules.set(rule_id as u128, rule);
        env.next_rule_id = rule_id + 1;
        assert(env@.rules =~= v.rules.insert(rule_id as u128, rv));
        assert(env@ =~= DistView { rules: v.rules.insert(rule_id as u128, rv), next_rule_id: (rule_id + 1) as u32, ..v });
        Ok(rule_id)
    }

    /// Record whether `user` is eligible under an active rule, with a
    /// multiplier (default 10000, i.e. 1x).
    pub fn update_eligibility(
        env: &mut DistEnv,
        admin: Address,
        user: Address,
        rule_id: u32,
        is_eligible: bool,
        multiplier: Option<u32>,
    ) -> (r: Result<(), DistributionError>)
        requires
            old(env).wf(),
            old(env)@.admin is Some,
        ensures
            final(env).wf(),
            r == (if !old(env)@.rules.contains_key(rule_id as u128) {
                Err(DistributionError::RuleNotFound)
            } else if !old(env)@.rules[rule_id as u128].is_active {
                Err(DistributionError::RuleNotActive)
            } else {
                Ok(())
            }),
            r is Err ==> final(env)@ == old(env)@,
            r is Ok ==> final(env)@ == (DistView {
                eligibility: old(env)@.eligibility.insert(elig_key(rule_id, user), spec_eligibility(
                    user,
                    rule_id,
                    is_eligible,
                    old(env)@.timestamp,
                    multiplier,
                )),
                eligibility_order: final(env)@.eligibility_order,
                ..old(env)@
            }),
            r is Ok && old(env)@.eligibility.contains_key(elig_key(rule_id, user)) ==> final(env)@.eligibility_order
                == old(env)@.eligibility_order.update(
                old(env).eligibility.index_of(elig_key(rule_id, user)),
                spec_eligibility(user, rule_id, is_eligible, old(env)@.timestamp, multiplier),
            ),
            r is Ok && !old(env)@.eligibility.contains_key(elig_key(rule_id, user)) ==> final(env)@.eligibility_order
                == old(env)@.eligibility_order.push(
                spec_eligibility(user, rule_id, is_eligible, old(env)@.timestamp, multiplier),
            ),
    {
        require_admin(env);
        let active = match env.rules.get(rule_id as u128) {
            None => return Err(DistributionError::RuleNotFound),
            Some(rule) => rule.is_active,
        };
        if !active {
            return Err(DistributionError::RuleNotActive);
        }
        let e = UserEligibility {
            user,
            rule_id,
            is_eligible,
            last_check_time: env.timestamp,
            multiplier: match multiplier {
                Some(m) => m,
                None => 10000,
            },
        };
        let ghost pre = env.eligibility;
        let ghost pre_env = *env;
        let k = pair_key(rule_id as u64, user);
        env.eligibility.set(k, e);
        proof {
            if pre_env@.eligibility.contains_key(k) {
                assert(env@.eligibility_order =~= pre_env@.eligibility_order.update(pre_env.eligibility.index_of(k), e));
            } else {
                assert(env@.eligibility_order =~= pre_env@.eligibility_order.push(e));
            }
            assert(env@ =~= DistView {
                eligibility: pre_env@.eligibility.insert(k, e),
                eligibility_order: env@.eligibility_order,
                ..pre_env@
            });
            assert forall|i: int| 0 <= i < env.eligibility.entries@.len() implies (#[trigger] env.eligibility.entries@[i]).0
                == elig_key(env.eligibility.entries@[i].1.rule_id, env.eligibility.entries@[i].1.user) by {
                if i < pre.entries@.len() && pre.entries@[i].0 != k {
                    assert(env.eligibility.entries@[i] == pre.entries@[i]);
                }
            }
        }
        Ok(())
    }

    /// Create a pending batch paying `recipients` under an active, current
    /// rule with room for them (admin only); returns its id.
    pub fn create_batch(
        env: &mut DistEnv,
        admin: Address,
        rule_id: u32,
        recipients: Vec<Address>,
    ) -> (r: Result<u64, DistributionError>)
        requires
            old(env).wf(),
            old(env)@.admin is Some,
            recipients@.len() <= u32::MAX,
            old(env)@.rules.contains_key(rule_id as u128) ==> {
                let rule = old(env)@.rules[rule_id as u128];
                &&& rule.current_distributions + recipients@.len() <= u32::MAX
                &&& i128::MIN <= rule.reward_amount * recipients@.len() <= i128::MAX
                &&& old(env)@.next_batch_id < u64::MAX
            },
        ensures
            final(env).wf(),
            ({
                let v = old(env)@;
                let rule = v.rules[rule_id as u128];
                &&& r == (if !v.rules.contains_key(rule_id as u128) {
                    Err(DistributionError::RuleNotFound)
                } else if !rule.is_active || v.timestamp < rule.start_time || (rule.end_time matches Some(e)
                    && v.timestamp > e) {
                    Err(DistributionError::RuleNotActive)
                } else if rule.current_distributions + recipients@.len() > rule.max_distributions {
                    Err(DistributionError::MaxDistributionsReached)
                } else {
                    Ok(v.next_batch_id)
                })
                &&& r is Err ==> final(env)@ == v
                &&& r matches Ok(id) ==> final(env)@ == (DistView {
                    batches: v.batches.insert(id as u128, DistributionBatch {
                        batch_id: id,
                        rule_id,
                        total_recipients: recipients@.len() as u32,
                        total_amount: (rule.reward_amount * recipients@.len()) as i128,
                        start_time: v.timestamp,
                        end_time: 0,
                        status: BatchStatus::Pending,
                    }),
                    next_batch_id: (id + 1) as u64,
                    ..v
                })
            }),
    {
        require_admin(env);
        let (is_active, start_time, end_time, current, max, reward) = match env.rules.get(rule_id as u128) {
            None => return Err(DistributionError::RuleNotFound),
            Some(rule) => (
                rule.is_active,
                rule.start_time,
                rule.end_time,
                rule.current_distributions,
                rule.max_distributions,
                rule.reward_amount,
            ),
        };
        if !is_active {
            return Err(DistributionError::RuleNotActive);
        }
        let now = env.timestamp;
        if now < start_time {
            return Err(DistributionError::RuleNotActive);
        }
        if let Some(e) = end_time {
            if now > e {
                return Err(DistributionError::RuleNotActive);
            }
        }
        let n = recipients.len() as u32;
        if current + n > max {
            return Err(DistributionError::MaxDistributionsReached);
        }
        let batch_id = env.next_batch_id;
        let total_amount = reward * (n as i128);
        let batch = DistributionBatch {
            batch_id,
            rule_id,
            total_recipients: n,
            total_amount,
            start_time: now,
            end_time: 0,
            status: BatchStatus::Pending,
        };
        let ghost v = env@;
        env.batches.set(batch_id as u128, batch);
        env.next_batch_id = batch_id + 1;
        assert(env@ =~= DistView { batches: v.batches.insert(batch_id as u128, batch), next_batch_id: (batch_id + 1) as u64, ..v });
        Ok(batch_id)
    }

    /// Users eligible under `rule_id`, in storage order.
    fn get_eligible_users(env: &DistEnv, rule_id: u32) -> (r: Vec<Address>)
        ensures
            r@ == spec_eligible_users(env@.eligibility_order, rule_id),
    {
        let mut r: Vec<Address> = Vec::new();
        let mut i: usize = 0;
        let ghost order = env@.eligibility_order;
        while i < env.eligibility.entries.len()
            invariant
                0 <= i <= env.eligibility.entries@.len(),
                order == env@.eligibility_order,
                r@ == spec_eligible_users(order.subrange(0, i as int), rule_id),
            decreases env.eligibility.entries@.len() - i,
        {
            proof {
                reveal_with_fuel(Seq::<_>::filter, 1);
                assert(order.subrange(0, i + 1).drop_last() =~= order.subrange(0, i as int));
                assert(order.subrange(0, i + 1).last() == env.eligibility.entries@[i as int].1);
            }
            let e = env.eligibility.entries[i].1;
            let ghost prev = order.subrange(0, i as int).filter(|e: UserEligibility| e.rule_id == rule_id && e.is_eligible);
            if e.rule_id == rule_id && e.is_eligible {
                r.push(e.user);
                assert(prev.push(e).map_values(|e: UserEligibility| e.user) =~= prev.map_values(|e: UserEligibility| e.user).push(e.user));
            }
            i = i + 1;
        }
        assert(order.subrange(0, order.len() as int) =~= order);
        r
    }

    /// Pay a pending batch: every user eligible under its rule whose reward
    /// (rule amount times multiplier, in basis points) the contract's
    /// remaining `balance` covers is paid and recorded; then the rule's
    /// distribution count grows and the batch is completed (admin only).
    pub fn process_batch(
        env: &mut DistEnv,
        admin: Address,
        batch_id: u64,
        balance: i128,
        transfers: &mut Vec<TokenTransfer>,
    ) -> (r: Result<(), DistributionError>)
        requires
            old(env).wf(),
            old(env)@.admin is Some,
            ({
                let v = old(env)@;
                let b = v.batches[batch_id as u128];
                let rule = v.rules[b.rule_id as u128];
                let users = spec_eligible_users(v.eligibility_order, b.rule_id);
                (v.batches.contains_key(batch_id as u128) && b.status == BatchStatus::Pending && v.rules.contains_key(
                    b.rule_id as u128,
                )) ==> {
                    &&& payout_ok(v, rule, users, balance)
                    &&& rule.current_distributions + spec_payout(v, rule, users, balance).count <= u32::MAX
                }
            }),
        ensures
            final(env).wf(),
            ({
                let v = old(env)@;
                let b = v.batches[batch_id as u128];
                let rule = v.rules[b.rule_id as u128];
                let p = spec_payout(v, rule, spec_eligible_users(v.eligibility_order, b.rule_id), balance);
                &&& r == (if !v.batches.contains_key(batch_id as u128) {
                    Err(DistributionError::BatchNotFound)
                } else if b.status != BatchStatus::Pending {
                    Err(DistributionError::DistributionFailed)
                } else if !v.rules.contains_key(b.rule_id as u128) {
                    Err(DistributionError::RuleNotFound)
                } else {
                    Ok(())
                })
                &&& r is Err ==> final(env)@ == v && final(transfers)@ == old(transfers)@
                &&& r is Ok ==> final(env)@ == (DistView {
                    records: p.records,
                    next_distribution_id: p.next_id,
                    rules: v.rules.insert(
                        b.rule_id as u128,
                        DistributionRuleView { current_distributions: (rule.current_distributions + p.count) as u32, ..rule },
                    ),
                    batches: v.batches.insert(
                        batch_id as u128,
                        DistributionBatch { status: BatchStatus::Completed, end_time: v.timestamp, ..b },
                    ),
                    ..v
                }) && final(transfers)@ == old(transfers)@ + p.transfers
            }),
    {
        require_admin(env);
        let mut batch = match env.batches.get(batch_id as u128) {
            None => return Err(DistributionError::BatchNotFound),
            Some(b) => *b,
        };
        if batch.status != BatchStatus::Pending {
            return Err(DistributionError::DistributionFailed);
        }
        let rule = match env.rules.get(batch.rule_id as u128) {
            None => return Err(DistributionError::RuleNotFound),
            Some(r) => copy_rule(r),
        };
        let ghost v = env@;
        let ghost t0 = transfers@;
        let users = Self::get_eligible_users(env, batch.rule_id);
        let ghost us = users@;
        let mut bal: i128 = balance;
        let mut distributed: i128 = 0;
        let mut count: u32 = 0;
        let mut i: usize = 0;
        while i < users.len()
            invariant
                env.wf(),
                0 <= i <= users@.len(),
                users@ == us,
                payout_ok(v, rule@, us, balance),
                rule.rule_id == batch.rule_id,
                rule.reward_amount > 0,
                env@ == (DistView {
                    records: spec_payout(v, rule@, us.take(i as int), balance).records,
                    next_distribution_id: spec_payout(v, rule@, us.take(i as int), balance).next_id,
                    ..v
                }),
                bal == spec_payout(v, rule@, us.take(i as int), balance).balance,
                distributed == spec_payout(v, rule@, us.take(i as int), balance).distributed,
                count == spec_payout(v, rule@, us.take(i as int), balance).count,
                transfers@ == t0 + spec_payout(v, rule@, us.take(i as int), balance).transfers,
            decreases us.len() - i,
        {
            let user = users[i];
            proof {
                assert(us.take(i + 1).drop_last() =~= us.take(i as int));
                assert(us.take(i + 1).last() == user);
                lemma_payout_prefix_ok(v, rule@, us, balance, i + 1);
            }
            let ghost pre = env@;
            match env.eligibility.get(pair_key(rule.rule_id as u64, user)) {
                Some(e) => {
                    if e.is_eligible {
                        let amount = (rule.reward_amount * (e.multiplier as i128)) / 10000;
                        assert(amount == spec_user_reward(rule.reward_amount, e.multiplier) as i128);
                        if bal >= amount {
                            transfers.push(TokenTransfer { token: rule.reward_token, from: env.contract_address, to: user, amount });
                            let distribution_id = env.next_distribution_id;
                            let record = DistributionRecord {
                                distribution_id,
                                rule_id: batch.rule_id,
                                recipient: user,
                                amount,
                                timestamp: env.timestamp,
                            };
                            env.records.set(distribution_id as u128, record);
                            env.next_distribution_id = distribution_id + 1;
                            if user != env.contract_address {
                                bal = bal - amount;
                            }
                            distributed = distributed + amount;
                            count = count + 1;
                            assert(env@ =~= DistView {
                                records: spec_payout(v, rule@, us.take(i + 1), balance).records,
                                next_distribution_id: spec_payout(v, rule@, us.take(i + 1), balance).next_id,
                                ..v
                            });
                        }
                    }
                },
                None => {},
            }
            assert(transfers@ =~= t0 + spec_payout(v, rule@, us.take(i + 1), balance).transfers);
            i = i + 1;
        }
        assert(us.take(us.len() as int) =~= us);
        let mut updated = rule;
        updated.current_distributions = updated.current_distributions + count;
        let ghost uv = updated@;
        env.rules.set(batch.rule_id as u128, updated);
        batch.status = BatchStatus::Completed;
        batch.end_time = env.timestamp;
        env.batches.set(batch_id as u128, batch);
        assert(env@.rules =~= v.rules.insert(batch.rule_id as u128, uv));
        assert(env@ =~= DistView {
            records: spec_payout(v, rule@, us, balance).records,
            next_distribution_id: spec_payout(v, rule@, us, balance).next_id,
            rules: v.rules.insert(batch.rule_id as u128, uv),
            batches: v.batches.insert(batch_id as u128, batch),
            ..v
        });
        Ok(())
    }
}

/// The payouts of a manual distribution: each positive amount the remaining
/// balance covers is paid to its recipient and recorded.
pub open spec fn spec_manual(
    v: DistView,
    rule: DistributionRuleView,
    recipients: Seq<Address>,
    amounts: Seq<i128>,
    balance: i128,
) -> Payout
    decreases recipients.len(),
{
    if recipients.len() == 0 {
        Payout {
            records: v.records,
            next_id: v.next_distribution_id,
            balance,
            distributed: 0,
            count: 0,
            transfers: Seq::empty(),
        }
    } else {
        let n = recipients.len() - 1;
        let p = spec_manual(v, rule, recipients.drop_last(), amounts, balance);
        let u = recipients.last();
        let amount = amounts[n];
        if amount > 0 && p.balance >= amount {
            Payout {
                records: p.records.insert(p.next_id as u128, DistributionRecord {
                    distribution_id: p.next_id,
                    rule_id: rule.rule_id,
                    recipient: u,
                    amount,
                    timestamp: v.timestamp,
                }),
                next_id: (p.next_id + 1) as u64,
                balance: if u == v.contract_address { p.balance } else { (p.balance - amount) as i128 },
                distributed: p.distributed,
                count: p.count,
                transfers: p.transfers.push(TokenTransfer { token: rule.reward_token, from: v.contract_address, to: u, amount }),
            }
        } else {
            p
        }
    }
}

pub proof fn lemma_manual_frame(v: DistView, rule: DistributionRuleView, recipients: Seq<Address>, amounts: Seq<i128>, balance: i128)
    requires
        balance >= 0,
    ensures
        spec_manual(v, rule, recipients, amounts, balance).next_id <= v.next_distribution_id + recipients.len(),
        spec_manual(v, rule, recipients, amounts, balance).balance >= 0,
    decreases recipients.len(),
{
    if recipients.len() > 0 {
        lemma_manual_frame(v, rule, recipients.drop_last(), amounts, balance);
    }
}

impl RewardDistributor {
    /// Pay each recipient its amount under an active rule (admin only);
    /// positive amounts the contract's remaining `balance` covers are paid and
    /// recorded, the rest skipped.
    pub fn manual_distribute(
        env: &mut DistEnv,
        admin: Address,
        rule_id: u32,
        recipients: Vec<Address>,
        amounts: Vec<i128>,
        balance: i128,
        transfers: &mut Vec<TokenTransfer>,
    ) -> (r: Result<(), DistributionError>)
        requires
            old(env).wf(),
            old(env)@.admin is Some,
            balance >= 0,
            old(env)@.next_distribution_id + recipients@.len() <= u64::MAX,
        ensures
            final(env).wf(),
            ({
                let v = old(env)@;
                let rule = v.rules[rule_id as u128];
                let p = spec_manual(v, rule, recipients@, amounts@, balance);
                &&& r == (if recipients@.len() != amounts@.len() {
                    Err(DistributionError::InvalidAmount)
                } else if !v.rules.contains_key(rule_id as u128) {
                    Err(DistributionError::RuleNotFound)
                } else if !rule.is_active {
                    Err(DistributionError::RuleNotActive)
                } else {
                    Ok(())
                })
                &&& r is Err ==> final(env)@ == v && final(transfers)@ == old(transfers)@
                &&& r is Ok ==> final(env)@ == (DistView { records: p.records, next_distribution_id: p.next_id, ..v })
                    && final(transfers)@ == old(transfers)@ + p.transfers
            }),
    {
        require_admin(env);
        if recipients.len() != amounts.len() {
            return Err(DistributionError::InvalidAmount);
        }
        let rule = match env.rules.get(rule_id as u128) {
            None => return Err(DistributionError::RuleNotFound),
            Some(r) => copy_rule(r),
        };
        if !rule.is_active {
            return Err(DistributionError::RuleNotActive);
        }
        let ghost v = env@;
        let ghost t0 = transfers@;
        let mut bal: i128 = balance;
        let mut i: usize = 0;
        while i < recipients.len()
            invariant
                env.wf(),
                0 <= i <= recipients@.len(),
                recipients@.len() == amounts@.len(),
                balance >= 0,
                v.next_distribution_id + recipients@.len() <= u64::MAX,
                rule@ == v.rules[rule_id as u128],
                rule.rule_id == rule_id,
                env@ == (DistView {
                    records: spec_manual(v, rule@, recipients@.take(i as int), amounts@, balance).records,
                    next_distribution_id: spec_manual(v, rule@, recipients@.take(i as int), amounts@, balance).next_id,
                    ..v
                }),
                bal == spec_manual(v, rule@, recipients@.take(i as int), amounts@, balance).balance,
                transfers@ == t0 + spec_manual(v, rule@, recipients@.take(i as int), amounts@, balance).transfers,
            decreases recipients@.len() - i,
        {
            let user = recipients[i];
            let amount = amounts[i];
            proof {
                assert(recipients@.take(i + 1).drop_last() =~= recipients@.take(i as int));
                assert(recipients@.take(i + 1).last() == user);
                lemma_manual_frame(v, rule@, recipients@.take(i as int), amounts@, balance);
            }
            if amount > 0 && bal >= amount {
                transfers.push(TokenTransfer { token: rule.reward_token, from: env.contract_address, to: user, amount });
                let distribution_id = env.next_distribution_id;
                let record = DistributionRecord { distribution_id, rule_id, recipient: user, amount, timestamp: env.timestamp };
                env.records.set(distribution_id as u128, record);
                env.next_distribution_id = distribution_id + 1;
                if user != env.contract_address {
                    bal = bal - amount;
                }
                assert(env@ =~= DistView {
                    records: spec_manual(v, rule@, recipients@.take(i + 1), amounts@, balance).records,
                    next_distribution_id: spec_manual(v, rule@, recipients@.take(i + 1), amounts@, balance).next_id,
                    ..v
                });
            }
            assert(transfers@ =~= t0 + spec_manual(v, rule@, recipients@.take(i + 1), amounts@, balance).transfers);
            i = i + 1;
        }
        assert(recipients@.take(recipients@.len() as int) =~= recipients@);
        Ok(())
    }

    pub fn get_rule(env: &DistEnv, rule_id: u32) -> (r: Result<DistributionRule, DistributionError>)
        requires
            env.wf(),
        ensures
            match r {
                Ok(rule) => env@.rules.contains_key(rule_id as u128) && rule@ == env@.rules[rule_id as u128],
                Err(e) => !env@.rules.contains_key(rule_id as u128) && e == DistributionError::RuleNotFound,
            },
    {
        match env.rules.get(rule_id as u128) {
            Some(r) => Ok(copy_rule(r)),
            None => Err(DistributionError::RuleNotFound),
        }
    }

    pub fn get_eligibility(env: &DistEnv, user: Address, rule_id: u32) -> (r: Result<UserEligibility, DistributionError>)
        requires
            env.wf(),
        ensures
            r == (if env@.eligibility.contains_key(elig_key(rule_id, user)) {
                Ok(env@.eligibility[elig_key(rule_id, user)])
            } else {
                Err(DistributionError::UserNotEligible)
            }),
    {
        match env.eligibility.get(pair_key(rule_id as u64, user)) {
            Some(e) => Ok(*e),
            None => Err(DistributionError::UserNotEligible),
        }
    }

    pub fn get_batch(env: &DistEnv, batch_id: u64) -> (r: Result<DistributionBatch, DistributionError>)
        requires
            env.wf(),
        ensures
            r == (if env@.batches.contains_key(batch_id as u128) {
                Ok(env@.batches[batch_id as u128])
            } else {
                Err(DistributionError::BatchNotFound)
            }),
    {
        match env.batches.get(batch_id as u128) {
            Some(b) => Ok(*b),
            None => Err(DistributionError::BatchNotFound),
        }
    }

    pub fn get_distribution(env: &DistEnv, distribution_id: u64) -> (r: Result<DistributionRecord, DistributionError>)
        requires
            env.wf(),
        ensures
            r == (if env@.records.contains_key(distribution_id as u128) {
                Ok(env@.records[distribution_id as u128])
            } else {
                Err(DistributionError::DistributionFailed)
            }),
    {
        match env.records.get(distribution_id as u128) {
            Some(d) => Ok(*d),
            None => Err(DistributionError::DistributionFailed),
        }
    }
}

/// A batch payout never overdraws the contract: what it pays out plus what
/// is left is the balance it started with, and what is left is never
/// negative.
pub proof fn law_payout_within_balance(v: DistView, rule: DistributionRuleView, users: Seq<Address>, balance: i128)
    requires
        balance >= 0,
        rule.reward_amount > 0,
        !users.contains(v.contract_address),
        payout_ok(v, rule, users, balance),
    ensures
        spec_payout(v, rule, users, balance).balance >= 0,
        spec_payout(v, rule, users, balance).balance + spec_payout(v, rule, users, balance).distributed == balance,
    decreases users.len(),
{
    if users.len() > 0 {
        assert(!users.drop_last().contains(v.contract_address)) by {
            if users.drop_last().contains(v.contract_address) {
                let j = choose|j: int| 0 <= j < users.drop_last().len() && users.drop_last()[j] == v.contract_address;
                assert(users[j] == v.contract_address);
            }
        }
        law_payout_within_balance(v, rule, users.drop_last(), balance);
        assert(users[users.len() - 1] == users.last());
        let e = v.eligibility[elig_key(rule.rule_id, users.last())];
        assert(rule.reward_amount * e.multiplier >= 0) by (nonlinear_arith)
            requires
                rule.reward_amount > 0,
                e.multiplier >= 0,
        ;
    }
}

} // verus!
