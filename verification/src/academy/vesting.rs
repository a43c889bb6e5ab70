//! The vesting contract: nothing vests before the cliff, then the amount
//! vests linearly over the rest of the duration; a grant is claimed once,
//! for what has vested by then.

use vstd::prelude::*;
use crate::common::{Address, TokenTransfer, spec_addr_key};
use crate::bridge::security::twos_complement_128;
use crate::bridge::contract::to_u128;
use crate::academy::storage::{
    AcademyEnv, AcademyStorage, AcademyView, schedule_key, user_ids, without_id, schedules_of, legacy_count,
    spec_migrated, CONTRACT_VERSION,
};

verus! {

/// A grant: `amount` vests from `start_time`, nothing before `cliff`
/// seconds, all of it after `duration` seconds.
#[derive(Clone, Copy, Debug, PartialEq, Eq, Structural)]
pub struct VestingSchedule {
    pub beneficiary: Address,
    pub amount: i128,
    pub start_time: u64,
    pub cliff: u64,
    pub duration: u64,
    pub claimed: bool,
    pub revoked: bool,
    pub revoke_time: u64,
}

#[derive(Clone, Copy, Debug, PartialEq, Eq, Structural)]
pub struct BatchVestingRequest {
    pub beneficiary: Address,
    pub amount: i128,
    pub start_time: u64,
    pub cliff: u64,
    pub duration: u64,
}

#[derive(Clone, Copy, Debug, PartialEq, Eq, Structural)]
pub struct BatchVestingResult {
    pub grant_id: Option<u64>,
    pub success: bool,
    pub error_code: Option<u32>,
}

#[derive(Clone, Copy, Debug, PartialEq, Eq, Structural)]
pub struct BatchClaimRequest {
    pub grant_id: u64,
    pub beneficiary: Address,
}

#[derive(Clone, Copy, Debug, PartialEq, Eq, Structural)]
pub struct BatchClaimResult {
    pub grant_id: u64,
    pub amount_claimed: Option<i128>,
    pub success: bool,
    pub error_code: Option<u32>,
}

/// Outcome of a batch of grants: the ids granted, one result per request
/// (failures and successes alike), the total granted.
#[derive(Debug)]
pub struct BatchVestingOperation {
    pub successful_grants: Vec<u64>,
    pub failed_grants: Vec<BatchVestingResult>,
    pub total_amount_granted: i128,
    pub gas_saved: i128,
}

#[derive(Clone, Copy, Debug, PartialEq, Eq, Structural)]
pub struct GrantEvent {
    pub grant_id: u64,
    pub beneficiary: Address,
    pub amount: i128,
    pub start_time: u64,
    pub cliff: u64,
    pub duration: u64,
    pub granted_at: u64,
    pub granted_by: Address,
}

#[derive(Clone, Copy, Debug, PartialEq, Eq, Structural)]
pub struct ClaimEvent {
    pub grant_id: u64,
    pub beneficiary: Address,
    pub amount: i128,
    pub claimed_at: u64,
}

#[derive(Clone, Copy, Debug, PartialEq, Eq, Structural)]
pub struct RevokeEvent {
    pub grant_id: u64,
    pub beneficiary: Address,
    pub revoked_at: u64,
    pub revoked_by: Address,
}

#[derive(Clone, Copy, Debug, PartialEq, Eq, Structural)]
pub enum VestingError {
    Unauthorized,
    NotVested,
    AlreadyClaimed,
    InvalidSchedule,
    InsufficientBalance,
    GrantNotFound,
    Revoked,
    InvalidTimelock,
    NotEnoughTimeForRevoke,
    BatchSizeExceeded,
    BatchOperationFailed,
}

pub open spec fn spec_vesting_error_code(e: VestingError) -> u32 {
    match e {
        VestingError::Unauthorized => 4001,
        VestingError::NotVested => 4002,
        VestingError::AlreadyClaimed => 4003,
        VestingError::InvalidSchedule => 4004,
        VestingError::InsufficientBalance => 4005,
        VestingError::GrantNotFound => 4006,
        VestingError::Revoked => 4007,
        VestingError::InvalidTimelock => 4008,
        VestingError::NotEnoughTimeForRevoke => 4009,
        VestingError::BatchSizeExceeded => 4010,
        VestingError::BatchOperationFailed => 4011,
    }
}

impl VestingError {
    /// The contract error number.
    pub fn code(&self) -> (c: u32)
        ensures
            c == spec_vesting_error_code(*self),
    {
        match self {
            VestingError::Unauthorized => 4001,
            VestingError::NotVested => 4002,
            VestingError::AlreadyClaimed => 4003,
            VestingError::InvalidSchedule => 4004,
            VestingError::InsufficientBalance => 4005,
            VestingError::GrantNotFound => 4006,
            VestingError::Revoked => 4007,
            VestingError::InvalidTimelock => 4008,
            VestingError::NotEnoughTimeForRevoke => 4009,
            VestingError::BatchSizeExceeded => 4010,
            VestingError::BatchOperationFailed => 4011,
        }
    }
}

/// A performance condition that unlocks part of a grant.
#[derive(Clone, Copy, Debug, PartialEq, Eq, Structural)]
pub struct PerformanceTrigger {
    pub trigger_id: u32,
    pub unlock_bps: u32,
    pub condition_type: ConditionType,
    pub threshold: i128,
    pub is_met: bool,
    pub met_at: u64,
}

#[derive(Clone, Copy, Debug, PartialEq, Eq, Structural)]
pub enum ConditionType {
    CourseCompletions,
    MinStakeAmount,
    GovernanceParticipations,
    CustomOracle,
}

/// A grant with performance triggers.
#[derive(Debug)]
pub struct VestingScheduleV2 {
    pub base: VestingSchedule,
    pub performance_triggers: Vec<PerformanceTrigger>,
    pub transfer_restricted: bool,
    pub schedule_version: u32,
}

pub struct VestingScheduleV2View {
    pub base: VestingSchedule,
    pub performance_triggers: Seq<PerformanceTrigger>,
    pub transfer_restricted: bool,
    pub schedule_version: u32,
}

impl View for VestingScheduleV2 {
    type V = VestingScheduleV2View;

    open spec fn view(&self) -> VestingScheduleV2View {
        VestingScheduleV2View {
            base: self.base,
            performance_triggers: self.performance_triggers@,
            transfer_restricted: self.transfer_restricted,
            schedule_version: self.schedule_version,
        }
    }
}

pub fn copy_v2(s: &VestingScheduleV2) -> (c: VestingScheduleV2)
    ensures
        c@ == s@,
{
    let mut t: Vec<PerformanceTrigger> = Vec::new();
    let mut i: usize = 0;
    while i < s.performance_triggers.len()
        invariant
            0 <= i <= s.performance_triggers@.len(),
            t@ == s.performance_triggers@.subrange(0, i as int),
        decreases s.performance_triggers@.len() - i,
    {
        t.push(s.performance_triggers[i]);
        assert(s.performance_triggers@.subrange(0, i + 1) =~= s.performance_triggers@.subrange(0, i as int).push(
            s.performance_triggers@[i as int],
        ));
        i = i + 1;
    }
    assert(s.performance_triggers@.subrange(0, s.performance_triggers@.len() as int) =~= s.performance_triggers@);
    VestingScheduleV2 {
        base: s.base,
        performance_triggers: t,
        transfer_restricted: s.transfer_restricted,
        schedule_version: s.schedule_version,
    }
}

/// A proposed change to a grant's schedule.
#[derive(Clone, Copy, Debug, PartialEq, Eq, Structural)]
pub struct ScheduleModification {
    pub grant_id: u64,
    pub new_cliff: Option<u64>,
    pub new_duration: Option<u64>,
    pub proposed_by: Address,
    pub proposal_id: u64,
}

/// Largest batch of grants.
pub const MAX_GRANT_BATCH: u32 = 25;
/// Largest batch of claims.
pub const MAX_CLAIM_BATCH: u32 = 20;
/// Shortest revocation timelock, in seconds.
pub const MIN_REVOKE_DELAY: u64 = 3600;

/// Amount of `s` vested at time `t`: nothing before the cliff, everything
/// after the duration, linear in between (rounded down).
pub open spec fn spec_vested(s: VestingSchedule, t: u64) -> i128 {
    if t < s.start_time {
        0
    } else if t < s.start_time + s.cliff {
        0
    } else if t >= s.start_time + s.duration {
        s.amount
    } else if s.duration - s.cliff == 0 {
        s.amount
    } else {
        (((twos_complement_128(s.amount as int) * (t - (s.start_time + s.cliff))) as int) / ((s.duration - s.cliff) as int)) as i128
    }
}

/// The computation of the vested amount does not overflow.
pub open spec fn vest_arith_ok(s: VestingSchedule, t: u64) -> bool {
    t >= s.start_time ==> {
        &&& s.start_time + s.cliff <= u64::MAX
        &&& t >= s.start_time + s.cliff ==> {
            &&& s.start_time + s.duration <= u64::MAX
            &&& t < s.start_time + s.duration ==> {
                &&& s.duration >= s.cliff
                &&& twos_complement_128(s.amount as int) * (t - (s.start_time + s.cliff)) <= u128::MAX
            }
        }
    }
}

pub open spec fn spec_admin_check(v: AcademyView, admin: Address) -> Result<(), VestingError> {
    match v.admin {
        Some(a) => if a == admin {
            Ok(())
        } else {
            Err(VestingError::Unauthorized)
        },
        None => Err(VestingError::Unauthorized),
    }
}

/// A grant the contract accepts.
pub open spec fn grant_valid(amount: i128, cliff: u64, duration: u64) -> bool {
    amount > 0 && cliff <= duration
}

/// State after a grant: the next id holds the schedule, indexed for the
/// beneficiary and as active.
pub open spec fn spec_granted(
    v: AcademyView,
    beneficiary: Address,
    amount: i128,
    start_time: u64,
    cliff: u64,
    duration: u64,
) -> AcademyView {
    let id = (v.counter + 1) as u64;
    AcademyView {
        counter: id,
        schedules: v.schedules.insert(schedule_key(id), VestingSchedule {
            beneficiary,
            amount,
            start_time,
            cliff,
            duration,
            claimed: false,
            revoked: false,
            revoke_time: 0,
        }),
        user_schedule_ids: v.user_schedule_ids.insert(spec_addr_key(beneficiary), user_ids(v, beneficiary).push(id)),
        active: v.active.push(id),
        ..v
    }
}

/// State after the requests of a batch are granted in turn.
pub open spec fn spec_batch_state(v: AcademyView, reqs: Seq<BatchVestingRequest>) -> AcademyView
    decreases reqs.len(),
{
    if reqs.len() == 0 {
        v
    } else {
        let w = spec_batch_state(v, reqs.drop_last());
        let r = reqs.last();
        if grant_valid(r.amount, r.cliff, r.duration) {
            spec_granted(w, r.beneficiary, r.amount, r.start_time, r.cliff, r.duration)
        } else {
            w
        }
    }
}

/// One result per request of a batch.
pub open spec fn spec_batch_results(v: AcademyView, reqs: Seq<BatchVestingRequest>) -> Seq<BatchVestingResult>
    decreases reqs.len(),
{
    if reqs.len() == 0 {
        Seq::empty()
    } else {
        let w = spec_batch_state(v, reqs.drop_last());
        let r = reqs.last();
        spec_batch_results(v, reqs.drop_last()).push(
            if grant_valid(r.amount, r.cliff, r.duration) {
                BatchVestingResult { grant_id: Some((w.counter + 1) as u64), success: true, error_code: None }
            } else {
                BatchVestingResult { grant_id: None, success: false, error_code: Some(4004) }
            },
        )
    }
}

/// Ids granted by a batch, in order.
pub open spec fn spec_batch_ids(v: AcademyView, reqs: Seq<BatchVestingRequest>) -> Seq<u64>
    decreases reqs.len(),
{
    if reqs.len() == 0 {
        Seq::empty()
    } else {
        let w = spec_batch_state(v, reqs.drop_last());
        let r = reqs.last();
        let prev = spec_batch_ids(v, reqs.drop_last());
        if grant_valid(r.amount, r.cliff, r.duration) {
            prev.push((w.counter + 1) as u64)
        } else {
            prev
        }
    }
}

/// Total granted by a batch.
pub open spec fn spec_batch_total(reqs: Seq<BatchVestingRequest>) -> int
    decreases reqs.len(),
{
    if reqs.len() == 0 {
        0
    } else {
        let r = reqs.last();
        spec_batch_total(reqs.drop_last()) + if grant_valid(r.amount, r.cliff, r.duration) {
            r.amount as int
        } else {
            0
        }
    }
}

/// Checks of a claim up to the vested amount: Ok with that amount when
/// the grant is the beneficiary's, unclaimed, unrevoked and partly vested.
pub open spec fn spec_claim_checks(v: AcademyView, grant_id: u64, beneficiary: Address) -> Result<i128, VestingError> {
    let k = schedule_key(grant_id);
    let s = v.schedules[k];
    if !v.schedules.contains_key(k) {
        Err(VestingError::GrantNotFound)
    } else if s.beneficiary != beneficiary {
        Err(VestingError::Unauthorized)
    } else if s.claimed {
        Err(VestingError::AlreadyClaimed)
    } else if s.revoked {
        Err(VestingError::Revoked)
    } else if spec_vested(s, v.timestamp) == 0 {
        Err(VestingError::NotVested)
    } else {
        Ok(spec_vested(s, v.timestamp))
    }
}

/// The vested amount of the grant claimed can be computed.
pub open spec fn claim_arith_ok(v: AcademyView, grant_id: u64) -> bool {
    v.schedules.contains_key(schedule_key(grant_id)) ==> vest_arith_ok(v.schedules[schedule_key(grant_id)], v.timestamp)
}

/// A claim that gets past its checks pays a non-negative amount (the token
/// refuses negative transfers).
pub open spec fn claim_pays_nonnegative(v: AcademyView, grant_id: u64, beneficiary: Address) -> bool {
    spec_claim_checks(v, grant_id, beneficiary) matches Ok(a) ==> a >= 0
}

/// State after grant `grant_id` is claimed.
pub open spec fn spec_claimed_state(v: AcademyView, grant_id: u64) -> AcademyView {
    let k = schedule_key(grant_id);
    AcademyView {
        schedules: v.schedules.insert(k, VestingSchedule { claimed: true, ..v.schedules[k] }),
        active: without_id(v.active, grant_id),
        ..v
    }
}

/// Result of a claim within a batch, against the contract's token balance.
pub open spec fn spec_single_claim(v: AcademyView, grant_id: u64, beneficiary: Address, balance: i128) -> Result<i128, VestingError> {
    match spec_claim_checks(v, grant_id, beneficiary) {
        Err(e) => Err(e),
        Ok(a) => if balance < a {
            Err(VestingError::InsufficientBalance)
        } else {
            Ok(a)
        },
    }
}

/// The contract's token balance after paying `amount` to `to`.
pub open spec fn balance_after(v: AcademyView, to: Address, balance: i128, amount: i128) -> i128 {
    if to == v.contract_address {
        balance
    } else {
        (balance - amount) as i128
    }
}

/// State, balance and transfers after the claims of a batch, in turn.
pub open spec fn spec_batch_claim(
    v: AcademyView,
    reqs: Seq<BatchClaimRequest>,
    balance: i128,
) -> (AcademyView, i128, Seq<BatchClaimResult>, Seq<TokenTransfer>)
    decreases reqs.len(),
{
    if reqs.len() == 0 {
        (v, balance, Seq::empty(), Seq::empty())
    } else {
        let (w, b, results, transfers) = spec_batch_claim(v, reqs.drop_last(), balance);
        let r = reqs.last();
        match spec_single_claim(w, r.grant_id, r.beneficiary, b) {
            Ok(a) => (
                spec_claimed_state(w, r.grant_id),
                balance_after(w, r.beneficiary, b, a),
                results.push(BatchClaimResult { grant_id: r.grant_id, amount_claimed: Some(a), success: true, error_code: None }),
                transfers.push(TokenTransfer { token: w.token.unwrap(), from: w.contract_address, to: r.beneficiary, amount: a }),
            ),
            Err(e) => (
                w,
                b,
                results.push(BatchClaimResult {
                    grant_id: r.grant_id,
                    amount_claimed: None,
                    success: false,
                    error_code: Some(spec_vesting_error_code(e)),
                }),
                transfers,
            ),
        }
    }
}

/// Every claim of a batch can be computed.
pub open spec fn batch_claim_arith_ok(v: AcademyView, reqs: Seq<BatchClaimRequest>, balance: i128) -> bool
    decreases reqs.len(),
{
    if reqs.len() == 0 {
        true
    } else {
        let (w, b, results, transfers) = spec_batch_claim(v, reqs.drop_last(), balance);
        &&& batch_claim_arith_ok(v, reqs.drop_last(), balance)
        &&& claim_arith_ok(w, reqs.last().grant_id)
        &&& claim_pays_nonnegative(w, reqs.last().grant_id, reqs.last().beneficiary)
    }
}

pub proof fn lemma_batch_state_frame(v: AcademyView, reqs: Seq<BatchVestingRequest>)
    requires
        v.counter + reqs.len() <= u64::MAX,
    ensures
        spec_batch_state(v, reqs).counter <= v.counter + reqs.len(),
        spec_batch_state(v, reqs).counter >= v.counter,
        spec_batch_state(v, reqs).timestamp == v.timestamp,
        spec_batch_state(v, reqs).admin == v.admin,
    decreases reqs.len(),
{
    if reqs.len() > 0 {
        lemma_batch_state_frame(v, reqs.drop_last());
    }
}

pub proof fn lemma_batch_total_monotone(reqs: Seq<BatchVestingRequest>, i: int)
    requires
        0 <= i <= reqs.len(),
    ensures
        0 <= spec_batch_total(reqs.take(i)) <= spec_batch_total(reqs),
    decreases reqs.len(),
{
    if reqs.len() > 0 {
        if i == reqs.len() {
            assert(reqs.take(i) =~= reqs);
            lemma_batch_total_monotone(reqs.drop_last(), i - 1);
            assert(reqs.drop_last().take(i - 1) =~= reqs.drop_last());
        } else {
            lemma_batch_total_monotone(reqs.drop_last(), i);
            assert(reqs.drop_last().take(i) =~= reqs.take(i));
        }
    } else {
        assert(reqs.take(i) =~= reqs);
    }
}

pub proof fn lemma_batch_claim_frame(v: AcademyView, reqs: Seq<BatchClaimRequest>, balance: i128)
    ensures
        spec_batch_claim(v, reqs, balance).0.timestamp == v.timestamp,
        spec_batch_claim(v, reqs, balance).0.token == v.token,
        spec_batch_claim(v, reqs, balance).0.contract_address == v.contract_address,
        spec_batch_claim(v, reqs, balance).2.len() == reqs.len(),
    decreases reqs.len(),
{
    if reqs.len() > 0 {
        lemma_batch_claim_frame(v, reqs.drop_last(), balance);
    }
}

pub struct AcademyVestingContract;

impl AcademyVestingContract {
    /// Set the admin, reward token and governance once.
    pub fn init(env: &mut AcademyEnv, admin: Address, reward_token: Address, governance: Address) -> (r: Result<(), VestingError>)
        requires
            old(env).wf(),
        ensures
            final(env).wf(),
            r == (if old(env)@.initialized { Err(VestingError::Unauthorized) } else { Ok(()) }),
            r is Err ==> final(env)@ == old(env)@,
            r is Ok ==> final(env)@ == (AcademyView {
                initialized: true,
                counter: 0,
                admin: Some(admin),
                token: Some(reward_token),
                governance: Some(governance),
                ..old(env)@
            }),
    {
        if AcademyStorage::is_initialized(env) {
            return Err(VestingError::Unauthorized);
        }
        AcademyStorage::set_initialized(env);
        AcademyStorage::set_admin(env, admin);
        AcademyStorage::set_token(env, reward_token);
        AcademyStorage::set_governance(env, governance);
        Ok(())
    }

    fn require_admin(env: &AcademyEnv, admin: Address) -> (r: Result<(), VestingError>)
        ensures
            r == spec_admin_check(env@, admin),
    {
        match AcademyStorage::get_admin(env) {
            Some(a) => if a == admin {
                Ok(())
            } else {
                Err(VestingError::Unauthorized)
            },
            None => Err(VestingError::Unauthorized),
        }
    }

    /// Carry legacy storage over to the current layout (admin only);
    /// returns the number of records carried over.
    pub fn migrate_storage(env: &mut AcademyEnv, admin: Address) -> (r: Result<u64, VestingError>)
        requires
            old(env).wf(),
        ensures
            final(env).wf(),
            ({
                let v = old(env)@;
                let legacy = v.legacy_admin is Some || v.legacy_token is Some || v.legacy_governance is Some
                    || v.legacy_counter is Some;
                &&& r == (if spec_admin_check(v, admin) is Err {
                    Err(VestingError::Unauthorized)
                } else if !legacy {
                    Ok(0u64)
                } else if v.version == 1 {
                    Ok(legacy_count(v))
                } else {
                    Ok(0u64)
                })
                &&& (r is Err || !legacy) ==> final(env)@ == v
                &&& (r is Ok && legacy) ==> final(env)@ == (if v.version == 0 {
                    AcademyView { version: CONTRACT_VERSION, ..v }
                } else if v.version == 1 {
                    AcademyView { version: CONTRACT_VERSION, ..spec_migrated(v) }
                } else {
                    v
                })
            }),
    {
        match Self::require_admin(env, admin) {
            Err(e) => return Err(e),
            Ok(()) => {},
        }
        if !AcademyStorage::has_legacy_data(env) {
            return Ok(0);
        }
        let migrated = AcademyStorage::migrate_storage(env);
        Ok(migrated)
    }

    fn record_grant(
        env: &mut AcademyEnv,
        beneficiary: Address,
        amount: i128,
        start_time: u64,
        cliff: u64,
        duration: u64,
    ) -> (id: u64)
        requires
            old(env).wf(),
            old(env)@.counter < u64::MAX,
        ensures
            final(env).wf(),
            id == old(env)@.counter + 1,
            final(env)@ == spec_granted(old(env)@, beneficiary, amount, start_time, cliff, duration),
    {
        let ghost v = env@;
        let grant_id = AcademyStorage::increment_counter(env);
        let schedule = VestingSchedule {
            beneficiary,
            amount,
            start_time,
            cliff,
            duration,
            claimed: false,
            revoked: false,
            revoke_time: 0,
        };
        AcademyStorage::set_schedule(env, grant_id, schedule);
        AcademyStorage::add_schedule_to_user_index(env, beneficiary, grant_id);
        AcademyStorage::add_to_active_index(env, grant_id);
        assert(env@ =~= spec_granted(v, beneficiary, amount, start_time, cliff, duration));
        grant_id
    }

    /// Grant `amount` to `beneficiary`, vesting from `start_time` with a
    /// `cliff` within `duration` (admin only). Returns the grant id.
    pub fn grant_vesting(
        env: &mut AcademyEnv,
        admin: Address,
        beneficiary: Address,
        amount: i128,
        start_time: u64,
        cliff: u64,
        duration: u64,
    ) -> (r: Result<u64, VestingError>)
        requires
            old(env).wf(),
            spec_admin_check(old(env)@, admin) is Ok && grant_valid(amount, cliff, duration) ==> old(env)@.counter
                < u64::MAX,
        ensures
            final(env).wf(),
            r == (if spec_admin_check(old(env)@, admin) is Err {
                Err(VestingError::Unauthorized)
            } else if !grant_valid(amount, cliff, duration) {
                Err(VestingError::InvalidSchedule)
            } else {
                Ok((old(env)@.counter + 1) as u64)
            }),
            r is Err ==> final(env)@ == old(env)@,
            r is Ok ==> final(env)@ == spec_granted(old(env)@, beneficiary, amount, start_time, cliff, duration),
    {
        match Self::require_admin(env, admin) {
            Err(e) => return Err(e),
            Ok(()) => {},
        }
        if amount <= 0 {
            return Err(VestingError::InvalidSchedule);
        }
        if cliff > duration {
            return Err(VestingError::InvalidSchedule);
        }
        let grant_id = Self::record_grant(env, beneficiary, amount, start_time, cliff, duration);
        Ok(grant_id)
    }

    fn process_single_vesting_grant(env: &mut AcademyEnv, request: &BatchVestingRequest) -> (r: Result<u64, VestingError>)
        requires
            old(env).wf(),
            grant_valid(request.amount, request.cliff, request.duration) ==> old(env)@.counter < u64::MAX,
        ensures
            final(env).wf(),
            r == (if !grant_valid(request.amount, request.cliff, request.duration) {
                Err(VestingError::InvalidSchedule)
            } else {
                Ok((old(env)@.counter + 1) as u64)
            }),
            r is Err ==> final(env)@ == old(env)@,
            r is Ok ==> final(env)@ == spec_granted(
                old(env)@,
                request.beneficiary,
                request.amount,
                request.start_time,
                request.cliff,
                request.duration,
            ),
    {
        if request.amount <= 0 {
            return Err(VestingError::InvalidSchedule);
        }
        if request.cliff > request.duration {
            return Err(VestingError::InvalidSchedule);
        }
        let grant_id = Self::record_grant(
            env,
            request.beneficiary,
            request.amount,
            request.start_time,
            request.cliff,
            request.duration,
        );
        Ok(grant_id)
    }

    /// Grant up to 25 schedules at once (admin only). Invalid requests are
    /// skipped; every request gets a result.
    pub fn batch_grant_vesting(
        env: &mut AcademyEnv,
        admin: Address,
        requests: Vec<BatchVestingRequest>,
    ) -> (r: Result<BatchVestingOperation, VestingError>)
        requires
            old(env).wf(),
            requests@.len() <= MAX_GRANT_BATCH && spec_admin_check(old(env)@, admin) is Ok ==> {
                &&& old(env)@.counter + requests@.len() <= u64::MAX
                &&& spec_batch_total(requests@) <= i128::MAX
            },
        ensures
            final(env).wf(),
            r matches Err(e) ==> final(env)@ == old(env)@ && e == (if requests@.len() > MAX_GRANT_BATCH {
                VestingError::BatchSizeExceeded
            } else {
                VestingError::Unauthorized
            }),
            r is Err <==> (requests@.len() > MAX_GRANT_BATCH || spec_admin_check(old(env)@, admin) is Err),
            r matches Ok(op) ==> {
                &&& final(env)@ == spec_batch_state(old(env)@, requests@)
                &&& op.successful_grants@ == spec_batch_ids(old(env)@, requests@)
                &&& op.failed_grants@ == spec_batch_results(old(env)@, requests@)
                &&& op.total_amount_granted == spec_batch_total(requests@)
                &&& op.gas_saved == 0
            },
    {
        if requests.len() > MAX_GRANT_BATCH as usize {
            return Err(VestingError::BatchSizeExceeded);
        }
        match Self::require_admin(env, admin) {
            Err(e) => return Err(e),
            Ok(()) => {},
        }
        let ghost v = env@;
        let mut successful: Vec<u64> = Vec::new();
        let mut results: Vec<BatchVestingResult> = Vec::new();
        let mut total: i128 = 0;
        let mut i: usize = 0;
        while i < requests.len()
            invariant
                env.wf(),
                0 <= i <= requests@.len(),
                v.counter + requests@.len() <= u64::MAX,
                spec_batch_total(requests@) <= i128::MAX,
                env@ == spec_batch_state(v, requests@.take(i as int)),
                successful@ == spec_batch_ids(v, requests@.take(i as int)),
                results@ == spec_batch_results(v, requests@.take(i as int)),
                total == spec_batch_total(requests@.take(i as int)),
            decreases requests@.len() - i,
        {
            let request = requests[i];
            proof {
                assert(requests@.take(i + 1).drop_last() =~= requests@.take(i as int));
                assert(requests@.take(i + 1).last() == request);
                lemma_batch_state_frame(v, requests@.take(i as int));
                lemma_batch_total_monotone(requests@, i + 1);
            }
            let outcome = Self::process_single_vesting_grant(env, &request);
            let result = match outcome {
                Ok(grant_id) => {
                    successful.push(grant_id);
                    total = total + request.amount;
                    BatchVestingResult { grant_id: Some(grant_id), success: true, error_code: None }
                },
                Err(error) => BatchVestingResult { grant_id: None, success: false, error_code: Some(error.code()) },
            };
            results.push(result);
            i = i + 1;
        }
        assert(requests@.take(requests@.len() as int) =~= requests@);
        Ok(BatchVestingOperation {
            successful_grants: successful,
            failed_grants: results,
            total_amount_granted: total,
            gas_saved: 0,
        })
    }

    /// The amount of `schedule` vested at `current_time`.
    pub fn calculate_vested_amount(schedule: &VestingSchedule, current_time: u64) -> (r: Result<i128, VestingError>)
        requires
            vest_arith_ok(*schedule, current_time),
        ensures
            r == Ok::<i128, VestingError>(spec_vested(*schedule, current_time)),
    {
        if current_time < schedule.start_time {
            return Ok(0);
        }
        if current_time < schedule.start_time + schedule.cliff {
            return Ok(0);
        }
        if current_time >= schedule.start_time + schedule.duration {
            return Ok(schedule.amount);
        }
        let vested_duration = current_time - (schedule.start_time + schedule.cliff);
        let remaining_duration = schedule.duration - schedule.cliff;
        if remaining_duration == 0 {
            return Ok(schedule.amount);
        }
        let vested: u128 = (to_u128(schedule.amount) * vested_duration as u128) / remaining_duration as u128;
        Ok(vested as i128)
    }

    fn claim_checks(env: &AcademyEnv, grant_id: u64, beneficiary: Address) -> (r: Result<(VestingSchedule, i128), VestingError>)
        requires
            env.wf(),
            claim_arith_ok(env@, grant_id),
        ensures
            match r {
                Ok((s, a)) => spec_claim_checks(env@, grant_id, beneficiary) == Ok::<i128, VestingError>(a)
                    && s == env@.schedules[schedule_key(grant_id)],
                Err(e) => spec_claim_checks(env@, grant_id, beneficiary) == Err::<i128, VestingError>(e),
            },
    {
        let schedule = match AcademyStorage::get_schedule(env, grant_id) {
            None => return Err(VestingError::GrantNotFound),
            Some(s) => s,
        };
        if schedule.beneficiary != beneficiary {
            return Err(VestingError::Unauthorized);
        }
        if schedule.claimed {
            return Err(VestingError::AlreadyClaimed);
        }
        if schedule.revoked {
            return Err(VestingError::Revoked);
        }
        let vested = match Self::calculate_vested_amount(&schedule, env.timestamp) {
            Ok(a) => a,
            Err(e) => return Err(e),
        };
        if vested == 0 {
            return Err(VestingError::NotVested);
        }
        Ok((schedule, vested))
    }

    fn mark_claimed(env: &mut AcademyEnv, grant_id: u64, schedule: VestingSchedule)
        requires
            old(env).wf(),
            schedule == old(env)@.schedules[schedule_key(grant_id)],
        ensures
            final(env).wf(),
            final(env)@ == spec_claimed_state(old(env)@, grant_id),
    {
        let ghost v = env@;
        let mut s = schedule;
        s.claimed = true;
        AcademyStorage::set_schedule(env, grant_id, s);
        AcademyStorage::remove_from_active_index(env, grant_id);
        assert(env@ =~= spec_claimed_state(v, grant_id));
    }

    fn process_single_claim(
        env: &mut AcademyEnv,
        request: &BatchClaimRequest,
        token: Address,
        balance: i128,
        transfers: &mut Vec<TokenTransfer>,
    ) -> (r: Result<i128, VestingError>)
        requires
            old(env).wf(),
            claim_arith_ok(old(env)@, request.grant_id),
            claim_pays_nonnegative(old(env)@, request.grant_id, request.beneficiary),
        ensures
            final(env).wf(),
            r == spec_single_claim(old(env)@, request.grant_id, request.beneficiary, balance),
            r is Err ==> final(env)@ == old(env)@ && final(transfers)@ == old(transfers)@,
            r matches Ok(a) ==> a >= 0 && final(env)@ == spec_claimed_state(old(env)@, request.grant_id)
                && final(transfers)@ == old(transfers)@.push(
                TokenTransfer { token, from: old(env)@.contract_address, to: request.beneficiary, amount: a },
            ),
    {
        let (schedule, vested) = match Self::claim_checks(env, request.grant_id, request.beneficiary) {
            Err(e) => return Err(e),
            Ok(x) => x,
        };
        if balance < vested {
            return Err(VestingError::InsufficientBalance);
        }
        Self::mark_claimed(env, request.grant_id, schedule);
        transfers.push(TokenTransfer { token, from: env.contract_address, to: request.beneficiary, amount: vested });
        Ok(vested)
    }

    /// Claim up to 20 grants at once. `balance` is this contract's balance
    /// of the reward token before the batch; each successful claim pays from
    /// it.
    pub fn batch_claim(
        env: &mut AcademyEnv,
        requests: Vec<BatchClaimRequest>,
        balance: i128,
        transfers: &mut Vec<TokenTransfer>,
    ) -> (r: Result<Vec<BatchClaimResult>, VestingError>)
        requires
            old(env).wf(),
            batch_claim_arith_ok(old(env)@, requests@, balance),
            balance >= 0,
        ensures
            final(env).wf(),
            r matches Err(e) ==> final(env)@ == old(env)@ && final(transfers)@ == old(transfers)@ && e == (
            if requests@.len() > MAX_CLAIM_BATCH {
                VestingError::BatchSizeExceeded
            } else {
                VestingError::Unauthorized
            }),
            r is Err <==> (requests@.len() > MAX_CLAIM_BATCH || old(env)@.token is None),
            r matches Ok(results) ==> {
                let (w, b, rs, ts) = spec_batch_claim(old(env)@, requests@, balance);
                &&& final(env)@ == w
                &&& results@ == rs
                &&& final(transfers)@ == old(transfers)@ + ts
            },
    {
        if requests.len() > MAX_CLAIM_BATCH as usize {
            return Err(VestingError::BatchSizeExceeded);
        }
        let token = match AcademyStorage::get_token(env) {
            None => return Err(VestingError::Unauthorized),
            Some(t) => t,
        };
        let ghost v = env@;
        let ghost t0 = transfers@;
        let mut results: Vec<BatchClaimResult> = Vec::new();
        let mut bal: i128 = balance;
        let mut i: usize = 0;
        while i < requests.len()
            invariant
                env.wf(),
                0 <= i <= requests@.len(),
                v.token == Some(token),
                bal >= 0,
                batch_claim_arith_ok(v, requests@, balance),
                ({
                    let (w, b, rs, ts) = spec_batch_claim(v, requests@.take(i as int), balance);
                    &&& env@ == w
                    &&& bal == b
                    &&& results@ == rs
                    &&& transfers@ == t0 + ts
                }),
            decreases requests@.len() - i,
        {
            let request = requests[i];
            proof {
                assert(requests@.take(i + 1).drop_last() =~= requests@.take(i as int));
                assert(requests@.take(i + 1).last() == request);
                lemma_batch_claim_frame(v, requests@.take(i as int), balance);
                lemma_batch_claim_arith_prefix(v, requests@, balance, i + 1);
            }
            let outcome = Self::process_single_claim(env, &request, token, bal, transfers);
            let result = match outcome {
                Ok(amount) => {
                    if request.beneficiary != env.contract_address {
                        bal = bal - amount;
                    }
                    BatchClaimResult { grant_id: request.grant_id, amount_claimed: Some(amount), success: true, error_code: None }
                },
                Err(error) => BatchClaimResult {
                    grant_id: request.grant_id,
                    amount_claimed: None,
                    success: false,
                    error_code: Some(error.code()),
                },
            };
            results.push(result);
            proof {
                assert(transfers@ =~= t0 + spec_batch_claim(v, requests@.take(i + 1), balance).3);
            }
            i = i + 1;
        }
        assert(requests@.take(requests@.len() as int) =~= requests@);
        Ok(results)
    }

    /// Claim grant `grant_id` for `beneficiary`: the whole vested amount is
    /// paid from `balance`, this contract's balance of the reward token, and
    /// the grant is closed.
    pub fn claim(
        env: &mut AcademyEnv,
        grant_id: u64,
        beneficiary: Address,
        balance: i128,
        transfers: &mut Vec<TokenTransfer>,
    ) -> (r: Result<i128, VestingError>)
        requires
            old(env).wf(),
            claim_arith_ok(old(env)@, grant_id),
            claim_pays_nonnegative(old(env)@, grant_id, beneficiary),
        ensures
            final(env).wf(),
            r == (match spec_claim_checks(old(env)@, grant_id, beneficiary) {
                Err(e) => Err(e),
                Ok(a) => if old(env)@.token is None {
                    Err(VestingError::Unauthorized)
                } else if balance < a {
                    Err(VestingError::InsufficientBalance)
                } else {
                    Ok(a)
                },
            }),
            r is Err ==> final(env)@ == old(env)@ && final(transfers)@ == old(transfers)@,
            r matches Ok(a) ==> final(env)@ == spec_claimed_state(old(env)@, grant_id) && final(transfers)@
                == old(transfers)@.push(
                TokenTransfer {
                    token: old(env)@.token.unwrap(),
                    from: old(env)@.contract_address,
                    to: beneficiary,
                    amount: a,
                },
            ),
    {
        let (schedule, vested) = match Self::claim_checks(env, grant_id, beneficiary) {
            Err(e) => return Err(e),
            Ok(x) => x,
        };
        let token = match AcademyStorage::get_token(env) {
            None => return Err(VestingError::Unauthorized),
            Some(t) => t,
        };
        if balance < vested {
            return Err(VestingError::InsufficientBalance);
        }
        Self::mark_claimed(env, grant_id, schedule);
        transfers.push(TokenTransfer { token, from: env.contract_address, to: beneficiary, amount: vested });
        Ok(vested)
    }

    /// Revoke an open grant (admin only) once `revoke_delay` (at least an
    /// hour) has passed since its start.
    pub fn revoke(env: &mut AcademyEnv, grant_id: u64, admin: Address, revoke_delay: u64) -> (r: Result<(), VestingError>)
        requires
            old(env).wf(),
            old(env)@.schedules.contains_key(schedule_key(grant_id)) ==> old(env)@.schedules[schedule_key(
                grant_id,
            )].start_time + revoke_delay <= u64::MAX,
        ensures
            final(env).wf(),
            ({
                let v = old(env)@;
                let k = schedule_key(grant_id);
                let s = v.schedules[k];
                &&& r == (if spec_admin_check(v, admin) is Err {
                    Err(VestingError::Unauthorized)
                } else if !v.schedules.contains_key(k) {
                    Err(VestingError::GrantNotFound)
                } else if s.claimed {
                    Err(VestingError::AlreadyClaimed)
                } else if s.revoked {
                    Err(VestingError::Revoked)
                } else if revoke_delay < MIN_REVOKE_DELAY {
                    Err(VestingError::InvalidTimelock)
                } else if v.timestamp < s.start_time + revoke_delay {
                    Err(VestingError::NotEnoughTimeForRevoke)
                } else {
                    Ok(())
                })
                &&& r is Err ==> final(env)@ == v
                &&& r is Ok ==> final(env)@ == (AcademyView {
                    schedules: v.schedules.insert(k, VestingSchedule { revoked: true, revoke_time: v.timestamp, ..s }),
                    active: without_id(v.active, grant_id),
                    ..v
                })
            }),
    {
        match Self::require_admin(env, admin) {
            Err(e) => return Err(e),
            Ok(()) => {},
        }
        let mut schedule = match AcademyStorage::get_schedule(env, grant_id) {
            None => return Err(VestingError::GrantNotFound),
            Some(s) => s,
        };
        if schedule.claimed {
            return Err(VestingError::AlreadyClaimed);
        }
        if schedule.revoked {
            return Err(VestingError::Revoked);
        }
        if revoke_delay < MIN_REVOKE_DELAY {
            return Err(VestingError::InvalidTimelock);
        }
        let current_time = env.timestamp;
        if current_time < schedule.start_time + revoke_delay {
            return Err(VestingError::NotEnoughTimeForRevoke);
        }
        let ghost v = env@;
        schedule.revoked = true;
        schedule.revoke_time = current_time;
        AcademyStorage::set_schedule(env, grant_id, schedule);
        AcademyStorage::remove_from_active_index(env, grant_id);
        assert(env@ =~= AcademyView {
            schedules: v.schedules.insert(schedule_key(grant_id), schedule),
            active: without_id(v.active, grant_id),
            ..v
        });
        Ok(())
    }

    /// Grant `grant_id`'s schedule.
    pub fn get_vesting(env: &AcademyEnv, grant_id: u64) -> (r: Result<VestingSchedule, VestingError>)
        requires
            env.wf(),
        ensures
            r == (if env@.schedules.contains_key(schedule_key(grant_id)) {
                Ok(env@.schedules[schedule_key(grant_id)])
            } else {
                Err(VestingError::GrantNotFound)
            }),
    {
        match AcademyStorage::get_schedule(env, grant_id) {
            Some(s) => Ok(s),
            None => Err(VestingError::GrantNotFound),
        }
    }

    /// `beneficiary`'s schedules, in grant order.
    pub fn get_user_vestings(env: &AcademyEnv, beneficiary: Address) -> (r: Vec<VestingSchedule>)
        requires
            env.wf(),
        ensures
            r@ == schedules_of(env@.schedules, user_ids(env@, beneficiary)),
    {
        AcademyStorage::get_user_schedules(env, beneficiary)
    }

    /// Amount of grant `grant_id` vested now.
    pub fn get_vested_amount(env: &AcademyEnv, grant_id: u64) -> (r: Result<i128, VestingError>)
        requires
            env.wf(),
            claim_arith_ok(env@, grant_id),
        ensures
            r == (if env@.schedules.contains_key(schedule_key(grant_id)) {
                Ok(spec_vested(env@.schedules[schedule_key(grant_id)], env@.timestamp))
            } else {
                Err(VestingError::GrantNotFound)
            }),
    {
        let schedule = match AcademyStorage::get_schedule(env, grant_id) {
            None => return Err(VestingError::GrantNotFound),
            Some(s) => s,
        };
        Self::calculate_vested_amount(&schedule, env.timestamp)
    }

    /// The admin, reward token and governance addresses.
    pub fn get_info(env: &AcademyEnv) -> (r: Result<(Address, Address, Address), VestingError>)
        ensures
            r == (match (env@.admin, env@.token, env@.governance) {
                (Some(a), Some(t), Some(g)) => Ok((a, t, g)),
                _ => Err(VestingError::Unauthorized),
            }),
    {
        let admin = match AcademyStorage::get_admin(env) {
            None => return Err(VestingError::Unauthorized),
            Some(a) => a,
        };
        let token = match AcademyStorage::get_token(env) {
            None => return Err(VestingError::Unauthorized),
            Some(t) => t,
        };
        let governance = match AcademyStorage::get_governance(env) {
            None => return Err(VestingError::Unauthorized),
            Some(g) => g,
        };
        Ok((admin, token, governance))
    }
}

pub proof fn lemma_batch_claim_arith_prefix(v: AcademyView, reqs: Seq<BatchClaimRequest>, balance: i128, i: int)
    requires
        0 <= i <= reqs.len(),
        batch_claim_arith_ok(v, reqs, balance),
    ensures
        batch_claim_arith_ok(v, reqs.take(i), balance),
    decreases reqs.len(),
{
    if i == reqs.len() {
        assert(reqs.take(i) =~= reqs);
    } else {
        lemma_batch_claim_arith_prefix(v, reqs.drop_last(), balance, i);
        assert(reqs.drop_last().take(i) =~= reqs.take(i));
    }
}

} // verus!
