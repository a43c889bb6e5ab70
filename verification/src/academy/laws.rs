//! Properties of vesting that hold for every schedule and time.

use vstd::prelude::*;
use vstd::arithmetic::div_mod::{lemma_div_is_ordered, lemma_div_multiples_vanish};
use vstd::arithmetic::mul::{lemma_mul_inequality, lemma_mul_is_commutative};
use crate::common::Address;
use crate::academy::storage::{AcademyView, schedule_key};
use crate::academy::vesting::{
    BatchClaimRequest, VestingSchedule, batch_claim_arith_ok, lemma_batch_claim_frame, spec_batch_claim, spec_claim_checks,
    spec_claimed_state, spec_vested,
};
use crate::common::TokenTransfer;
use crate::bridge::security::twos_complement_128;

verus! {

/// A schedule as the contract grants it.
pub open spec fn valid_schedule(s: VestingSchedule) -> bool {
    &&& s.amount > 0
    &&& s.cliff <= s.duration
    &&& s.start_time + s.duration <= u64::MAX
}

/// Value of the linear part at time `t`.
proof fn lemma_linear_part(s: VestingSchedule, t: u64)
    requires
        valid_schedule(s),
        s.start_time + s.cliff <= t < s.start_time + s.duration,
    ensures
        0 <= (s.amount * (t - (s.start_time + s.cliff))) / ((s.duration - s.cliff) as int) <= s.amount,
        spec_vested(s, t) == (s.amount * (t - (s.start_time + s.cliff))) / ((s.duration - s.cliff) as int),
{
    let vd: int = t - (s.start_time + s.cliff);
    let rd: int = (s.duration - s.cliff) as int;
    let a: int = s.amount as int;
    assert(twos_complement_128(a) == a);
    assert(0 <= vd < rd);
    lemma_mul_inequality(vd, rd, a);
    lemma_mul_is_commutative(vd, a);
    lemma_mul_is_commutative(rd, a);
    lemma_mul_inequality(0, vd, a);
    lemma_div_is_ordered(a * vd, a * rd, rd);
    lemma_div_multiples_vanish(a, rd);
    lemma_div_is_ordered(0, a * vd, rd);
}

/// Nothing vests before the cliff.
pub proof fn law_nothing_before_cliff(s: VestingSchedule, t: u64)
    requires
        t < s.start_time + s.cliff,
    ensures
        spec_vested(s, t) == 0,
{
}

/// Everything has vested once the duration has passed.
pub proof fn law_all_vested_after_duration(s: VestingSchedule, t: u64)
    requires
        valid_schedule(s),
        t >= s.start_time + s.duration,
    ensures
        spec_vested(s, t) == s.amount,
{
}

/// The vested amount never exceeds the grant and is never negative.
pub proof fn law_vested_bounded(s: VestingSchedule, t: u64)
    requires
        valid_schedule(s),
    ensures
        0 <= spec_vested(s, t) <= s.amount,
{
    if s.start_time + s.cliff <= t < s.start_time + s.duration {
        lemma_linear_part(s, t);
    }
}

/// The vested amount never decreases over time.
pub proof fn law_vested_monotone(s: VestingSchedule, t1: u64, t2: u64)
    requires
        valid_schedule(s),
        t1 <= t2,
    ensures
        spec_vested(s, t1) <= spec_vested(s, t2),
{
    law_vested_bounded(s, t1);
    law_vested_bounded(s, t2);
    if s.start_time + s.cliff <= t1 && t2 < s.start_time + s.duration {
        lemma_linear_part(s, t1);
        lemma_linear_part(s, t2);
        let a: int = s.amount as int;
        let rd: int = (s.duration - s.cliff) as int;
        let v1: int = t1 - (s.start_time + s.cliff);
        let v2: int = t2 - (s.start_time + s.cliff);
        lemma_mul_inequality(v1, v2, a);
        lemma_mul_is_commutative(v1, a);
        lemma_mul_is_commutative(v2, a);
        lemma_div_is_ordered(a * v1, a * v2, rd);
    }
}

/// A grant is claimed at most once: after a claim, every further claim is
/// refused.
pub proof fn law_claim_once(v: AcademyView, grant_id: u64, beneficiary: Address, other: Address)
    requires
        v.schedules.contains_key(schedule_key(grant_id)),
        v.schedules[schedule_key(grant_id)].beneficiary == beneficiary,
    ensures
        spec_claim_checks(spec_claimed_state(v, grant_id), grant_id, other) is Err,
{
}

/// A revoked grant cannot be claimed.
pub proof fn law_revoked_not_claimable(v: AcademyView, grant_id: u64, beneficiary: Address)
    requires
        v.schedules.contains_key(schedule_key(grant_id)),
        v.schedules[schedule_key(grant_id)].revoked,
    ensures
        spec_claim_checks(v, grant_id, beneficiary) is Err,
{
}

/// Total amount moved by a list of token transfers.
pub open spec fn total_moved(ts: Seq<TokenTransfer>) -> int
    decreases ts.len(),
{
    if ts.len() == 0 {
        0
    } else {
        total_moved(ts.drop_last()) + ts.last().amount
    }
}

/// A batch claim never pays out more than the contract holds: with a
/// non-negative starting balance and beneficiaries other than the contract
/// itself, what the batch pays plus what is left is exactly the starting
/// balance, nothing paid is negative, and what is left is never negative.
pub proof fn law_batch_claim_pays_from_balance(v: AcademyView, reqs: Seq<BatchClaimRequest>, balance: i128)
    requires
        balance >= 0,
        batch_claim_arith_ok(v, reqs, balance),
        forall|i: int| 0 <= i < reqs.len() ==> (#[trigger] reqs[i]).beneficiary != v.contract_address,
    ensures
        ({
            let (w, left, results, ts) = spec_batch_claim(v, reqs, balance);
            &&& left >= 0
            &&& total_moved(ts) + left == balance
            &&& forall|j: int| 0 <= j < ts.len() ==> (#[trigger] ts[j]).amount >= 0
        }),
    decreases reqs.len(),
{
    if reqs.len() > 0 {
        let pre = reqs.drop_last();
        assert forall|i: int| 0 <= i < pre.len() implies (#[trigger] pre[i]).beneficiary != v.contract_address by {
            assert(pre[i] == reqs[i]);
        }
        law_batch_claim_pays_from_balance(v, pre, balance);
        lemma_batch_claim_frame(v, pre, balance);
        let (w, b, rs, ts) = spec_batch_claim(v, pre, balance);
        let r = reqs.last();
        assert(r == reqs[reqs.len() - 1]);
        let (w2, b2, rs2, ts2) = spec_batch_claim(v, reqs, balance);
        if ts2.len() > ts.len() {
            assert(ts2.drop_last() =~= ts);
        } else {
            assert(ts2 =~= ts);
        }
    }
}

} // verus!
