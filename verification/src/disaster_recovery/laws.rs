//! Properties of the disaster-recovery modules that span their operations.

use vstd::prelude::*;
use crate::common::Address;
use crate::disaster_recovery::env::{DrEnv, DrEnvView, proposal_sound};
use crate::disaster_recovery::errors::DisasterRecoveryError;
use crate::disaster_recovery::monitoring::{AlertLevel, spec_config, spec_emit};
use crate::disaster_recovery::pause_control::{PauseLevel, spec_pause_result, spec_set_level, spec_unpause_result};
use crate::disaster_recovery::circuit_breaker::{
    CircuitState, CircuitStatusView, CircuitType, spec_observe_result, spec_observe_status, spec_probe_status,
};
use crate::disaster_recovery::recovery::{
    ProposalStatus, has_proposal, proposal_at, spec_approve_result, spec_approve_state, spec_council_or_admin,
    spec_required_quorum,
};

verus! {

/// Only the admin can declare an emergency.
pub proof fn law_only_admin_declares_emergency(v: DrEnvView, caller: Address)
    ensures
        spec_pause_result(v, caller, PauseLevel::Emergency) is Ok ==> v.admin == Some(caller),
{
}

/// Once in emergency mode, no lower pause level can be set: only the admin's
/// unpause leaves it.
pub proof fn law_emergency_is_sticky(v: DrEnvView, caller: Address, level: PauseLevel)
    requires
        v.pause_state matches Some(s) && s.level == PauseLevel::Emergency,
        level != PauseLevel::Emergency,
    ensures
        spec_pause_result(v, caller, level) is Err,
        spec_unpause_result(v, caller) is Ok ==> v.admin == Some(caller),
{
}

/// The pause history never holds more than its last fifty entries.
pub proof fn law_pause_history_bounded(
    v: DrEnvView,
    caller: Address,
    level: PauseLevel,
    reason: Seq<char>,
    unpause_after: u32,
    is_pause: bool,
)
    ensures
        spec_set_level(v, caller, level, reason, unpause_after, is_pause).pause_history.len() <= 50,
{
}

/// An open circuit whose cooldown has not passed refuses every observation
/// and stays open.
pub proof fn law_open_circuit_rejects(s: CircuitStatusView, now: u32, value: i128)
    requires
        s.config.enabled,
        s.state == CircuitState::Open,
        now < s.tripped_at + s.config.cooldown_ledgers,
    ensures
        spec_observe_result(s, now, value) == Err::<(), DisasterRecoveryError>(DisasterRecoveryError::CircuitBreakerOpen),
        spec_observe_status(s, now, value) == s,
{
}

/// A closed counting circuit trips when its window total reaches the
/// threshold: the observation is refused and the circuit opens.
pub proof fn law_circuit_trips_at_threshold(s: CircuitStatusView, now: u32, value: i128)
    requires
        s.config.enabled,
        s.state == CircuitState::Closed,
        s.config.circuit_type != CircuitType::Liquidity,
        now < s.window_start + s.config.window_ledgers,
        s.window_value + value <= i128::MAX,
        s.window_value + value >= s.config.threshold,
    ensures
        spec_observe_result(s, now, value) == Err::<(), DisasterRecoveryError>(DisasterRecoveryError::CircuitBreakerOpen),
        spec_observe_status(s, now, value).state == CircuitState::Open,
{
}

/// An observation after the window has run out starts a fresh window at
/// `now` holding only the observed value: nothing from the old window is
/// carried over. It trips the circuit exactly when that value alone
/// reaches the threshold; otherwise the circuit stays closed with the new
/// window.
pub proof fn law_expired_window_starts_afresh(s: CircuitStatusView, now: u32, value: i128)
    requires
        s.config.enabled,
        s.state == CircuitState::Closed,
        s.config.circuit_type != CircuitType::Liquidity,
        now >= s.window_start + s.config.window_ledgers,
    ensures
        spec_observe_result(s, now, value) is Err <==> value >= s.config.threshold,
        value >= s.config.threshold ==> spec_observe_status(s, now, value).state == CircuitState::Open,
        value < s.config.threshold ==> ({
            let t = spec_observe_status(s, now, value);
            &&& t.state == CircuitState::Closed
            &&& t.window_start == now
            &&& t.window_value == value
            &&& t.trip_count == s.trip_count
        }),
{
}

/// Within a live window a non-liquidity circuit accumulates: it trips
/// exactly when the window's running value plus the observed one reaches
/// the threshold, and otherwise keeps its window start and adds the value.
pub proof fn law_live_window_accumulates(s: CircuitStatusView, now: u32, value: i128)
    requires
        s.config.enabled,
        s.state == CircuitState::Closed,
        s.config.circuit_type != CircuitType::Liquidity,
        now < s.window_start + s.config.window_ledgers,
        i128::MIN <= s.window_value + value <= i128::MAX,
    ensures
        spec_observe_result(s, now, value) is Err <==> s.window_value + value >= s.config.threshold,
        s.window_value + value < s.config.threshold ==> ({
            let t = spec_observe_status(s, now, value);
            &&& t.state == CircuitState::Closed
            &&& t.window_start == s.window_start
            &&& t.window_value == s.window_value + value
        }),
{
}

/// A half-open circuit closes on its third successful probe in a row and
/// reopens on any failed one.
pub proof fn law_probes_close_or_reopen(s: CircuitStatusView, now: u32)
    requires
        s.state == CircuitState::HalfOpen,
    ensures
        s.consecutive_ok == 2 ==> spec_probe_status(s, now, true).state == CircuitState::Closed,
        s.consecutive_ok < 2 ==> spec_probe_status(s, now, true).state == CircuitState::HalfOpen,
        spec_probe_status(s, now, false).state == CircuitState::Open,
{
}

/// Every approved or executed recovery proposal carries a quorum of
/// distinct approvals; every operation keeps the state well formed, so this
/// holds in every reachable state.
pub proof fn law_executed_proposals_had_quorum(env: DrEnv, i: int)
    requires
        env.wf(),
        0 <= i < env@.proposals.len(),
    ensures
        env@.proposals[i].approvals.no_duplicates(),
        env@.proposals[i].status == ProposalStatus::Executed ==> env@.proposals[i].approvals.len()
            >= env@.proposals[i].required_quorum,
        env@.proposals[i].status == ProposalStatus::Approved ==> env@.proposals[i].approvals.len()
            >= env@.proposals[i].required_quorum,
{
    assert(proposal_sound(env@.proposals[i]));
}

/// Admin rotation and contract upgrades need three approvals, every other
/// action two.
pub proof fn law_high_impact_quorum(a: crate::disaster_recovery::recovery::RecoveryActionType)
    ensures
        spec_required_quorum(a) == (if a == crate::disaster_recovery::recovery::RecoveryActionType::AdminRotation
            || a == crate::disaster_recovery::recovery::RecoveryActionType::ContractUpgrade {
            3u32
        } else {
            2u32
        }),
{
}

/// The alert log never grows past the configured maximum once within it.
pub proof fn law_alert_log_bounded(v: DrEnvView, name: Seq<char>, level: AlertLevel, message: Seq<char>)
    requires
        v.alerts.len() <= spec_config(v).max_stored_alerts,
    ensures
        spec_emit(v, name, level, message).alerts.len() <= spec_config(v).max_stored_alerts,
{
}

/// Approving a live pending proposal a second time is accepted and changes
/// nothing: the answer is the proposal's current (pending) status and the
/// state is left as it was.
pub proof fn law_double_approve_changes_nothing(v: DrEnvView, approver: Address, id: u32)
    requires
        spec_council_or_admin(v, approver) is Ok,
        has_proposal(v, id),
        proposal_at(v, id).status == ProposalStatus::Pending,
        v.ledger <= proposal_at(v, id).expires_at,
        proposal_at(v, id).approvals.contains(approver),
    ensures
        spec_approve_result(v, approver, id) == Ok::<ProposalStatus, DisasterRecoveryError>(ProposalStatus::Pending),
        spec_approve_state(v, approver, id) == v,
{
}

} // verus!
