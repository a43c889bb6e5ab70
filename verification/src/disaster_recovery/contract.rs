//! The disaster-recovery contract: set-up of all modules, its entry points
//! onto each module and a one-call health summary.

use vstd::prelude::*;
use crate::common::{Address, without};
use crate::disaster_recovery::env::{DrEnv, DrEnvView};
use crate::disaster_recovery::errors::DisasterRecoveryError;
use crate::disaster_recovery::monitoring::{
    self, Alert, AlertLevel, AlertView, MonitoringConfig, configure, emit_ok, has_active_critical_alerts, selected,
    spec_emit, spec_has_active_critical, spec_resolved,
};
use crate::disaster_recovery::pause_control::{
    PAUSE_COOLDOWN_LEDGERS, PauseController, PauseEvent, PauseLevel, PauseState, PauseStateView, spec_pause_prechecks,
    spec_pause_result, spec_require_admin, spec_set_level, spec_unpause_result,
};
use crate::disaster_recovery::circuit_breaker::{
    CircuitBreakerRegistry, CircuitConfig, CircuitState, CircuitStatus, CircuitStatusView, MAX_CIRCUITS, circuit_at,
    emit_opt_ok, has_circuit, observe_arith_ok, spec_emit_opt, spec_new_status, spec_observe_event, spec_observe_result,
    spec_observe_status, spec_open_ids, spec_probe_event, spec_probe_status, with_circuit,
};
use crate::disaster_recovery::recovery::{
    CheckpointView, MAX_AUDIT_ENTRIES, MAX_OPEN_PROPOSALS, ProposalStatus, RECOVERY_PROPOSAL_TTL, RecoveryActionType,
    RecoveryCouncil, RecoveryCouncilView, RecoveryManager, RecoveryProposal, RecoveryProposalView, has_proposal,
    proposal_at, spec_approve_result, spec_approve_state, spec_council_admin, spec_council_or_admin, spec_execute_result,
    spec_executed_state, spec_pending_count, spec_required_quorum, with_proposal,
};

verus! {

/// Health summary for monitoring agents.
#[derive(Debug)]
pub struct HealthStatus {
    pub is_operational: bool,
    pub pause_level: PauseLevel,
    pub open_circuit_count: u32,
    pub open_circuits: Vec<String>,
    pub pending_recovery_count: u32,
    pub has_critical_alerts: bool,
}

/// Proposals awaiting execution: pending or approved.
pub open spec fn spec_open_proposals(ps: Seq<RecoveryProposalView>) -> Seq<RecoveryProposalView> {
    ps.filter(|p: RecoveryProposalView| p.status == ProposalStatus::Pending || p.status == ProposalStatus::Approved)
}

pub struct DisasterRecoveryContract;

impl DisasterRecoveryContract {
    /// Set up pausing (operational, `admin` as admin), the recovery council
    /// and monitoring (enabled, Warning and above, 200 alerts).
    pub fn initialize(env: &mut DrEnv, admin: Address, council_members: Vec<Address>)
        requires
            old(env).wf(),
        ensures
            final(env).wf(),
            final(env)@ == (DrEnvView {
                pause_state: Some(PauseStateView {
                    level: PauseLevel::Operational,
                    paused_by: admin,
                    reason: "initialized"@,
                    paused_at: old(env).ledger,
                    unpause_after: 0,
                }),
                admin: Some(admin),
                guardians: Seq::empty(),
                council: Some(RecoveryCouncilView { members: council_members@, admin }),
                proposal_nonce: 0,
                proposals: Seq::empty(),
                monitoring: Some(MonitoringConfig {
                    enabled: true,
                    persist_threshold: AlertLevel::Warning,
                    max_stored_alerts: 200,
                }),
                ..old(env)@
            }),
    {
        PauseController::initialize(env, admin);
        RecoveryManager::initialize(env, admin, council_members);
        configure(env, admin, MonitoringConfig { enabled: true, persist_threshold: AlertLevel::Warning, max_stored_alerts: 200 });
    }

    /// Pause level, open circuits, open proposals and whether a critical
    /// alert is unresolved.
    pub fn health_check(env: &DrEnv) -> (h: HealthStatus)
        requires
            env.wf(),
            env@.pause_state is Some,
        ensures
            h.pause_level == env@.pause_state.unwrap().level,
            h.is_operational == (env@.pause_state.unwrap().level == PauseLevel::Operational),
            h.open_circuits@.map_values(|s: String| s@) == spec_open_ids(env@.circuits),
            h.open_circuit_count == spec_open_ids(env@.circuits).len(),
            h.pending_recovery_count == spec_open_proposals(env@.proposals).len(),
            h.has_critical_alerts == spec_has_active_critical(env@.alerts),
    {
        let state = PauseController::get_state(env);
        let open_circuits = CircuitBreakerRegistry::list_open_circuits(env);
        let pending = RecoveryManager::list_pending_proposals(env);
        let critical = has_active_critical_alerts(env);
        proof {
            broadcast use vstd::seq_lib::group_filter_ensures;
            assert(open_circuits@.map_values(|s: String| s@).len() == open_circuits@.len());
            assert(pending@.map_values(|p: crate::disaster_recovery::recovery::RecoveryProposal| p@).len() == pending@.len());
        }
        HealthStatus {
            is_operational: state.level == PauseLevel::Operational,
            pause_level: state.level,
            open_circuit_count: open_circuits.len() as u32,
            open_circuits,
            pending_recovery_count: pending.len() as u32,
            has_critical_alerts: critical,
        }
    }

    /// Pause at `level` (see `PauseController::pause`).
    pub fn pause(
        env: &mut DrEnv,
        caller: Address,
        level: PauseLevel,
        reason: String,
        unpause_after: u32,
    ) -> (r: Result<(), DisasterRecoveryError>)
        requires
            old(env).wf(),
            spec_pause_prechecks(old(env)@, caller, level) is Ok ==> {
                &&& old(env)@.pause_state is Some
                &&& old(env).ledger + PAUSE_COOLDOWN_LEDGERS <= u32::MAX
                &&& emit_ok(old(env)@, AlertLevel::Critical)
            },
        ensures
            final(env).wf(),
            r == spec_pause_result(old(env)@, caller, level),
            r is Err ==> final(env)@ == old(env)@,
            r is Ok ==> final(env)@ == spec_emit(
                spec_set_level(old(env)@, caller, level, reason@, unpause_after, true),
                "ContractPaused"@,
                AlertLevel::Critical,
                reason@,
            ),
    {
        PauseController::pause(env, caller, level, reason, unpause_after)
    }

    /// Return to operational.
    pub fn unpause(env: &mut DrEnv, caller: Address, reason: String) -> (r: Result<(), DisasterRecoveryError>)
        requires
            old(env).wf(),
            old(env)@.pause_state is Some,
            spec_unpause_result(old(env)@, caller) is Ok ==> {
                &&& old(env).ledger + PAUSE_COOLDOWN_LEDGERS <= u32::MAX
                &&& emit_ok(old(env)@, AlertLevel::Warning)
            },
        ensures
            final(env).wf(),
            r == spec_unpause_result(old(env)@, caller),
            r is Err ==> final(env)@ == old(env)@,
            r is Ok ==> final(env)@ == spec_emit(
                spec_set_level(old(env)@, caller, PauseLevel::Operational, reason@, 0, false),
                "ContractUnpaused"@,
                AlertLevel::Warning,
                reason@,
            ),
    {
        PauseController::unpause(env, caller, reason)
    }

    /// Add a guardian that may soft- or hard-pause.
    pub fn add_pause_guardian(env: &mut DrEnv, admin: Address, guardian: Address) -> (r: Result<(), DisasterRecoveryError>)
        requires
            old(env).wf(),
        ensures
            final(env).wf(),
            r == spec_require_admin(old(env)@, admin),
            r is Err ==> final(env)@ == old(env)@,
            r is Ok ==> final(env)@ == (DrEnvView {
                guardians: if old(env)@.guardians.contains(guardian) {
                    old(env)@.guardians
                } else {
                    old(env)@.guardians.push(guardian)
                },
                ..old(env)@
            }),
    {
        PauseController::add_guardian(env, admin, guardian)
    }

    /// Remove a pause guardian.
    pub fn remove_pause_guardian(env: &mut DrEnv, admin: Address, guardian: Address) -> (r: Result<(), DisasterRecoveryError>)
        requires
            old(env).wf(),
        ensures
            final(env).wf(),
            r == spec_require_admin(old(env)@, admin),
            r is Err ==> final(env)@ == old(env)@,
            r is Ok ==> final(env)@ == (DrEnvView { guardians: without(old(env)@.guardians, guardian), ..old(env)@ }),
    {
        PauseController::remove_guardian(env, admin, guardian)
    }

    /// The current pause state.
    pub fn get_pause_state(env: &DrEnv) -> (s: PauseState)
        requires
            env@.pause_state is Some,
        ensures
            Some(s@) == env@.pause_state,
    {
        PauseController::get_state(env)
    }

    /// Whether any pause level is in force.
    pub fn is_paused(env: &DrEnv) -> (b: bool)
        requires
            env@.pause_state is Some,
        ensures
            b == (env@.pause_state.unwrap().level != PauseLevel::Operational),
    {
        PauseController::is_paused(env)
    }

    /// The recorded pause and unpause events.
    pub fn get_pause_history(env: &DrEnv) -> (h: Vec<PauseEvent>)
        ensures
            h@.map_values(|e: PauseEvent| e@) == env@.pause_history,
    {
        PauseController::get_pause_history(env)
    }

    /// Register a circuit breaker (admin only).
    pub fn register_circuit(
        env: &mut DrEnv,
        admin: Address,
        circuit_id: String,
        config: CircuitConfig,
    ) -> (r: Result<(), DisasterRecoveryError>)
        requires
            old(env).wf(),
        ensures
            final(env).wf(),
            r == (if spec_require_admin(old(env)@, admin) is Err {
                spec_require_admin(old(env)@, admin)
            } else if config.threshold <= 0 {
                Err(DisasterRecoveryError::InvalidThreshold)
            } else if old(env)@.circuits.len() >= MAX_CIRCUITS {
                Err(DisasterRecoveryError::InvalidParameters)
            } else {
                Ok(())
            }),
            r is Err ==> final(env)@ == old(env)@,
            r is Ok ==> final(env)@ == (DrEnvView {
                circuits: with_circuit(old(env)@.circuits, circuit_id@, spec_new_status(config, old(env).ledger)),
                ..old(env)@
            }),
    {
        CircuitBreakerRegistry::register_circuit(env, admin, circuit_id, config)
    }

    /// Record an observation for a circuit; refused while it is open.
    pub fn observe_circuit(env: &mut DrEnv, circuit_id: &String, value: i128) -> (r: Result<(), DisasterRecoveryError>)
        requires
            old(env).wf(),
            has_circuit(old(env)@.circuits, circuit_id@) ==> {
                let s = circuit_at(old(env)@.circuits, circuit_id@);
                &&& observe_arith_ok(s, old(env).ledger)
                &&& emit_opt_ok(old(env)@, spec_observe_event(s, old(env).ledger, value, circuit_id@))
            },
        ensures
            final(env).wf(),
            ({
                let v = old(env)@;
                let s = circuit_at(v.circuits, circuit_id@);
                &&& r == (if !has_circuit(v.circuits, circuit_id@) {
                    Err(DisasterRecoveryError::CircuitBreakerAlreadyClosed)
                } else {
                    spec_observe_result(s, v.ledger, value)
                })
                &&& !has_circuit(v.circuits, circuit_id@) ==> final(env)@ == v
                &&& has_circuit(v.circuits, circuit_id@) ==> final(env)@ == spec_emit_opt(
                    DrEnvView {
                        circuits: with_circuit(v.circuits, circuit_id@, spec_observe_status(s, v.ledger, value)),
                        ..v
                    },
                    spec_observe_event(s, v.ledger, value, circuit_id@),
                )
            }),
    {
        CircuitBreakerRegistry::observe(env, circuit_id, value)
    }

    /// Record the result of a half-open probe.
    pub fn record_probe(env: &mut DrEnv, circuit_id: &String, success: bool) -> (r: Result<(), DisasterRecoveryError>)
        requires
            old(env).wf(),
            has_circuit(old(env)@.circuits, circuit_id@) ==> {
                let s = circuit_at(old(env)@.circuits, circuit_id@);
                s.state == CircuitState::HalfOpen ==> {
                    &&& (success ==> s.consecutive_ok < u32::MAX)
                    &&& (!success ==> s.trip_count < u32::MAX)
                    &&& emit_opt_ok(old(env)@, spec_probe_event(s, success, circuit_id@))
                }
            },
        ensures
            final(env).wf(),
            ({
                let v = old(env)@;
                let s = circuit_at(v.circuits, circuit_id@);
                &&& r == (if !has_circuit(v.circuits, circuit_id@) || s.state != CircuitState::HalfOpen {
                    Err(DisasterRecoveryError::CircuitBreakerAlreadyClosed)
                } else {
                    Ok(())
                })
                &&& r is Err ==> final(env)@ == v
                &&& r is Ok ==> final(env)@ == spec_emit_opt(
                    DrEnvView {
                        circuits: with_circuit(v.circuits, circuit_id@, spec_probe_status(s, v.ledger, success)),
                        ..v
                    },
                    spec_probe_event(s, success, circuit_id@),
                )
            }),
    {
        CircuitBreakerRegistry::record_probe_result(env, circuit_id, success)
    }

    /// Force a circuit open (admin only).
    pub fn force_open_circuit(env: &mut DrEnv, admin: Address, circuit_id: &String, reason: String) -> (r: Result<(), DisasterRecoveryError>)
        requires
            old(env).wf(),
            has_circuit(old(env)@.circuits, circuit_id@) ==> circuit_at(old(env)@.circuits, circuit_id@).trip_count < u32::MAX,
            emit_ok(old(env)@, AlertLevel::Critical),
        ensures
            final(env).wf(),
            ({
                let v = old(env)@;
                let s = circuit_at(v.circuits, circuit_id@);
                &&& r == (if spec_require_admin(v, admin) is Err {
                    spec_require_admin(v, admin)
                } else if !has_circuit(v.circuits, circuit_id@) {
                    Err(DisasterRecoveryError::CircuitBreakerAlreadyClosed)
                } else if s.state == CircuitState::Open {
                    Err(DisasterRecoveryError::CircuitBreakerAlreadyOpen)
                } else {
                    Ok(())
                })
                &&& r is Err ==> final(env)@ == v
                &&& r is Ok ==> final(env)@ == spec_emit(
                    DrEnvView {
                        circuits: with_circuit(v.circuits, circuit_id@, CircuitStatusView {
                            state: CircuitState::Open,
                            trip_count: (s.trip_count + 1) as u32,
                            tripped_at: v.ledger,
                            tripped_reason: reason@,
                            ..s
                        }),
                        ..v
                    },
                    "CircuitForcedOpen"@,
                    AlertLevel::Critical,
                    reason@,
                )
            }),
    {
        CircuitBreakerRegistry::force_open(env, admin, circuit_id, reason)
    }

    /// Force a circuit closed (admin only).
    pub fn force_close_circuit(env: &mut DrEnv, admin: Address, circuit_id: &String) -> (r: Result<(), DisasterRecoveryError>)
        requires
            old(env).wf(),
            emit_ok(old(env)@, AlertLevel::Warning),
        ensures
            final(env).wf(),
            ({
                let v = old(env)@;
                let s = circuit_at(v.circuits, circuit_id@);
                &&& r == (if spec_require_admin(v, admin) is Err {
                    spec_require_admin(v, admin)
                } else if !has_circuit(v.circuits, circuit_id@) || s.state == CircuitState::Closed {
                    Err(DisasterRecoveryError::CircuitBreakerAlreadyClosed)
                } else {
                    Ok(())
                })
                &&& r is Err ==> final(env)@ == v
                &&& r is Ok ==> final(env)@ == spec_emit(
                    DrEnvView {
                        circuits: with_circuit(v.circuits, circuit_id@, CircuitStatusView {
                            state: CircuitState::Closed,
                            window_start: v.ledger,
                            window_value: 0,
                            consecutive_ok: 0,
                            ..s
                        }),
                        ..v
                    },
                    "CircuitForceReset"@,
                    AlertLevel::Warning,
                    circuit_id@,
                )
            }),
    {
        CircuitBreakerRegistry::force_close(env, admin, circuit_id)
    }

    /// Status of one circuit.
    pub fn get_circuit_status(env: &DrEnv, circuit_id: &String) -> (r: Option<CircuitStatus>)
        requires
            env.wf(),
        ensures
            r is Some <==> has_circuit(env@.circuits, circuit_id@),
            r matches Some(s) ==> s@ == circuit_at(env@.circuits, circuit_id@),
    {
        CircuitBreakerRegistry::get_circuit_status(env, circuit_id)
    }

    /// Ids of the open circuits.
    pub fn list_open_circuits(env: &DrEnv) -> (r: Vec<String>)
        ensures
            r@.map_values(|s: String| s@) == spec_open_ids(env@.circuits),
    {
        CircuitBreakerRegistry::list_open_circuits(env)
    }

    /// Submit a recovery proposal.
    pub fn propose_recovery(
        env: &mut DrEnv,
        proposer: Address,
        action_type: RecoveryActionType,
        description: String,
        target_address: Option<Address>,
        data: Vec<u32>,
    ) -> (r: Result<u32, DisasterRecoveryError>)
        requires
            old(env).wf(),
            spec_council_or_admin(old(env)@, proposer) is Ok && spec_pending_count(old(env)@.proposals) < MAX_OPEN_PROPOSALS ==> {
                &&& old(env).proposal_nonce < u32::MAX
                &&& old(env).ledger + RECOVERY_PROPOSAL_TTL <= u32::MAX
                &&& emit_ok(old(env)@, AlertLevel::Warning)
            },
        ensures
            final(env).wf(),
            ({
                let v = old(env)@;
                &&& r == (if spec_council_or_admin(v, proposer) is Err {
                    Err(DisasterRecoveryError::NotRecoveryCouncil)
                } else if spec_pending_count(v.proposals) >= MAX_OPEN_PROPOSALS {
                    Err(DisasterRecoveryError::RecoveryAlreadyActive)
                } else {
                    Ok((v.proposal_nonce + 1) as u32)
                })
                &&& r is Err ==> final(env)@ == v
                &&& r matches Ok(id) ==> final(env)@ == spec_emit(
                    DrEnvView {
                        proposals: v.proposals.push(RecoveryProposalView {
                            id,
                            action_type,
                            proposer,
                            description: description@,
                            target_address,
                            data: data@,
                            proposed_at: v.ledger,
                            expires_at: (v.ledger + RECOVERY_PROPOSAL_TTL) as u32,
                            status: ProposalStatus::Pending,
                            approvals: Seq::empty(),
                            required_quorum: spec_required_quorum(action_type),
                            executed_at: 0,
                            executed_by: None,
                        }),
                        proposal_nonce: id,
                        ..v
                    },
                    "RecoveryProposed"@,
                    AlertLevel::Warning,
                    description@,
                )
            }),
    {
        RecoveryManager::propose(env, proposer, action_type, description, target_address, data)
    }

    /// Approve a pending recovery proposal.
    pub fn approve_recovery(env: &mut DrEnv, approver: Address, proposal_id: u32) -> (r: Result<ProposalStatus, DisasterRecoveryError>)
        requires
            old(env).wf(),
            spec_approve_result(old(env)@, approver, proposal_id) == Ok::<ProposalStatus, DisasterRecoveryError>(
                ProposalStatus::Approved,
            ) ==> emit_ok(old(env)@, AlertLevel::Warning),
        ensures
            final(env).wf(),
            r == spec_approve_result(old(env)@, approver, proposal_id),
            final(env)@ == spec_approve_state(old(env)@, approver, proposal_id),
            ({
                let v = old(env)@;
                let p = proposal_at(v, proposal_id);
                let added = RecoveryProposalView { approvals: p.approvals.push(approver), ..p };
                &&& r == Err::<ProposalStatus, DisasterRecoveryError>(DisasterRecoveryError::RecoveryExpired) ==> final(env)@
                    == with_proposal(v, proposal_id, RecoveryProposalView { status: ProposalStatus::Expired, ..p })
                &&& (r is Err && r != Err::<ProposalStatus, DisasterRecoveryError>(DisasterRecoveryError::RecoveryExpired))
                    ==> final(env)@ == v
                &&& (r is Ok && p.approvals.contains(approver)) ==> final(env)@ == v
                &&& r == Ok::<ProposalStatus, DisasterRecoveryError>(ProposalStatus::Pending) && !p.approvals.contains(approver)
                    ==> final(env)@ == with_proposal(v, proposal_id, added)
                &&& r == Ok::<ProposalStatus, DisasterRecoveryError>(ProposalStatus::Approved) ==> final(env)@ == spec_emit(
                    with_proposal(v, proposal_id, RecoveryProposalView { status: ProposalStatus::Approved, ..added }),
                    "RecoveryApproved"@,
                    AlertLevel::Warning,
                    "quorum_reached"@,
                )
            }),
    {
        RecoveryManager::approve(env, approver, proposal_id)
    }

    /// Reject a recovery proposal.
    pub fn reject_recovery(env: &mut DrEnv, rejecter: Address, proposal_id: u32) -> (r: Result<(), DisasterRecoveryError>)
        requires
            old(env).wf(),
            emit_ok(old(env)@, AlertLevel::Info),
        ensures
            final(env).wf(),
            ({
                let v = old(env)@;
                let p = proposal_at(v, proposal_id);
                &&& r == (if spec_council_or_admin(v, rejecter) is Err {
                    Err(DisasterRecoveryError::NotRecoveryCouncil)
                } else if !has_proposal(v, proposal_id) {
                    Err(DisasterRecoveryError::RecoveryNotActive)
                } else if p.status != ProposalStatus::Pending {
                    Err(DisasterRecoveryError::RecoveryAlreadyExecuted)
                } else {
                    Ok(())
                })
                &&& r is Err ==> final(env)@ == v
                &&& r is Ok ==> final(env)@ == spec_emit(
                    with_proposal(v, proposal_id, RecoveryProposalView { status: ProposalStatus::Rejected, ..p }),
                    "RecoveryRejected"@,
                    AlertLevel::Info,
                    "proposal_rejected"@,
                )
            }),
    {
        RecoveryManager::reject(env, rejecter, proposal_id)
    }

    /// Execute an approved recovery proposal.
    pub fn execute_recovery(env: &mut DrEnv, executor: Address, proposal_id: u32) -> (r: Result<RecoveryActionType, DisasterRecoveryError>)
        requires
            old(env).wf(),
            old(env).audit@.len() <= MAX_AUDIT_ENTRIES,
            emit_ok(old(env)@, AlertLevel::Warning),
        ensures
            final(env).wf(),
            final(env).audit@.len() <= MAX_AUDIT_ENTRIES,
            r == spec_execute_result(old(env)@, executor, proposal_id),
            r == Err::<RecoveryActionType, DisasterRecoveryError>(DisasterRecoveryError::RecoveryWindowClosed) ==> final(env)@
                == with_proposal(
                old(env)@,
                proposal_id,
                RecoveryProposalView { status: ProposalStatus::Expired, ..proposal_at(old(env)@, proposal_id) },
            ),
            (r is Err && r != Err::<RecoveryActionType, DisasterRecoveryError>(DisasterRecoveryError::RecoveryWindowClosed))
                ==> final(env)@ == old(env)@,
            r is Ok ==> final(env)@ == spec_executed_state(old(env)@, executor, proposal_id),
    {
        RecoveryManager::execute(env, executor, proposal_id)
    }

    /// Save a state checkpoint.
    pub fn save_checkpoint(env: &mut DrEnv, checkpoint_id: u32, state_hash: [u8; 32], description: String)
        requires
            old(env).wf(),
        ensures
            final(env).wf(),
            final(env)@ == (DrEnvView {
                checkpoints: old(env)@.checkpoints.insert(
                    checkpoint_id as u128,
                    CheckpointView {
                        id: checkpoint_id,
                        state_hash: state_hash@,
                        description: description@,
                        ledger: old(env).ledger,
                    },
                ),
                ..old(env)@
            }),
    {
        RecoveryManager::save_checkpoint(env, checkpoint_id, state_hash, description)
    }

    /// One recovery proposal.
    pub fn get_recovery_proposal(env: &DrEnv, proposal_id: u32) -> (r: Option<RecoveryProposal>)
        requires
            env.wf(),
        ensures
            r is Some <==> has_proposal(env@, proposal_id),
            r matches Some(p) ==> p@ == proposal_at(env@, proposal_id),
    {
        RecoveryManager::get_proposal(env, proposal_id)
    }

    /// The pending or approved recovery proposals.
    pub fn list_pending_recoveries(env: &DrEnv) -> (r: Vec<RecoveryProposal>)
        ensures
            r@.map_values(|p: RecoveryProposal| p@) == env@.proposals.filter(
                |p: RecoveryProposalView| p.status == ProposalStatus::Pending || p.status == ProposalStatus::Approved,
            ),
    {
        RecoveryManager::list_pending_proposals(env)
    }

    /// The recovery council.
    pub fn get_council(env: &DrEnv) -> (r: Option<RecoveryCouncil>)
        ensures
            match r {
                Some(c) => env@.council == Some(c@),
                None => env@.council is None,
            },
    {
        RecoveryManager::get_council(env)
    }

    /// Add a council member (admin only).
    pub fn add_council_member(env: &mut DrEnv, admin: Address, member: Address) -> (r: Result<(), DisasterRecoveryError>)
        requires
            old(env).wf(),
        ensures
            final(env).wf(),
            r == spec_council_admin(old(env)@, admin),
            r is Err ==> final(env)@ == old(env)@,
            r is Ok ==> ({
                let c = old(env)@.council.unwrap();
                final(env)@ == (DrEnvView {
                    council: Some(RecoveryCouncilView {
                        members: if c.members.contains(member) { c.members } else { c.members.push(member) },
                        ..c
                    }),
                    ..old(env)@
                })
            }),
    {
        RecoveryManager::add_council_member(env, admin, member)
    }

    /// Remove a council member (admin only).
    pub fn remove_council_member(env: &mut DrEnv, admin: Address, member: Address) -> (r: Result<(), DisasterRecoveryError>)
        requires
            old(env).wf(),
        ensures
            final(env).wf(),
            r == spec_council_admin(old(env)@, admin),
            r is Err ==> final(env)@ == old(env)@,
            r is Ok ==> ({
                let c = old(env)@.council.unwrap();
                final(env)@ == (DrEnvView {
                    council: Some(RecoveryCouncilView { members: without(c.members, member), ..c }),
                    ..old(env)@
                })
            }),
    {
        RecoveryManager::remove_council_member(env, admin, member)
    }

    /// Stored alerts, filtered by level and resolution.
    pub fn get_alerts(env: &DrEnv, min_level: Option<AlertLevel>, unresolved_only: bool) -> (r: Vec<Alert>)
        ensures
            r@.map_values(|a: Alert| a@) == env@.alerts.filter(|a: AlertView| selected(a, min_level, unresolved_only)),
    {
        monitoring::get_alerts(env, min_level, unresolved_only)
    }

    /// Mark an alert resolved.
    pub fn resolve_alert(env: &mut DrEnv, admin: Address, alert_id: u32)
        requires
            old(env).wf(),
        ensures
            final(env).wf(),
            final(env)@ == (DrEnvView { alerts: spec_resolved(old(env)@.alerts, alert_id), ..old(env)@ }),
    {
        monitoring::resolve_alert(env, admin, alert_id)
    }

    /// Update the monitoring configuration.
    pub fn configure_monitoring(env: &mut DrEnv, admin: Address, config: MonitoringConfig)
        requires
            old(env).wf(),
        ensures
            final(env).wf(),
            final(env)@ == (DrEnvView { monitoring: Some(config), ..old(env)@ }),
    {
        monitoring::configure(env, admin, config)
    }

    /// Whether an unresolved Critical or Fatal alert is stored.
    pub fn has_active_critical_alerts(env: &DrEnv) -> (b: bool)
        ensures
            b == spec_has_active_critical(env@.alerts),
    {
        monitoring::has_active_critical_alerts(env)
    }
}

} // verus!
