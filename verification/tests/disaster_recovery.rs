use stellara::common::Address;
use stellara::disaster_recovery::circuit_breaker::{CircuitBreakerRegistry, CircuitConfig, CircuitState, CircuitType};
use stellara::disaster_recovery::contract::DisasterRecoveryContract as C;
use stellara::disaster_recovery::env::DrEnv;
use stellara::disaster_recovery::errors::DisasterRecoveryError;
use stellara::disaster_recovery::monitoring::{self, AlertLevel, MonitoringConfig};
use stellara::disaster_recovery::pause_control::{PauseController, PauseLevel};
use stellara::disaster_recovery::recovery::{ProposalStatus, RecoveryActionType, RecoveryManager};

fn setup_env() -> (DrEnv, Address) {
    (DrEnv::new(0), Address(1))
}

fn make_council(n: u64) -> Vec<Address> {
    (0..n).map(|i| Address(100 + i)).collect()
}

fn s(x: &str) -> String {
    x.to_string()
}

fn circuit_id() -> String {
    s("transfer_volume")
}

fn make_circuit_config(circuit_type: CircuitType, threshold: i128) -> CircuitConfig {
    CircuitConfig { circuit_type, threshold, window_ledgers: 100, cooldown_ledgers: 500, auto_reset: false, enabled: true }
}

// ─── pausing ─────────────────────────────────────────────────────────────────

#[test]
fn test_initialize_creates_operational_state() {
    let (mut env, admin) = setup_env();
    PauseController::initialize(&mut env, admin);
    let state = PauseController::get_state(&env);
    assert_eq!(state.level, PauseLevel::Operational);
    assert!(!PauseController::is_paused(&env));
}

#[test]
fn test_pause_soft_pause() {
    let (mut env, admin) = setup_env();
    PauseController::initialize(&mut env, admin);
    let result = PauseController::pause(&mut env, admin, PauseLevel::SoftPause, s("Maintenance"), 0);
    assert!(result.is_ok());
    let state = PauseController::get_state(&env);
    assert_eq!(state.level, PauseLevel::SoftPause);
    assert!(PauseController::is_paused(&env));
}

#[test]
fn test_pause_hard_pause() {
    let (mut env, admin) = setup_env();
    PauseController::initialize(&mut env, admin);
    let result = PauseController::pause(&mut env, admin, PauseLevel::HardPause, s("Security incident"), 0);
    assert!(result.is_ok());
    assert_eq!(PauseController::get_state(&env).level, PauseLevel::HardPause);
}

#[test]
fn test_pause_emergency() {
    let (mut env, admin) = setup_env();
    PauseController::initialize(&mut env, admin);
    let result = PauseController::pause(&mut env, admin, PauseLevel::Emergency, s("Critical exploit detected"), 0);
    assert!(result.is_ok());
    assert_eq!(PauseController::get_state(&env).level, PauseLevel::Emergency);
}

#[test]
fn test_unpause_returns_to_operational() {
    let (mut env, admin) = setup_env();
    PauseController::initialize(&mut env, admin);
    PauseController::pause(&mut env, admin, PauseLevel::SoftPause, s("test"), 0).unwrap();
    assert!(PauseController::is_paused(&env));
    env.advance_ledger(200);
    PauseController::unpause(&mut env, admin, s("All clear")).unwrap();
    assert!(!PauseController::is_paused(&env));
    assert_eq!(PauseController::get_state(&env).level, PauseLevel::Operational);
}

#[test]
fn test_unpause_when_not_paused_returns_error() {
    let (mut env, admin) = setup_env();
    PauseController::initialize(&mut env, admin);
    let result = PauseController::unpause(&mut env, admin, s("test"));
    assert_eq!(result, Err(DisasterRecoveryError::ContractNotPaused));
}

#[test]
fn test_guardian_can_soft_pause() {
    let (mut env, admin) = setup_env();
    PauseController::initialize(&mut env, admin);
    let guardian = Address(2);
    PauseController::add_guardian(&mut env, admin, guardian).unwrap();
    let result = PauseController::pause(&mut env, guardian, PauseLevel::SoftPause, s("Guardian triggered"), 0);
    assert!(result.is_ok());
}

#[test]
fn test_guardian_cannot_emergency_pause() {
    let (mut env, admin) = setup_env();
    PauseController::initialize(&mut env, admin);
    let guardian = Address(2);
    PauseController::add_guardian(&mut env, admin, guardian).unwrap();
    let result = PauseController::pause(&mut env, guardian, PauseLevel::Emergency, s("Attempt"), 0);
    assert_eq!(result, Err(DisasterRecoveryError::NotAdmin));
}

#[test]
fn test_non_guardian_cannot_pause() {
    let (mut env, admin) = setup_env();
    PauseController::initialize(&mut env, admin);
    let random = Address(3);
    let result = PauseController::pause(&mut env, random, PauseLevel::SoftPause, s("attempt"), 0);
    assert_eq!(result, Err(DisasterRecoveryError::NotGuardian));
}

#[test]
fn test_assert_operational_fails_when_paused() {
    let (mut env, admin) = setup_env();
    PauseController::initialize(&mut env, admin);
    PauseController::pause(&mut env, admin, PauseLevel::HardPause, s("test"), 0).unwrap();
    let result = PauseController::assert_operational(&env);
    assert_eq!(result, Err(DisasterRecoveryError::ContractPaused));
}

#[test]
fn test_pause_history_recorded() {
    let (mut env, admin) = setup_env();
    PauseController::initialize(&mut env, admin);
    PauseController::pause(&mut env, admin, PauseLevel::SoftPause, s("test"), 0).unwrap();
    env.advance_ledger(200);
    PauseController::unpause(&mut env, admin, s("clear")).unwrap();
    let history = PauseController::get_pause_history(&env);
    assert!(history.len() >= 2);
}

#[test]
fn test_cooldown_prevents_rapid_pause() {
    let (mut env, admin) = setup_env();
    PauseController::initialize(&mut env, admin);
    PauseController::pause(&mut env, admin, PauseLevel::SoftPause, s("test"), 0).unwrap();
    env.advance_ledger(10);
    PauseController::unpause(&mut env, admin, s("clear")).unwrap();
    let result = PauseController::pause(&mut env, admin, PauseLevel::SoftPause, s("again"), 0);
    assert_eq!(result, Err(DisasterRecoveryError::PauseCooldownActive));
}

// ─── circuit breakers ────────────────────────────────────────────────────────

fn circuit_env() -> (DrEnv, Address) {
    let (mut env, admin) = setup_env();
    env.admin = Some(admin);
    (env, admin)
}

#[test]
fn test_register_and_observe_circuit() {
    let (mut env, admin) = circuit_env();
    let id = circuit_id();
    CircuitBreakerRegistry::register_circuit(&mut env, admin, id.clone(), make_circuit_config(CircuitType::Volume, 10)).unwrap();
    for _ in 0..9 {
        assert!(CircuitBreakerRegistry::observe(&mut env, &id, 1).is_ok());
    }
}

#[test]
fn test_circuit_trips_at_threshold() {
    let (mut env, admin) = circuit_env();
    let id = circuit_id();
    CircuitBreakerRegistry::register_circuit(&mut env, admin, id.clone(), make_circuit_config(CircuitType::Volume, 5)).unwrap();
    for _ in 0..4 {
        CircuitBreakerRegistry::observe(&mut env, &id, 1).unwrap();
    }
    let result = CircuitBreakerRegistry::observe(&mut env, &id, 1);
    assert_eq!(result, Err(DisasterRecoveryError::CircuitBreakerOpen));
    assert!(CircuitBreakerRegistry::is_circuit_open(&env, &id));
}

#[test]
fn test_open_circuit_rejects_all_observations() {
    let (mut env, admin) = circuit_env();
    let id = circuit_id();
    CircuitBreakerRegistry::register_circuit(&mut env, admin, id.clone(), make_circuit_config(CircuitType::Volume, 1)).unwrap();
    let _ = CircuitBreakerRegistry::observe(&mut env, &id, 1);
    let result = CircuitBreakerRegistry::observe(&mut env, &id, 1);
    assert_eq!(result, Err(DisasterRecoveryError::CircuitBreakerOpen));
}

#[test]
fn test_circuit_transitions_to_half_open_after_cooldown() {
    let (mut env, admin) = circuit_env();
    let id = circuit_id();
    let mut config = make_circuit_config(CircuitType::Volume, 1);
    config.cooldown_ledgers = 100;
    CircuitBreakerRegistry::register_circuit(&mut env, admin, id.clone(), config).unwrap();
    let _ = CircuitBreakerRegistry::observe(&mut env, &id, 1);
    env.advance_ledger(101);
    let result = CircuitBreakerRegistry::observe(&mut env, &id, 1);
    assert!(result.is_ok());
    let status = CircuitBreakerRegistry::get_circuit_status(&env, &id).unwrap();
    assert_eq!(status.state, CircuitState::HalfOpen);
}

#[test]
fn test_circuit_closes_after_successful_probes() {
    let (mut env, admin) = circuit_env();
    let id = circuit_id();
    let mut config = make_circuit_config(CircuitType::Volume, 1);
    config.cooldown_ledgers = 100;
    CircuitBreakerRegistry::register_circuit(&mut env, admin, id.clone(), config).unwrap();
    let _ = CircuitBreakerRegistry::observe(&mut env, &id, 1);
    env.advance_ledger(101);
    let _ = CircuitBreakerRegistry::observe(&mut env, &id, 1);
    for _ in 0..3 {
        CircuitBreakerRegistry::record_probe_result(&mut env, &id, true).unwrap();
    }
    let status = CircuitBreakerRegistry::get_circuit_status(&env, &id).unwrap();
    assert_eq!(status.state, CircuitState::Closed);
}

#[test]
fn test_failed_probe_reopens_circuit() {
    let (mut env, admin) = circuit_env();
    let id = circuit_id();
    let mut config = make_circuit_config(CircuitType::Volume, 1);
    config.cooldown_ledgers = 100;
    CircuitBreakerRegistry::register_circuit(&mut env, admin, id.clone(), config).unwrap();
    let _ = CircuitBreakerRegistry::observe(&mut env, &id, 1);
    env.advance_ledger(101);
    let _ = CircuitBreakerRegistry::observe(&mut env, &id, 1);
    CircuitBreakerRegistry::record_probe_result(&mut env, &id, false).unwrap();
    let status = CircuitBreakerRegistry::get_circuit_status(&env, &id).unwrap();
    assert_eq!(status.state, CircuitState::Open);
}

#[test]
fn test_force_open_and_close() {
    let (mut env, admin) = circuit_env();
    let id = circuit_id();
    CircuitBreakerRegistry::register_circuit(&mut env, admin, id.clone(), make_circuit_config(CircuitType::Volume, 1000)).unwrap();
    CircuitBreakerRegistry::force_open(&mut env, admin, &id, s("manual")).unwrap();
    assert!(CircuitBreakerRegistry::is_circuit_open(&env, &id));
    CircuitBreakerRegistry::force_close(&mut env, admin, &id).unwrap();
    assert!(!CircuitBreakerRegistry::is_circuit_open(&env, &id));
}

#[test]
fn test_liquidity_circuit_triggers_below_threshold() {
    let (mut env, admin) = circuit_env();
    let id = s("liquidity_guard");
    CircuitBreakerRegistry::register_circuit(&mut env, admin, id.clone(), make_circuit_config(CircuitType::Liquidity, 1_000_000)).unwrap();
    assert!(CircuitBreakerRegistry::observe(&mut env, &id, 5_000_000).is_ok());
    let result = CircuitBreakerRegistry::observe(&mut env, &id, 500_000);
    assert_eq!(result, Err(DisasterRecoveryError::CircuitBreakerOpen));
}

#[test]
fn test_list_open_circuits() {
    let (mut env, admin) = circuit_env();
    let id1 = s("circuit_a");
    let id2 = s("circuit_b");
    CircuitBreakerRegistry::register_circuit(&mut env, admin, id1.clone(), make_circuit_config(CircuitType::Volume, 1)).unwrap();
    CircuitBreakerRegistry::register_circuit(&mut env, admin, id2.clone(), make_circuit_config(CircuitType::Volume, 1000)).unwrap();
    let _ = CircuitBreakerRegistry::observe(&mut env, &id1, 1);
    let _ = CircuitBreakerRegistry::observe(&mut env, &id2, 1);
    let open = CircuitBreakerRegistry::list_open_circuits(&env);
    assert_eq!(open.len(), 1);
    assert_eq!(open[0], id1);
}

// ─── recovery proposals ──────────────────────────────────────────────────────

fn recovery_env(n: u64) -> (DrEnv, Address, Vec<Address>) {
    let (mut env, admin) = setup_env();
    let council = make_council(n);
    RecoveryManager::initialize(&mut env, admin, council.clone());
    (env, admin, council)
}

fn propose_reset(env: &mut DrEnv, proposer: Address, description: &str) -> u32 {
    RecoveryManager::propose(env, proposer, RecoveryActionType::ResetCircuits, s(description), None, Vec::new()).unwrap()
}

#[test]
fn test_propose_recovery() {
    let (mut env, _admin, council) = recovery_env(3);
    let id = propose_reset(&mut env, council[0], "Reset after incident");
    assert_eq!(id, 1);
    let proposal = RecoveryManager::get_proposal(&env, id).unwrap();
    assert_eq!(proposal.status, ProposalStatus::Pending);
}

#[test]
fn test_approve_reaches_quorum() {
    let (mut env, _admin, council) = recovery_env(3);
    let id = propose_reset(&mut env, council[0], "test");
    let s1 = RecoveryManager::approve(&mut env, council[0], id).unwrap();
    assert_eq!(s1, ProposalStatus::Pending);
    let s2 = RecoveryManager::approve(&mut env, council[1], id).unwrap();
    assert_eq!(s2, ProposalStatus::Approved);
}

#[test]
fn test_execute_approved_proposal() {
    let (mut env, _admin, council) = recovery_env(3);
    let id = propose_reset(&mut env, council[0], "test");
    RecoveryManager::approve(&mut env, council[0], id).unwrap();
    RecoveryManager::approve(&mut env, council[1], id).unwrap();
    let action = RecoveryManager::execute(&mut env, council[0], id).unwrap();
    assert_eq!(action, RecoveryActionType::ResetCircuits);
    let proposal = RecoveryManager::get_proposal(&env, id).unwrap();
    assert_eq!(proposal.status, ProposalStatus::Executed);
}

#[test]
fn test_cannot_execute_without_quorum() {
    let (mut env, _admin, council) = recovery_env(3);
    let id = propose_reset(&mut env, council[0], "test");
    RecoveryManager::approve(&mut env, council[0], id).unwrap();
    let result = RecoveryManager::execute(&mut env, council[0], id);
    assert_eq!(result, Err(DisasterRecoveryError::InsufficientQuorum));
}

#[test]
fn test_reject_proposal() {
    let (mut env, _admin, council) = recovery_env(3);
    let id = propose_reset(&mut env, council[0], "test");
    RecoveryManager::reject(&mut env, council[1], id).unwrap();
    let proposal = RecoveryManager::get_proposal(&env, id).unwrap();
    assert_eq!(proposal.status, ProposalStatus::Rejected);
}

#[test]
fn test_expired_proposal_cannot_execute() {
    let (mut env, _admin, council) = recovery_env(3);
    let id = propose_reset(&mut env, council[0], "test");
    RecoveryManager::approve(&mut env, council[0], id).unwrap();
    RecoveryManager::approve(&mut env, council[1], id).unwrap();
    env.advance_ledger(3000);
    let result = RecoveryManager::execute(&mut env, council[0], id);
    assert_eq!(result, Err(DisasterRecoveryError::RecoveryWindowClosed));
}

#[test]
fn test_admin_rotation_requires_high_quorum() {
    let (mut env, admin, council) = recovery_env(4);
    let new_admin = Address(50);
    let id = RecoveryManager::propose(
        &mut env,
        admin,
        RecoveryActionType::AdminRotation,
        s("Rotate compromised admin"),
        Some(new_admin),
        Vec::new(),
    )
    .unwrap();
    let proposal = RecoveryManager::get_proposal(&env, id).unwrap();
    assert_eq!(proposal.required_quorum, 3);
    RecoveryManager::approve(&mut env, council[0], id).unwrap();
    RecoveryManager::approve(&mut env, council[1], id).unwrap();
    let result = RecoveryManager::execute(&mut env, council[0], id);
    assert_eq!(result, Err(DisasterRecoveryError::InsufficientQuorum));
    RecoveryManager::approve(&mut env, council[2], id).unwrap();
    let action = RecoveryManager::execute(&mut env, council[0], id).unwrap();
    assert_eq!(action, RecoveryActionType::AdminRotation);
}

#[test]
fn test_cannot_double_approve() {
    let (mut env, _admin, council) = recovery_env(3);
    let id = propose_reset(&mut env, council[0], "test");
    RecoveryManager::approve(&mut env, council[0], id).unwrap();
    RecoveryManager::approve(&mut env, council[0], id).unwrap();
    let proposal = RecoveryManager::get_proposal(&env, id).unwrap();
    assert_eq!(proposal.approvals.len(), 1);
}

#[test]
fn test_list_pending_proposals() {
    let (mut env, _admin, council) = recovery_env(3);
    propose_reset(&mut env, council[0], "p1");
    RecoveryManager::propose(&mut env, council[0], RecoveryActionType::DataRepair, s("p2"), None, Vec::new()).unwrap();
    let pending = RecoveryManager::list_pending_proposals(&env);
    assert_eq!(pending.len(), 2);
}

// ─── monitoring ──────────────────────────────────────────────────────────────

fn monitoring_config(threshold: AlertLevel) -> MonitoringConfig {
    MonitoringConfig { enabled: true, persist_threshold: threshold, max_stored_alerts: 200 }
}

#[test]
fn test_emit_and_retrieve_alert() {
    let (mut env, admin) = setup_env();
    monitoring::configure(&mut env, admin, monitoring_config(AlertLevel::Warning));
    monitoring::emit_event(&mut env, "TestEvent", AlertLevel::Critical, &s("test message"));
    let alerts = monitoring::get_alerts(&env, None, false);
    assert!(alerts.len() >= 1);
}

#[test]
fn test_below_threshold_not_stored() {
    let (mut env, admin) = setup_env();
    monitoring::configure(&mut env, admin, monitoring_config(AlertLevel::Warning));
    monitoring::emit_event(&mut env, "InfoEvent", AlertLevel::Info, &s("low priority"));
    let alerts = monitoring::get_alerts(&env, None, false);
    assert_eq!(alerts.len(), 0);
}

#[test]
fn test_resolve_alert() {
    let (mut env, admin) = setup_env();
    monitoring::configure(&mut env, admin, monitoring_config(AlertLevel::Info));
    monitoring::emit_event(&mut env, "Evt", AlertLevel::Critical, &s("msg"));
    let alerts = monitoring::get_alerts(&env, None, false);
    let alert_id = alerts[0].id;
    monitoring::resolve_alert(&mut env, admin, alert_id);
    let unresolved = monitoring::get_alerts(&env, None, true);
    assert_eq!(unresolved.len(), 0);
}

#[test]
fn test_has_active_critical_alerts() {
    let (mut env, admin) = setup_env();
    monitoring::configure(&mut env, admin, monitoring_config(AlertLevel::Info));
    assert!(!monitoring::has_active_critical_alerts(&env));
    monitoring::emit_event(&mut env, "Crit", AlertLevel::Critical, &s("crisis"));
    assert!(monitoring::has_active_critical_alerts(&env));
}

// ─── the whole flow ──────────────────────────────────────────────────────────

#[test]
fn test_full_disaster_recovery_flow() {
    let (mut env, admin) = setup_env();
    env.admin = Some(admin);
    let council = make_council(3);
    RecoveryManager::initialize(&mut env, admin, council.clone());
    PauseController::initialize(&mut env, admin);
    monitoring::configure(&mut env, admin, monitoring_config(AlertLevel::Info));

    let id = s("exploit_guard");
    CircuitBreakerRegistry::register_circuit(
        &mut env,
        admin,
        id.clone(),
        CircuitConfig { circuit_type: CircuitType::Volume, threshold: 5, window_ledgers: 100, cooldown_ledgers: 500, auto_reset: false, enabled: true },
    )
    .unwrap();
    for i in 0..5 {
        let result = CircuitBreakerRegistry::observe(&mut env, &id, 1);
        if i < 4 {
            assert!(result.is_ok(), "Should be OK on observation {}", i);
        } else {
            assert_eq!(result, Err(DisasterRecoveryError::CircuitBreakerOpen));
        }
    }
    assert!(CircuitBreakerRegistry::is_circuit_open(&env, &id));

    PauseController::pause(&mut env, admin, PauseLevel::Emergency, s("Exploit detected - circuit tripped"), 0).unwrap();
    assert_eq!(PauseController::get_state(&env).level, PauseLevel::Emergency);

    let proposal_id = propose_reset(&mut env, council[0], "Reset circuits after patch");
    RecoveryManager::approve(&mut env, council[0], proposal_id).unwrap();
    RecoveryManager::approve(&mut env, council[1], proposal_id).unwrap();
    RecoveryManager::execute(&mut env, council[0], proposal_id).unwrap();
    assert!(!CircuitBreakerRegistry::is_circuit_open(&env, &id));

    PauseController::unpause(&mut env, admin, s("Incident resolved")).unwrap();
    assert!(!PauseController::is_paused(&env));
    assert_eq!(PauseController::get_state(&env).level, PauseLevel::Operational);
    assert_eq!(RecoveryManager::get_proposal(&env, proposal_id).unwrap().status, ProposalStatus::Executed);
}

// ─── the contract's own entry points ─────────────────────────────────────────

#[test]
fn dr_contract_entry_points_and_health() {
    let (mut env, admin) = setup_env();
    let council = make_council(3);
    C::initialize(&mut env, admin, council.clone());
    let health = C::health_check(&env);
    assert!(health.is_operational);
    assert_eq!((health.open_circuit_count, health.pending_recovery_count, health.has_critical_alerts), (0, 0, false));

    let id = s("withdrawals");
    C::register_circuit(&mut env, admin, id.clone(), make_circuit_config(CircuitType::Volume, 2)).unwrap();
    C::observe_circuit(&mut env, &id, 1).unwrap();
    assert_eq!(C::observe_circuit(&mut env, &id, 1), Err(DisasterRecoveryError::CircuitBreakerOpen));
    assert_eq!(C::list_open_circuits(&env), vec![id.clone()]);
    C::pause(&mut env, admin, PauseLevel::HardPause, s("circuit tripped"), 0).unwrap();
    assert!(C::is_paused(&env));
    assert_eq!(C::get_pause_state(&env).level, PauseLevel::HardPause);
    let p = C::propose_recovery(&mut env, council[0], RecoveryActionType::ResetCircuits, s("reset"), None, Vec::new()).unwrap();
    assert_eq!(C::approve_recovery(&mut env, council[1], p), Ok(ProposalStatus::Pending));
    assert_eq!(C::approve_recovery(&mut env, council[2], p), Ok(ProposalStatus::Approved));
    let health = C::health_check(&env);
    assert!(!health.is_operational);
    assert_eq!(health.pause_level, PauseLevel::HardPause);
    assert_eq!((health.open_circuit_count, health.pending_recovery_count), (1, 1));
    // The hard pause and the tripped circuit were both recorded as critical alerts.
    assert!(health.has_critical_alerts);
    assert_eq!(C::execute_recovery(&mut env, council[0], p), Ok(RecoveryActionType::ResetCircuits));
    assert!(C::list_open_circuits(&env).is_empty());
    assert!(C::list_pending_recoveries(&env).is_empty());
    assert_eq!(C::get_council(&env).unwrap().members.len(), 3);
    C::add_council_member(&mut env, admin, Address(200)).unwrap();
    assert_eq!(C::get_council(&env).unwrap().members.len(), 4);
    C::remove_council_member(&mut env, admin, Address(200)).unwrap();
    assert_eq!(C::get_pause_history(&env).len(), 1);
    for a in C::get_alerts(&env, Some(AlertLevel::Critical), true) {
        C::resolve_alert(&mut env, admin, a.id);
    }
    assert!(!C::has_active_critical_alerts(&env));
}

#[test]
fn open_circuits_are_listed_in_id_order() {
    let (mut env, admin) = circuit_env();
    for id in ["withdraw", "deposit", "swap"] {
        CircuitBreakerRegistry::register_circuit(&mut env, admin, s(id), make_circuit_config(CircuitType::Volume, 1)).unwrap();
    }
    for id in ["swap", "withdraw", "deposit"] {
        let _ = CircuitBreakerRegistry::observe(&mut env, &s(id), 1);
    }
    assert_eq!(CircuitBreakerRegistry::list_open_circuits(&env), vec![s("deposit"), s("swap"), s("withdraw")]);
}
