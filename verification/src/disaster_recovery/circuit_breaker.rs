//! Circuit breakers: a circuit trips (opens) when its measurement crosses a
//! threshold, lets a probe through after a cooldown (half-open), and closes
//! again after three good probes.

use vstd::prelude::*;
use crate::common::{
    Address, lemma_str_lt_irreflexive, lemma_str_lt_total, lemma_str_lt_transitive, sat_add_i128, spec_sat_add_i128,
    str_less, str_lt,
};
use crate::disaster_recovery::pause_control::spec_require_admin;
use crate::disaster_recovery::env::{DrEnv, DrEnvView};
use crate::disaster_recovery::errors::DisasterRecoveryError;
use crate::disaster_recovery::monitoring::{AlertLevel, emit_event, emit_ok, spec_emit};

verus! {

/// Ledgers to wait before a probe, by default.
pub const DEFAULT_COOLDOWN_LEDGERS: u32 = 500;
/// Most circuits that can be registered.
pub const MAX_CIRCUITS: u32 = 20;
/// Ledgers in a measurement window, by default.
pub const DEFAULT_WINDOW_LEDGERS: u32 = 100;

#[derive(Clone, Copy, Debug, PartialEq, Eq, Structural)]
pub enum CircuitState {
    Closed,
    Open,
    HalfOpen,
}

#[derive(Clone, Copy, Debug, PartialEq, Eq, Structural)]
pub enum CircuitType {
    /// Transaction count per window.
    Volume,
    /// Value moved per window.
    ValueFlow,
    /// Errors per window.
    ErrorRate,
    /// Price deviation.
    PriceDrift,
    /// Latest liquidity; trips below the threshold.
    Liquidity,
}

#[derive(Clone, Copy, Debug, PartialEq, Eq, Structural)]
pub struct CircuitConfig {
    pub circuit_type: CircuitType,
    pub threshold: i128,
    pub window_ledgers: u32,
    pub cooldown_ledgers: u32,
    pub auto_reset: bool,
    pub enabled: bool,
}

#[derive(Debug)]
pub struct CircuitStatus {
    pub state: CircuitState,
    pub config: CircuitConfig,
    pub window_start: u32,
    pub window_value: i128,
    pub trip_count: u32,
    pub tripped_at: u32,
    pub tripped_reason: String,
    pub last_probe_at: u32,
    pub consecutive_ok: u32,
}

pub struct CircuitStatusView {
    pub state: CircuitState,
    pub config: CircuitConfig,
    pub window_start: u32,
    pub window_value: i128,
    pub trip_count: u32,
    pub tripped_at: u32,
    pub tripped_reason: Seq<char>,
    pub last_probe_at: u32,
    pub consecutive_ok: u32,
}

impl View for CircuitStatus {
    type V = CircuitStatusView;

    open spec fn view(&self) -> CircuitStatusView {
        CircuitStatusView {
            state: self.state,
            config: self.config,
            window_start: self.window_start,
            window_value: self.window_value,
            trip_count: self.trip_count,
            tripped_at: self.tripped_at,
            tripped_reason: self.tripped_reason@,
            last_probe_at: self.last_probe_at,
            consecutive_ok: self.consecutive_ok,
        }
    }
}

/// A circuit state change, as reported to indexers.
#[derive(Debug)]
pub struct CircuitBreakEvent {
    pub circuit_id: String,
    pub new_state: CircuitState,
    pub ledger: u32,
    pub reason: String,
    pub value: i128,
}

pub fn copy_status(s: &CircuitStatus) -> (c: CircuitStatus)
    ensures
        c@ == s@,
{
    CircuitStatus {
        state: s.state,
        config: s.config,
        window_start: s.window_start,
        window_value: s.window_value,
        trip_count: s.trip_count,
        tripped_at: s.tripped_at,
        tripped_reason: s.tripped_reason.clone(),
        last_probe_at: s.last_probe_at,
        consecutive_ok: s.consecutive_ok,
    }
}

/// Whether a circuit `id` is registered.
pub open spec fn has_circuit(c: Seq<(Seq<char>, CircuitStatusView)>, id: Seq<char>) -> bool {
    exists|i: int| 0 <= i < c.len() && (#[trigger] c[i]).0 == id
}

/// Position of circuit `id`.
pub open spec fn circuit_index(c: Seq<(Seq<char>, CircuitStatusView)>, id: Seq<char>) -> int {
    choose|i: int| 0 <= i < c.len() && (#[trigger] c[i]).0 == id
}

/// Status of circuit `id`.
pub open spec fn circuit_at(c: Seq<(Seq<char>, CircuitStatusView)>, id: Seq<char>) -> CircuitStatusView {
    c[circuit_index(c, id)].1
}

/// Where a new circuit `id` goes among ids kept in order: after every id
/// that sorts before it.
pub open spec fn insert_pos(c: Seq<(Seq<char>, CircuitStatusView)>, id: Seq<char>) -> int {
    choose|p: int| #[trigger] is_insert_pos(c, id, p)
}

/// Every id before `p` sorts before `id`, none from `p` on does.
pub open spec fn is_insert_pos(c: Seq<(Seq<char>, CircuitStatusView)>, id: Seq<char>, p: int) -> bool {
    &&& 0 <= p <= c.len()
    &&& forall|i: int| 0 <= i < p ==> str_lt(#[trigger] c[i].0, id)
    &&& forall|i: int| p <= i < c.len() ==> !str_lt(#[trigger] c[i].0, id)
}

/// The circuits with `id`'s status replaced (or `id` added in id order).
pub open spec fn with_circuit(
    c: Seq<(Seq<char>, CircuitStatusView)>,
    id: Seq<char>,
    s: CircuitStatusView,
) -> Seq<(Seq<char>, CircuitStatusView)> {
    if has_circuit(c, id) {
        c.update(circuit_index(c, id), (id, s))
    } else {
        c.insert(insert_pos(c, id), (id, s))
    }
}

/// An event to report, if any: name, level and message.
pub open spec fn spec_emit_opt(v: DrEnvView, ev: Option<(Seq<char>, AlertLevel, Seq<char>)>) -> DrEnvView {
    match ev {
        Some(e) => spec_emit(v, e.0, e.1, e.2),
        None => v,
    }
}

pub open spec fn emit_opt_ok(v: DrEnvView, ev: Option<(Seq<char>, AlertLevel, Seq<char>)>) -> bool {
    ev matches Some(e) ==> emit_ok(v, e.1)
}

/// Why a circuit of type `t` tripped.
pub open spec fn trip_reason(t: CircuitType) -> Seq<char> {
    match t {
        CircuitType::Volume => "volume_threshold_exceeded"@,
        CircuitType::ValueFlow => "value_flow_threshold_exceeded"@,
        CircuitType::ErrorRate => "error_rate_threshold_exceeded"@,
        CircuitType::PriceDrift => "price_drift_threshold_exceeded"@,
        CircuitType::Liquidity => "liquidity_below_minimum"@,
    }
}

/// Whether a measured value crosses the threshold: below it for liquidity,
/// at or above it for everything else.
pub open spec fn crosses(t: CircuitType, value: int, threshold: int) -> bool {
    if t == CircuitType::Liquidity {
        value < threshold
    } else {
        value >= threshold
    }
}

/// The window and value of a closed circuit after measuring `value` at
/// ledger `now`: an expired window restarts; liquidity keeps the latest value,
/// everything else accumulates (saturating).
pub open spec fn measured(s: CircuitStatusView, now: u32, value: i128) -> (u32, i128) {
    let (start, acc) = if now >= s.window_start + s.config.window_ledgers {
        (now, 0i128)
    } else {
        (s.window_start, s.window_value)
    };
    if s.config.circuit_type == CircuitType::Liquidity {
        (start, value)
    } else {
        (start, spec_sat_add_i128(acc as int, value as int))
    }
}

/// The contract's arithmetic on an observation does not overflow.
pub open spec fn observe_arith_ok(s: CircuitStatusView, now: u32) -> bool {
    &&& (s.config.enabled && s.state == CircuitState::Open) ==> s.tripped_at + s.config.cooldown_ledgers <= u32::MAX
    &&& (s.config.enabled && s.state == CircuitState::Closed) ==> {
        &&& s.window_start + s.config.window_ledgers <= u32::MAX
        &&& s.trip_count < u32::MAX
    }
}

/// Result of an observation on a circuit in status `s`.
pub open spec fn spec_observe_result(s: CircuitStatusView, now: u32, value: i128) -> Result<(), DisasterRecoveryError> {
    if !s.config.enabled {
        Ok(())
    } else if s.state == CircuitState::Open {
        if now >= s.tripped_at + s.config.cooldown_ledgers {
            Ok(())
        } else {
            Err(DisasterRecoveryError::CircuitBreakerOpen)
        }
    } else if s.state == CircuitState::HalfOpen {
        Ok(())
    } else if crosses(s.config.circuit_type, measured(s, now, value).1 as int, s.config.threshold as int) {
        Err(DisasterRecoveryError::CircuitBreakerOpen)
    } else {
        Ok(())
    }
}

/// Status of the circuit after the observation.
pub open spec fn spec_observe_status(s: CircuitStatusView, now: u32, value: i128) -> CircuitStatusView {
    let (start, val) = measured(s, now, value);
    if !s.config.enabled {
        s
    } else if s.state == CircuitState::Open {
        if now >= s.tripped_at + s.config.cooldown_ledgers {
            CircuitStatusView { state: CircuitState::HalfOpen, last_probe_at: now, consecutive_ok: 0, ..s }
        } else {
            s
        }
    } else if s.state == CircuitState::HalfOpen {
        s
    } else if crosses(s.config.circuit_type, val as int, s.config.threshold as int) {
        CircuitStatusView {
            state: CircuitState::Open,
            trip_count: (s.trip_count + 1) as u32,
            tripped_at: now,
            tripped_reason: trip_reason(s.config.circuit_type),
            window_value: 0,
            window_start: now,
            ..s
        }
    } else {
        CircuitStatusView { window_start: start, window_value: val, ..s }
    }
}

/// Event reported by the observation.
pub open spec fn spec_observe_event(s: CircuitStatusView, now: u32, value: i128, id: Seq<char>) -> Option<
    (Seq<char>, AlertLevel, Seq<char>),
> {
    if !s.config.enabled {
        None
    } else if s.state == CircuitState::Open {
        if now >= s.tripped_at + s.config.cooldown_ledgers {
            Some(("CircuitHalfOpen"@, AlertLevel::Warning, id))
        } else {
            None
        }
    } else if s.state == CircuitState::HalfOpen {
        None
    } else if crosses(s.config.circuit_type, measured(s, now, value).1 as int, s.config.threshold as int) {
        Some(("CircuitTripped"@, AlertLevel::Critical, trip_reason(s.config.circuit_type)))
    } else {
        None
    }
}

/// Status after a probe result.
pub open spec fn spec_probe_status(s: CircuitStatusView, now: u32, success: bool) -> CircuitStatusView {
    if success {
        if s.consecutive_ok + 1 >= 3 {
            CircuitStatusView { state: CircuitState::Closed, window_start: now, window_value: 0, consecutive_ok: 0, ..s }
        } else {
            CircuitStatusView { consecutive_ok: (s.consecutive_ok + 1) as u32, ..s }
        }
    } else {
        CircuitStatusView {
            state: CircuitState::Open,
            tripped_at: now,
            trip_count: (s.trip_count + 1) as u32,
            consecutive_ok: 0,
            ..s
        }
    }
}

pub open spec fn spec_probe_event(s: CircuitStatusView, success: bool, id: Seq<char>) -> Option<(Seq<char>, AlertLevel, Seq<char>)> {
    if success {
        if s.consecutive_ok + 1 >= 3 {
            Some(("CircuitClosed"@, AlertLevel::Info, id))
        } else {
            None
        }
    } else {
        Some(("CircuitReopened"@, AlertLevel::Critical, id))
    }
}

/// A freshly registered circuit.
pub open spec fn spec_new_status(config: CircuitConfig, now: u32) -> CircuitStatusView {
    CircuitStatusView {
        state: CircuitState::Closed,
        config,
        window_start: now,
        window_value: 0,
        trip_count: 0,
        tripped_at: 0,
        tripped_reason: Seq::empty(),
        last_probe_at: 0,
        consecutive_ok: 0,
    }
}

/// Ids of the open circuits, in storage order.
pub open spec fn spec_open_ids(c: Seq<(Seq<char>, CircuitStatusView)>) -> Seq<Seq<char>> {
    c.filter(|e: (Seq<char>, CircuitStatusView)| e.1.state == CircuitState::Open).map_values(
        |e: (Seq<char>, CircuitStatusView)| e.0,
    )
}

pub struct CircuitBreakerRegistry;

impl CircuitBreakerRegistry {
    fn require_admin(env: &DrEnv, caller: Address) -> (r: Result<(), DisasterRecoveryError>)
        ensures
            r == spec_require_admin(env@, caller),
    {
        match env.admin {
            Some(a) => if a == caller {
                Ok(())
            } else {
                Err(DisasterRecoveryError::NotAdmin)
            },
            None => Err(DisasterRecoveryError::NotAdmin),
        }
    }

    fn find(env: &DrEnv, id: &String) -> (r: Option<usize>)
        requires
            env.wf(),
        ensures
            r is Some <==> has_circuit(env@.circuits, id@),
            r matches Some(i) ==> i < env@.circuits.len() && i == circuit_index(env@.circuits, id@)
                && env@.circuits[i as int].0 == id@,
    {
        let mut i: usize = 0;
        while i < env.circuits.len()
            invariant
                env.wf(),
                0 <= i <= env.circuits@.len(),
                forall|j: int| 0 <= j < i ==> (#[trigger] env@.circuits[j]).0 != id@,
            decreases env.circuits@.len() - i,
        {
            assert(env@.circuits[i as int].0 == env.circuits@[i as int].0@);
            if env.circuits[i].0 == *id {
                proof {
                    let c = env@.circuits;
                    assert(has_circuit(c, id@));
                    let k = circuit_index(c, id@);
                    if k != i {
                        if k < i {
                            assert(c[k].0 != id@);
                        } else {
                            assert(c[i as int].0 != c[k].0);
                        }
                    }
                }
                return Some(i);
            }
            i = i + 1;
        }
        None
    }

    /// Store `status` under position `i`, which holds circuit `id`.
    fn store(env: &mut DrEnv, i: usize, id: &String, status: CircuitStatus)
        requires
            old(env).wf(),
            i < old(env)@.circuits.len(),
            old(env)@.circuits[i as int].0 == id@,
        ensures
            final(env).wf(),
            final(env)@ == (DrEnvView { circuits: old(env)@.circuits.update(i as int, (id@, status@)), ..old(env)@ }),
    {
        env.circuits.set(i, (id.clone(), status));
        assert(env@.circuits =~= old(env)@.circuits.update(i as int, (id@, status@)));
        assert forall|a: int, b: int| 0 <= a < b < env@.circuits.len() implies str_lt(
            (#[trigger] env@.circuits[a]).0,
            (#[trigger] env@.circuits[b]).0,
        ) by {
            assert(env@.circuits[a].0 == old(env)@.circuits[a].0);
            assert(env@.circuits[b].0 == old(env)@.circuits[b].0);
        }
        assert(env@ =~= DrEnvView { circuits: old(env)@.circuits.update(i as int, (id@, status@)), ..old(env)@ });
    }

    /// Register circuit `circuit_id` (admin only). A positive threshold is
    /// required and at most twenty circuits are kept; registering an id again
    /// resets it.
    pub fn register_circuit(
        env: &mut DrEnv,
        admin: Address,
        circuit_id: String,
        config: CircuitConfig,
    ) -> (r: Result<(), DisasterRecoveryError>)
        requires
            old(env).wf(),
        ensures
            final(env).wf(),
            r == (if spec_require_admin(old(env)@, admin) is Err {
                spec_require_admin(old(env)@, admin)
            } else if config.threshold <= 0 {
                Err(DisasterRecoveryError::InvalidThreshold)
            } else if old(env)@.circuits.len() >= MAX_CIRCUITS {
                Err(DisasterRecoveryError::InvalidParameters)
            } else {
                Ok(())
            }),
            r is Err ==> final(env)@ == old(env)@,
            r is Ok ==> final(env)@ == (DrEnvView {
                circuits: with_circuit(old(env)@.circuits, circuit_id@, spec_new_status(config, old(env).ledger)),
                ..old(env)@
            }),
    {
        match Self::require_admin(env, admin) {
            Err(e) => return Err(e),
            Ok(()) => {},
        }
        if config.threshold <= 0 {
            return Err(DisasterRecoveryError::InvalidThreshold);
        }
        if env.circuits.len() >= MAX_CIRCUITS as usize {
            return Err(DisasterRecoveryError::InvalidParameters);
        }
        let status = CircuitStatus {
            state: CircuitState::Closed,
            config,
            window_start: env.ledger,
            window_value: 0,
            trip_count: 0,
            tripped_at: 0,
            tripped_reason: String::new(),
            last_probe_at: 0,
            consecutive_ok: 0,
        };
        match Self::find(env, &circuit_id) {
            Some(i) => Self::store(env, i, &circuit_id, status),
            None => {
                let ghost v = env@;
                let ghost c = v.circuits;
                let mut p: usize = 0;
                while p < env.circuits.len() && str_less(&env.circuits[p].0, &circuit_id)
                    invariant
                        env.wf(),
                        env@ == v,
                        c == v.circuits,
                        0 <= p <= c.len(),
                        forall|i: int| 0 <= i < p ==> str_lt(#[trigger] c[i].0, circuit_id@),
                    decreases c.len() - p,
                {
                    assert(env@.circuits[p as int].0 == env.circuits@[p as int].0@);
                    p = p + 1;
                }
                proof {
                    if p < c.len() {
                        assert(env@.circuits[p as int].0 == env.circuits@[p as int].0@);
                        assert(!str_lt(c[p as int].0, circuit_id@));
                    }
                    assert forall|i: int| p <= i < c.len() implies !str_lt(#[trigger] c[i].0, circuit_id@) by {
                        if i > p && str_lt(c[i].0, circuit_id@) {
                            lemma_str_lt_transitive(c[p as int].0, c[i].0, circuit_id@);
                        }
                    }
                    assert(is_insert_pos(c, circuit_id@, p as int));
                    let q = insert_pos(c, circuit_id@);
                    assert(is_insert_pos(c, circuit_id@, q));
                    if q < p {
                        assert(str_lt(c[q].0, circuit_id@));
                    } else if q > p {
                        assert(!str_lt(c[p as int].0, circuit_id@));
                        assert(str_lt(c[p as int].0, circuit_id@));
                    }
                    assert(q == p);
                }
                env.circuits.insert(p, (circuit_id, status));
                proof {
                    let n = c.insert(p as int, (circuit_id@, status@));
                    assert(env@.circuits =~= n);
                    assert forall|i: int| 0 <= i < c.len() implies c[i].0 != circuit_id@ by {
                        if c[i].0 == circuit_id@ {
                            assert(has_circuit(c, circuit_id@));
                        }
                    }
                    assert forall|i: int| p <= i < c.len() implies str_lt(circuit_id@, #[trigger] c[i].0) by {
                        lemma_str_lt_total(c[i].0, circuit_id@);
                    }
                    assert forall|a: int, b: int| 0 <= a < b < n.len() implies str_lt(
                        (#[trigger] n[a]).0,
                        (#[trigger] n[b]).0,
                    ) && n[a].0 != n[b].0 by {
                        let pa = if a < p { a } else { a - 1 };
                        let pb = if b < p { b } else { b - 1 };
                        if a == p {
                            assert(n[b] == c[pb]);
                        } else if b == p {
                            assert(n[a] == c[pa]);
                        } else {
                            assert(n[a] == c[pa] && n[b] == c[pb]);
                            assert(pa < pb);
                        }
                        lemma_str_lt_irreflexive(n[a].0);
                    }
                }
                assert(env@ =~= DrEnvView { circuits: c.insert(p as int, (circuit_id@, status@)), ..v });
            },
        }
        Ok(())
    }

    /// Enable or disable circuit `circuit_id` (admin only).
    pub fn set_circuit_enabled(
        env: &mut DrEnv,
        admin: Address,
        circuit_id: &String,
        enabled: bool,
    ) -> (r: Result<(), DisasterRecoveryError>)
        requires
            old(env).wf(),
        ensures
            final(env).wf(),
            r == (if spec_require_admin(old(env)@, admin) is Err {
                spec_require_admin(old(env)@, admin)
            } else if !has_circuit(old(env)@.circuits, circuit_id@) {
                Err(DisasterRecoveryError::CircuitBreakerAlreadyClosed)
            } else {
                Ok(())
            }),
            r is Err ==> final(env)@ == old(env)@,
            r is Ok ==> ({
                let s = circuit_at(old(env)@.circuits, circuit_id@);
                final(env)@ == (DrEnvView {
                    circuits: with_circuit(
                        old(env)@.circuits,
                        circuit_id@,
                        CircuitStatusView { config: CircuitConfig { enabled, ..s.config }, ..s },
                    ),
                    ..old(env)@
                })
            }),
    {
        match Self::require_admin(env, admin) {
            Err(e) => return Err(e),
            Ok(()) => {},
        }
        let i = match Self::find(env, circuit_id) {
            None => return Err(DisasterRecoveryError::CircuitBreakerAlreadyClosed),
            Some(i) => i,
        };
        let mut status = copy_status(&env.circuits[i].1);
        status.config.enabled = enabled;
        Self::store(env, i, circuit_id, status);
        Ok(())
    }

    /// Record an observation of `value` on circuit `circuit_id` (a count of
    /// one per transaction for volume, an amount for value flow, the latest
    /// reading for liquidity). Refused while the circuit is open; an open
    /// circuit whose cooldown has passed lets one probe through (half-open);
    /// a closed circuit whose measurement crosses its threshold trips.
    pub fn observe(env: &mut DrEnv, circuit_id: &String, value: i128) -> (r: Result<(), DisasterRecoveryError>)
        requires
            old(env).wf(),
            has_circuit(old(env)@.circuits, circuit_id@) ==> {
                let s = circuit_at(old(env)@.circuits, circuit_id@);
                &&& observe_arith_ok(s, old(env).ledger)
                &&& emit_opt_ok(old(env)@, spec_observe_event(s, old(env).ledger, value, circuit_id@))
            },
        ensures
            final(env).wf(),
            ({
                let v = old(env)@;
                let s = circuit_at(v.circuits, circuit_id@);
                &&& r == (if !has_circuit(v.circuits, circuit_id@) {
                    Err(DisasterRecoveryError::CircuitBreakerAlreadyClosed)
                } else {
                    spec_observe_result(s, v.ledger, value)
                })
                &&& !has_circuit(v.circuits, circuit_id@) ==> final(env)@ == v
                &&& has_circuit(v.circuits, circuit_id@) ==> final(env)@ == spec_emit_opt(
                    DrEnvView {
                        circuits: with_circuit(v.circuits, circuit_id@, spec_observe_status(s, v.ledger, value)),
                        ..v
                    },
                    spec_observe_event(s, v.ledger, value, circuit_id@),
                )
            }),
    {
        let ghost v = env@;
        let i = match Self::find(env, circuit_id) {
            None => return Err(DisasterRecoveryError::CircuitBreakerAlreadyClosed),
            Some(i) => i,
        };
        let mut status = copy_status(&env.circuits[i].1);
        let ghost s = status@;
        assert(s == circuit_at(v.circuits, circuit_id@));
        if !status.config.enabled {
            proof {
                assert(v.circuits.update(i as int, (circuit_id@, s)) =~= v.circuits);
            }
            return Ok(());
        }
        let now = env.ledger;
        match status.state {
            CircuitState::Open => {
                if now >= status.tripped_at + status.config.cooldown_ledgers {
                    status.state = CircuitState::HalfOpen;
                    status.last_probe_at = now;
                    status.consecutive_ok = 0;
                    Self::store(env, i, circuit_id, status);
                    emit_event(env, "CircuitHalfOpen", AlertLevel::Warning, circuit_id);
                    return Ok(());
                }
                proof {
                    assert(v.circuits.update(i as int, (circuit_id@, s)) =~= v.circuits);
                }
                return Err(DisasterRecoveryError::CircuitBreakerOpen);
            },
            CircuitState::HalfOpen => {
                proof {
                    assert(v.circuits.update(i as int, (circuit_id@, s)) =~= v.circuits);
                }
                return Ok(());
            },
            CircuitState::Closed => {},
        }
        if now >= status.window_start + status.config.window_ledgers {
            status.window_start = now;
            status.window_value = 0;
        }
        status.window_value = match status.config.circuit_type {
            CircuitType::Liquidity => value,
            _ => sat_add_i128(status.window_value, value),
        };
        let tripped = match status.config.circuit_type {
            CircuitType::Liquidity => status.window_value < status.config.threshold,
            _ => status.window_value >= status.config.threshold,
        };
        if tripped {
            let reason = Self::build_trip_reason(status.config.circuit_type);
            status.state = CircuitState::Open;
            status.trip_count = status.trip_count + 1;
            status.tripped_at = now;
            status.tripped_reason = reason.clone();
            status.window_value = 0;
            status.window_start = now;
            Self::store(env, i, circuit_id, status);
            emit_event(env, "CircuitTripped", AlertLevel::Critical, &reason);
            return Err(DisasterRecoveryError::CircuitBreakerOpen);
        }
        Self::store(env, i, circuit_id, status);
        Ok(())
    }

    fn build_trip_reason(t: CircuitType) -> (r: String)
        ensures
            r@ == trip_reason(t),
    {
        match t {
            CircuitType::Volume => "volume_threshold_exceeded".to_owned(),
            CircuitType::ValueFlow => "value_flow_threshold_exceeded".to_owned(),
            CircuitType::ErrorRate => "error_rate_threshold_exceeded".to_owned(),
            CircuitType::PriceDrift => "price_drift_threshold_exceeded".to_owned(),
            CircuitType::Liquidity => "liquidity_below_minimum".to_owned(),
        }
    }

    /// Record the result of a half-open probe: three successes in a row close
    /// the circuit, a failure reopens it.
    pub fn record_probe_result(env: &mut DrEnv, circuit_id: &String, success: bool) -> (r: Result<(), DisasterRecoveryError>)
        requires
            old(env).wf(),
            has_circuit(old(env)@.circuits, circuit_id@) ==> {
                let s = circuit_at(old(env)@.circuits, circuit_id@);
                s.state == CircuitState::HalfOpen ==> {
                    &&& (success ==> s.consecutive_ok < u32::MAX)
                    &&& (!success ==> s.trip_count < u32::MAX)
                    &&& emit_opt_ok(old(env)@, spec_probe_event(s, success, circuit_id@))
                }
            },
        ensures
            final(env).wf(),
            ({
                let v = old(env)@;
                let s = circuit_at(v.circuits, circuit_id@);
                &&& r == (if !has_circuit(v.circuits, circuit_id@) || s.state != CircuitState::HalfOpen {
                    Err(DisasterRecoveryError::CircuitBreakerAlreadyClosed)
                } else {
                    Ok(())
                })
                &&& r is Err ==> final(env)@ == v
                &&& r is Ok ==> final(env)@ == spec_emit_opt(
                    DrEnvView {
                        circuits: with_circuit(v.circuits, circuit_id@, spec_probe_status(s, v.ledger, success)),
                        ..v
                    },
                    spec_probe_event(s, success, circuit_id@),
                )
            }),
    {
        let i = match Self::find(env, circuit_id) {
            None => return Err(DisasterRecoveryError::CircuitBreakerAlreadyClosed),
            Some(i) => i,
        };
        let mut status = copy_status(&env.circuits[i].1);
        if status.state != CircuitState::HalfOpen {
            return Err(DisasterRecoveryError::CircuitBreakerAlreadyClosed);
        }
        let now = env.ledger;
        if success {
            status.consecutive_ok = status.consecutive_ok + 1;
            if status.consecutive_ok >= 3 {
                status.state = CircuitState::Closed;
                status.window_start = now;
                status.window_value = 0;
                status.consecutive_ok = 0;
                Self::store(env, i, circuit_id, status);
                emit_event(env, "CircuitClosed", AlertLevel::Info, circuit_id);
                return Ok(());
            }
            Self::store(env, i, circuit_id, status);
            return Ok(());
        }
        status.state = CircuitState::Open;
        status.tripped_at = now;
        status.trip_count = status.trip_count + 1;
        status.consecutive_ok = 0;
        Self::store(env, i, circuit_id, status);
        emit_event(env, "CircuitReopened", AlertLevel::Critical, circuit_id);
        Ok(())
    }

    /// Force circuit `circuit_id` open (admin only).
    pub fn force_open(env: &mut DrEnv, admin: Address, circuit_id: &String, reason: String) -> (r: Result<(), DisasterRecoveryError>)
        requires
            old(env).wf(),
            has_circuit(old(env)@.circuits, circuit_id@) ==> circuit_at(old(env)@.circuits, circuit_id@).trip_count < u32::MAX,
            emit_ok(old(env)@, AlertLevel::Critical),
        ensures
            final(env).wf(),
            ({
                let v = old(env)@;
                let s = circuit_at(v.circuits, circuit_id@);
                &&& r == (if spec_require_admin(v, admin) is Err {
                    spec_require_admin(v, admin)
                } else if !has_circuit(v.circuits, circuit_id@) {
                    Err(DisasterRecoveryError::CircuitBreakerAlreadyClosed)
                } else if s.state == CircuitState::Open {
                    Err(DisasterRecoveryError::CircuitBreakerAlreadyOpen)
                } else {
                    Ok(())
                })
                &&& r is Err ==> final(env)@ == v
                &&& r is Ok ==> final(env)@ == spec_emit(
                    DrEnvView {
                        circuits: with_circuit(v.circuits, circuit_id@, CircuitStatusView {
                            state: CircuitState::Open,
                            trip_count: (s.trip_count + 1) as u32,
                            tripped_at: v.ledger,
                            tripped_reason: reason@,
                            ..s
                        }),
                        ..v
                    },
                    "CircuitForcedOpen"@,
                    AlertLevel::Critical,
                    reason@,
                )
            }),
    {
        match Self::require_admin(env, admin) {
            Err(e) => return Err(e),
            Ok(()) => {},
        }
        let i = match Self::find(env, circuit_id) {
            None => return Err(DisasterRecoveryError::CircuitBreakerAlreadyClosed),
            Some(i) => i,
        };
        let mut status = copy_status(&env.circuits[i].1);
        if status.state == CircuitState::Open {
            return Err(DisasterRecoveryError::CircuitBreakerAlreadyOpen);
        }
        status.state = CircuitState::Open;
        status.trip_count = status.trip_count + 1;
        status.tripped_at = env.ledger;
        status.tripped_reason = reason.clone();
        Self::store(env, i, circuit_id, status);
        emit_event(env, "CircuitForcedOpen", AlertLevel::Critical, &reason);
        Ok(())
    }

    /// Force circuit `circuit_id` closed (admin only).
    pub fn force_close(env: &mut DrEnv, admin: Address, circuit_id: &String) -> (r: Result<(), DisasterRecoveryError>)
        requires
            old(env).wf(),
            emit_ok(old(env)@, AlertLevel::Warning),
        ensures
            final(env).wf(),
            ({
                let v = old(env)@;
                let s = circuit_at(v.circuits, circuit_id@);
                &&& r == (if spec_require_admin(v, admin) is Err {
                    spec_require_admin(v, admin)
                } else if !has_circuit(v.circuits, circuit_id@) || s.state == CircuitState::Closed {
                    Err(DisasterRecoveryError::CircuitBreakerAlreadyClosed)
                } else {
                    Ok(())
                })
                &&& r is Err ==> final(env)@ == v
                &&& r is Ok ==> final(env)@ == spec_emit(
                    DrEnvView {
                        circuits: with_circuit(v.circuits, circuit_id@, CircuitStatusView {
                            state: CircuitState::Closed,
                            window_start: v.ledger,
                            window_value: 0,
                            consecutive_ok: 0,
                            ..s
                        }),
                        ..v
                    },
                    "CircuitForceReset"@,
                    AlertLevel::Warning,
                    circuit_id@,
                )
            }),
    {
        match Self::require_admin(env, admin) {
            Err(e) => return Err(e),
            Ok(()) => {},
        }
        let i = match Self::find(env, circuit_id) {
            None => return Err(DisasterRecoveryError::CircuitBreakerAlreadyClosed),
            Some(i) => i,
        };
        let mut status = copy_status(&env.circuits[i].1);
        if status.state == CircuitState::Closed {
            return Err(DisasterRecoveryError::CircuitBreakerAlreadyClosed);
        }
        status.state = CircuitState::Closed;
        status.window_start = env.ledger;
        status.window_value = 0;
        status.consecutive_ok = 0;
        Self::store(env, i, circuit_id, status);
        emit_event(env, "CircuitForceReset", AlertLevel::Warning, circuit_id);
        Ok(())
    }

    /// Status of circuit `circuit_id`, if registered.
    pub fn get_circuit_status(env: &DrEnv, circuit_id: &String) -> (r: Option<CircuitStatus>)
        requires
            env.wf(),
        ensures
            r is Some <==> has_circuit(env@.circuits, circuit_id@),
            r matches Some(s) ==> s@ == circuit_at(env@.circuits, circuit_id@),
    {
        match Self::find(env, circuit_id) {
            None => None,
            Some(i) => Some(copy_status(&env.circuits[i].1)),
        }
    }

    /// Whether circuit `circuit_id` is registered and open.
    pub fn is_circuit_open(env: &DrEnv, circuit_id: &String) -> (b: bool)
        requires
            env.wf(),
        ensures
            b == (has_circuit(env@.circuits, circuit_id@) && circuit_at(env@.circuits, circuit_id@).state
                == CircuitState::Open),
    {
        match Self::find(env, circuit_id) {
            None => false,
            Some(i) => env.circuits[i].1.state == CircuitState::Open,
        }
    }

    /// Ids of the open circuits.
    pub fn list_open_circuits(env: &DrEnv) -> (r: Vec<String>)
        ensures
            r@.map_values(|s: String| s@) == spec_open_ids(env@.circuits),
    {
        let mut r: Vec<String> = Vec::new();
        let mut i: usize = 0;
        while i < env.circuits.len()
            invariant
                0 <= i <= env.circuits@.len(),
                r@.map_values(|s: String| s@) == spec_open_ids(env@.circuits.subrange(0, i as int)),
            decreases env.circuits@.len() - i,
        {
            proof {
                reveal_with_fuel(Seq::<_>::filter, 1);
                assert(env@.circuits.subrange(0, i + 1).drop_last() =~= env@.circuits.subrange(0, i as int));
                assert(env@.circuits.subrange(0, i + 1).last() == env@.circuits[i as int]);
            }
            let ghost before = r@;
            let ghost prev = env@.circuits.subrange(0, i as int).filter(
                |e: (Seq<char>, CircuitStatusView)| e.1.state == CircuitState::Open,
            );
            if env.circuits[i].1.state == CircuitState::Open {
                r.push(env.circuits[i].0.clone());
                assert(prev.push(env@.circuits[i as int]).map_values(|e: (Seq<char>, CircuitStatusView)| e.0)
                    =~= prev.map_values(|e: (Seq<char>, CircuitStatusView)| e.0).push(env@.circuits[i as int].0));
                assert(r@.map_values(|s: String| s@) =~= before.map_values(|s: String| s@).push(env@.circuits[i as int].0));
            }
            i = i + 1;
        }
        assert(env@.circuits.subrange(0, env.circuits@.len() as int) =~= env@.circuits);
        r
    }
}

} // verus!
