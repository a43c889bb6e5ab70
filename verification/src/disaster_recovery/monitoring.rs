//! Alert log: every event at or above the configured level is kept in
//! contract state, oldest first, up to a maximum count.

use vstd::prelude::*;
use crate::common::Address;
use crate::disaster_recovery::env::{DrEnv, DrEnvView};

verus! {

/// Severity of an alert, from lowest to highest.
#[derive(Clone, Copy, Debug, PartialEq, Eq, Structural)]
pub enum AlertLevel {
    Info,
    Warning,
    Critical,
    Fatal,
}

/// Position of a level in the severity order.
pub open spec fn spec_rank(l: AlertLevel) -> u8 {
    match l {
        AlertLevel::Info => 0,
        AlertLevel::Warning => 1,
        AlertLevel::Critical => 2,
        AlertLevel::Fatal => 3,
    }
}

pub fn rank(l: AlertLevel) -> (r: u8)
    ensures
        r == spec_rank(l),
{
    match l {
        AlertLevel::Info => 0,
        AlertLevel::Warning => 1,
        AlertLevel::Critical => 2,
        AlertLevel::Fatal => 3,
    }
}

/// A stored alert.
#[derive(Debug)]
pub struct Alert {
    pub id: u32,
    pub event_name: String,
    pub level: AlertLevel,
    pub message: String,
    pub ledger: u32,
    pub resolved: bool,
}

/// Spec value of an [`Alert`].
pub struct AlertView {
    pub id: u32,
    pub event_name: Seq<char>,
    pub level: AlertLevel,
    pub message: Seq<char>,
    pub ledger: u32,
    pub resolved: bool,
}

impl View for Alert {
    type V = AlertView;

    open spec fn view(&self) -> AlertView {
        AlertView {
            id: self.id,
            event_name: self.event_name@,
            level: self.level,
            message: self.message@,
            ledger: self.ledger,
            resolved: self.resolved,
        }
    }
}

/// Which alerts are kept, and how many.
#[derive(Clone, Copy, Debug, PartialEq, Eq, Structural)]
pub struct MonitoringConfig {
    pub enabled: bool,
    /// Lowest level that is stored.
    pub persist_threshold: AlertLevel,
    /// Most alerts kept.
    pub max_stored_alerts: u32,
}

/// The configuration in force when none was set.
pub open spec fn default_config() -> MonitoringConfig {
    MonitoringConfig { enabled: true, persist_threshold: AlertLevel::Warning, max_stored_alerts: 200 }
}

pub open spec fn spec_config(v: DrEnvView) -> MonitoringConfig {
    match v.monitoring {
        Some(c) => c,
        None => default_config(),
    }
}

/// Whether an alert of `level` is stored.
pub open spec fn persists(v: DrEnvView, level: AlertLevel) -> bool {
    spec_config(v).enabled && spec_rank(level) >= spec_rank(spec_config(v).persist_threshold)
}

/// Emitting an alert of `level` needs a fresh alert id when it is stored.
pub open spec fn emit_ok(v: DrEnvView, level: AlertLevel) -> bool {
    persists(v, level) ==> v.alert_nonce < u32::MAX
}

/// The record a stored alert gets.
pub open spec fn spec_new_alert(v: DrEnvView, event_name: Seq<char>, level: AlertLevel, message: Seq<char>) -> AlertView {
    AlertView {
        id: (v.alert_nonce + 1) as u32,
        event_name,
        level,
        message,
        ledger: v.ledger,
        resolved: false,
    }
}

/// State after an event: stored when at or above the threshold, the oldest
/// alert dropped when the log grows past its maximum.
pub open spec fn spec_emit(v: DrEnvView, event_name: Seq<char>, level: AlertLevel, message: Seq<char>) -> DrEnvView {
    if persists(v, level) {
        let grown = v.alerts.push(spec_new_alert(v, event_name, level, message));
        DrEnvView {
            alerts: if grown.len() > spec_config(v).max_stored_alerts {
                grown.drop_first()
            } else {
                grown
            },
            alert_nonce: (v.alert_nonce + 1) as u32,
            ..v
        }
    } else {
        v
    }
}

/// Whether a query keeps `a`.
pub open spec fn selected(a: AlertView, min_level: Option<AlertLevel>, unresolved_only: bool) -> bool {
    &&& !(unresolved_only && a.resolved)
    &&& (min_level matches Some(ml) ==> spec_rank(a.level) >= spec_rank(ml))
}

/// The alert log after `alert_id` is marked resolved.
pub open spec fn spec_resolved(alerts: Seq<AlertView>, alert_id: u32) -> Seq<AlertView> {
    alerts.map_values(|a: AlertView| if a.id == alert_id { AlertView { resolved: true, ..a } } else { a })
}

/// Whether an unresolved Critical or Fatal alert is stored.
pub open spec fn spec_has_active_critical(alerts: Seq<AlertView>) -> bool {
    exists|i: int| 0 <= i < alerts.len() && !(#[trigger] alerts[i]).resolved && spec_rank(alerts[i].level) >= 2
}

pub fn copy_alert(a: &Alert) -> (c: Alert)
    ensures
        c@ == a@,
{
    Alert {
        id: a.id,
        event_name: a.event_name.clone(),
        level: a.level,
        message: a.message.clone(),
        ledger: a.ledger,
        resolved: a.resolved,
    }
}

/// The monitoring configuration, or the default one.
pub fn get_config(env: &DrEnv) -> (c: MonitoringConfig)
    ensures
        c == spec_config(env@),
{
    match env.monitoring {
        Some(c) => c,
        None => MonitoringConfig { enabled: true, persist_threshold: AlertLevel::Warning, max_stored_alerts: 200 },
    }
}

/// Set the monitoring configuration.
pub fn configure(env: &mut DrEnv, admin: Address, config: MonitoringConfig)
    requires
        old(env).wf(),
    ensures
        final(env).wf(),
        final(env)@ == (DrEnvView { monitoring: Some(config), ..old(env)@ }),
{
    env.monitoring = Some(config);
}

fn persist_alert(env: &mut DrEnv, event_name: &str, level: AlertLevel, message: &String, max: u32)
    requires
        old(env).wf(),
        old(env)@.alert_nonce < u32::MAX,
    ensures
        final(env).wf(),
        ({
            let v = old(env)@;
            let grown = v.alerts.push(spec_new_alert(v, event_name@, level, message@));
            final(env)@ == (DrEnvView {
                alerts: if grown.len() > max { grown.drop_first() } else { grown },
                alert_nonce: (v.alert_nonce + 1) as u32,
                ..v
            })
        }),
{
    let ghost v = env@;
    let nonce = env.alert_nonce + 1;
    let alert = Alert {
        id: nonce,
        event_name: event_name.to_owned(),
        level,
        message: message.clone(),
        ledger: env.ledger,
        resolved: false,
    };
    env.alerts.push(alert);
    env.alert_nonce = nonce;
    if env.alerts.len() > max as usize {
        env.alerts.remove(0);
    }
    proof {
        let grown = v.alerts.push(spec_new_alert(v, event_name@, level, message@));
        if grown.len() > max {
            assert(env@.alerts =~= grown.drop_first());
        } else {
            assert(env@.alerts =~= grown);
        }
    }
}

/// Emit a monitoring event; it is stored when monitoring is enabled and the
/// level reaches the configured threshold.
pub fn emit_event(env: &mut DrEnv, event_name: &str, level: AlertLevel, message: &String)
    requires
        old(env).wf(),
        emit_ok(old(env)@, level),
    ensures
        final(env).wf(),
        final(env)@ == spec_emit(old(env)@, event_name@, level, message@),
{
    let config = get_config(env);
    if !config.enabled {
        return;
    }
    if rank(level) >= rank(config.persist_threshold) {
        persist_alert(env, event_name, level, message, config.max_stored_alerts);
    }
}

/// Mark the alert `alert_id` resolved (nothing changes if there is none).
pub fn resolve_alert(env: &mut DrEnv, admin: Address, alert_id: u32)
    requires
        old(env).wf(),
    ensures
        final(env).wf(),
        final(env)@ == (DrEnvView { alerts: spec_resolved(old(env)@.alerts, alert_id), ..old(env)@ }),
{
    let ghost v = env@;
    let mut i: usize = 0;
    while i < env.alerts.len()
        invariant
            env.wf(),
            0 <= i <= env.alerts@.len(),
            env@ == v,
            v == old(env)@,
            forall|j: int| 0 <= j < i ==> (#[trigger] env.alerts@[j]).id != alert_id,
        decreases env.alerts@.len() - i,
    {
        if env.alerts[i].id == alert_id {
            let mut a = copy_alert(&env.alerts[i]);
            a.resolved = true;
            env.alerts.set(i, a);
            proof {
                assert forall|j: int| 0 <= j < v.alerts.len() && j != i implies v.alerts[j].id != alert_id by {
                    assert(v.alerts[j].id == env.alerts@[j].id);
                    if j > i {
                        assert(v.alerts[i as int].id < v.alerts[j].id);
                    }
                }
                assert(env@.alerts =~= spec_resolved(v.alerts, alert_id));
                assert(env@ =~= DrEnvView { alerts: spec_resolved(v.alerts, alert_id), ..v });
            }
            return;
        }
        i = i + 1;
    }
    assert(env@.alerts =~= spec_resolved(v.alerts, alert_id));
}

/// Stored alerts, oldest first, optionally only unresolved ones and only
/// those at or above `min_level`.
pub fn get_alerts(env: &DrEnv, min_level: Option<AlertLevel>, unresolved_only: bool) -> (r: Vec<Alert>)
    ensures
        r@.map_values(|a: Alert| a@) == env@.alerts.filter(|a: AlertView| selected(a, min_level, unresolved_only)),
{
    let mut r: Vec<Alert> = Vec::new();
    let mut i: usize = 0;
    while i < env.alerts.len()
        invariant
            0 <= i <= env.alerts@.len(),
            r@.map_values(|a: Alert| a@) == env@.alerts.subrange(0, i as int).filter(
                |a: AlertView| selected(a, min_level, unresolved_only),
            ),
        decreases env.alerts@.len() - i,
    {
        proof {
            reveal_with_fuel(Seq::<_>::filter, 1);
            assert(env@.alerts.subrange(0, i + 1).drop_last() =~= env@.alerts.subrange(0, i as int));
            assert(env@.alerts.subrange(0, i + 1).last() == env.alerts@[i as int]@);
        }
        let a = &env.alerts[i];
        let skip_resolved = unresolved_only && a.resolved;
        let below = match min_level {
            Some(ml) => rank(a.level) < rank(ml),
            None => false,
        };
        if !skip_resolved && !below {
            let ghost before = r@;
            r.push(copy_alert(a));
            assert(r@.map_values(|a: Alert| a@) =~= before.map_values(|a: Alert| a@).push(env.alerts@[i as int]@));
        }
        i = i + 1;
    }
    assert(env@.alerts.subrange(0, env.alerts@.len() as int) =~= env@.alerts);
    r
}

/// Whether an unresolved Critical or Fatal alert is stored.
pub fn has_active_critical_alerts(env: &DrEnv) -> (b: bool)
    ensures
        b == spec_has_active_critical(env@.alerts),
{
    let mut i: usize = 0;
    while i < env.alerts.len()
        invariant
            0 <= i <= env.alerts@.len(),
            forall|j: int| 0 <= j < i ==> (env.alerts@[j].resolved || spec_rank(env.alerts@[j].level) < 2),
        decreases env.alerts@.len() - i,
    {
        if !env.alerts[i].resolved && rank(env.alerts[i].level) >= 2 {
            assert(env@.alerts[i as int] == env.alerts@[i as int]@);
            return true;
        }
        i = i + 1;
    }
    proof {
        assert forall|j: int| 0 <= j < env@.alerts.len() implies (env@.alerts[j].resolved || spec_rank(env@.alerts[j].level) < 2) by {
            assert(env@.alerts[j] == env.alerts@[j]@);
        }
    }
    false
}

} // verus!
