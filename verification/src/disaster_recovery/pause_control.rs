//! Multi-level pausing: Operational, SoftPause (non-critical writes off),
//! HardPause (all writes off) and Emergency (recovery only).

use vstd::prelude::*;
use crate::common::{Address, contains_addr, remove_addr, without};
use crate::disaster_recovery::env::{DrEnv, DrEnvView};
use crate::disaster_recovery::errors::DisasterRecoveryError;
use crate::disaster_recovery::monitoring::{AlertLevel, emit_event, emit_ok, spec_emit};

verus! {

/// Ledgers between two pause or unpause actions.
pub const PAUSE_COOLDOWN_LEDGERS: u32 = 100;
/// Pause history entries kept.
pub const MAX_HISTORY_ENTRIES: u32 = 50;

#[derive(Clone, Copy, Debug, PartialEq, Eq, Structural)]
pub enum PauseLevel {
    Operational,
    SoftPause,
    HardPause,
    Emergency,
}

/// The current pause level and who set it.
#[derive(Debug)]
pub struct PauseState {
    pub level: PauseLevel,
    pub paused_by: Address,
    pub reason: String,
    /// Ledger sequence of the change.
    pub paused_at: u32,
    /// Ledger after which a guardian may unpause; 0 when unrestricted.
    pub unpause_after: u32,
}

pub struct PauseStateView {
    pub level: PauseLevel,
    pub paused_by: Address,
    pub reason: Seq<char>,
    pub paused_at: u32,
    pub unpause_after: u32,
}

impl View for PauseState {
    type V = PauseStateView;

    open spec fn view(&self) -> PauseStateView {
        PauseStateView {
            level: self.level,
            paused_by: self.paused_by,
            reason: self.reason@,
            paused_at: self.paused_at,
            unpause_after: self.unpause_after,
        }
    }
}

/// One pause or unpause in the history.
#[derive(Debug)]
pub struct PauseEvent {
    pub level: PauseLevel,
    pub actor: Address,
    pub reason: String,
    pub ledger: u32,
    pub is_pause: bool,
}

pub struct PauseEventView {
    pub level: PauseLevel,
    pub actor: Address,
    pub reason: Seq<char>,
    pub ledger: u32,
    pub is_pause: bool,
}

impl View for PauseEvent {
    type V = PauseEventView;

    open spec fn view(&self) -> PauseEventView {
        PauseEventView {
            level: self.level,
            actor: self.actor,
            reason: self.reason@,
            ledger: self.ledger,
            is_pause: self.is_pause,
        }
    }
}

pub fn copy_pause_state(s: &PauseState) -> (c: PauseState)
    ensures
        c@ == s@,
{
    PauseState {
        level: s.level,
        paused_by: s.paused_by,
        reason: s.reason.clone(),
        paused_at: s.paused_at,
        unpause_after: s.unpause_after,
    }
}

pub fn copy_pause_event(e: &PauseEvent) -> (c: PauseEvent)
    ensures
        c@ == e@,
{
    PauseEvent { level: e.level, actor: e.actor, reason: e.reason.clone(), ledger: e.ledger, is_pause: e.is_pause }
}

/// The last `n` entries of `s` (all of them when there are fewer).
pub open spec fn keep_last<A>(s: Seq<A>, n: int) -> Seq<A> {
    if s.len() > n {
        s.subrange(s.len() - n, s.len() as int)
    } else {
        s
    }
}

/// The pause admin check.
pub open spec fn spec_require_admin(v: DrEnvView, caller: Address) -> Result<(), DisasterRecoveryError> {
    match v.admin {
        Some(a) => if a == caller {
            Ok(())
        } else {
            Err(DisasterRecoveryError::NotAdmin)
        },
        None => Err(DisasterRecoveryError::NotAdmin),
    }
}

/// The admin or a guardian.
pub open spec fn spec_guardian_or_admin(v: DrEnvView, caller: Address) -> Result<(), DisasterRecoveryError> {
    if spec_require_admin(v, caller) is Ok || v.guardians.contains(caller) {
        Ok(())
    } else {
        Err(DisasterRecoveryError::NotGuardian)
    }
}

/// Checks of a pause request made before the current state is read.
pub open spec fn spec_pause_prechecks(v: DrEnvView, caller: Address, level: PauseLevel) -> Result<(), DisasterRecoveryError> {
    if level == PauseLevel::Operational {
        Err(DisasterRecoveryError::InvalidParameters)
    } else if level == PauseLevel::Emergency {
        spec_require_admin(v, caller)
    } else if spec_guardian_or_admin(v, caller) is Err {
        Err(DisasterRecoveryError::NotGuardian)
    } else if v.ledger < v.pause_cooldown {
        Err(DisasterRecoveryError::PauseCooldownActive)
    } else {
        Ok(())
    }
}

/// Outcome of a pause request.
pub open spec fn spec_pause_result(v: DrEnvView, caller: Address, level: PauseLevel) -> Result<(), DisasterRecoveryError> {
    if spec_pause_prechecks(v, caller, level) is Err {
        spec_pause_prechecks(v, caller, level)
    } else if v.pause_state.unwrap().level == PauseLevel::Emergency && level != PauseLevel::Emergency {
        Err(DisasterRecoveryError::EmergencyOnlyMode)
    } else if v.pause_state.unwrap().level == level {
        Err(DisasterRecoveryError::AlreadyPaused)
    } else {
        Ok(())
    }
}

/// State after a pause or unpause is applied: new state, cooldown and
/// history entry.
pub open spec fn spec_set_level(
    v: DrEnvView,
    caller: Address,
    level: PauseLevel,
    reason: Seq<char>,
    unpause_after: u32,
    is_pause: bool,
) -> DrEnvView {
    DrEnvView {
        pause_state: Some(PauseStateView { level, paused_by: caller, reason, paused_at: v.ledger, unpause_after }),
        pause_cooldown: (v.ledger + PAUSE_COOLDOWN_LEDGERS) as u32,
        pause_history: keep_last(
            v.pause_history.push(PauseEventView { level, actor: caller, reason, ledger: v.ledger, is_pause }),
            MAX_HISTORY_ENTRIES as int,
        ),
        ..v
    }
}

/// Outcome of an unpause request.
pub open spec fn spec_unpause_result(v: DrEnvView, caller: Address) -> Result<(), DisasterRecoveryError> {
    let s = v.pause_state.unwrap();
    if s.level == PauseLevel::Operational {
        Err(DisasterRecoveryError::ContractNotPaused)
    } else if s.level == PauseLevel::Emergency && spec_require_admin(v, caller) is Err {
        Err(DisasterRecoveryError::NotAdmin)
    } else if s.level != PauseLevel::Emergency && spec_guardian_or_admin(v, caller) is Err {
        Err(DisasterRecoveryError::NotGuardian)
    } else if s.unpause_after > 0 && v.ledger < s.unpause_after && spec_require_admin(v, caller) is Err {
        Err(DisasterRecoveryError::NotAdmin)
    } else {
        Ok(())
    }
}

/// Outcome of the operational guard for the current level.
pub open spec fn spec_assert_operational(level: PauseLevel) -> Result<(), DisasterRecoveryError> {
    match level {
        PauseLevel::Operational => Ok(()),
        PauseLevel::Emergency => Err(DisasterRecoveryError::EmergencyOnlyMode),
        _ => Err(DisasterRecoveryError::ContractPaused),
    }
}

pub struct PauseController;

impl PauseController {
    /// Set up pausing: operational, with `admin` as the pause admin and no
    /// guardians.
    pub fn initialize(env: &mut DrEnv, admin: Address)
        requires
            old(env).wf(),
        ensures
            final(env).wf(),
            final(env)@ == (DrEnvView {
                pause_state: Some(PauseStateView {
                    level: PauseLevel::Operational,
                    paused_by: admin,
                    reason: "initialized"@,
                    paused_at: old(env).ledger,
                    unpause_after: 0,
                }),
                admin: Some(admin),
                guardians: Seq::empty(),
                ..old(env)@
            }),
    {
        env.pause_state = Some(PauseState {
            level: PauseLevel::Operational,
            paused_by: admin,
            reason: "initialized".to_owned(),
            paused_at: env.ledger,
            unpause_after: 0,
        });
        env.admin = Some(admin);
        env.guardians = Vec::new();
        let ghost v = env@;
        assert(env@ =~= DrEnvView {
            pause_state: Some(PauseStateView {
                level: PauseLevel::Operational,
                paused_by: admin,
                reason: "initialized"@,
                paused_at: old(env).ledger,
                unpause_after: 0,
            }),
            admin: Some(admin),
            guardians: Seq::empty(),
            ..old(env)@
        });
    }

    fn require_admin(env: &DrEnv, caller: Address) -> (r: Result<(), DisasterRecoveryError>)
        ensures
            r == spec_require_admin(env@, caller),
    {
        match env.admin {
            Some(a) => if a == caller {
                Ok(())
            } else {
                Err(DisasterRecoveryError::NotAdmin)
            },
            None => Err(DisasterRecoveryError::NotAdmin),
        }
    }

    fn require_guardian_or_admin(env: &DrEnv, caller: Address) -> (r: Result<(), DisasterRecoveryError>)
        ensures
            r == spec_guardian_or_admin(env@, caller),
    {
        if Self::require_admin(env, caller).is_ok() {
            return Ok(());
        }
        if contains_addr(&env.guardians, caller) {
            return Ok(());
        }
        Err(DisasterRecoveryError::NotGuardian)
    }

    fn check_cooldown(env: &DrEnv) -> (r: Result<(), DisasterRecoveryError>)
        ensures
            r is Ok <==> env.ledger >= env.pause_cooldown,
            r is Err ==> r == Err::<(), DisasterRecoveryError>(DisasterRecoveryError::PauseCooldownActive),
    {
        if env.ledger < env.pause_cooldown {
            return Err(DisasterRecoveryError::PauseCooldownActive);
        }
        Ok(())
    }

    fn set_level(env: &mut DrEnv, caller: Address, level: PauseLevel, reason: &String, unpause_after: u32, is_pause: bool)
        requires
            old(env).wf(),
            old(env).ledger + PAUSE_COOLDOWN_LEDGERS <= u32::MAX,
        ensures
            final(env).wf(),
            final(env)@ == spec_set_level(old(env)@, caller, level, reason@, unpause_after, is_pause),
    {
        let ghost v = env@;
        env.pause_state = Some(PauseState {
            level,
            paused_by: caller,
            reason: reason.clone(),
            paused_at: env.ledger,
            unpause_after,
        });
        env.pause_cooldown = env.ledger + PAUSE_COOLDOWN_LEDGERS;
        let ghost before = env.pause_history@;
        env.pause_history.push(PauseEvent { level, actor: caller, reason: reason.clone(), ledger: env.ledger, is_pause });
        let ghost grown = v.pause_history.push(PauseEventView { level, actor: caller, reason: reason@, ledger: v.ledger, is_pause });
        assert(env.pause_history@.map_values(|e: PauseEvent| e@) =~= grown);
        while env.pause_history.len() > MAX_HISTORY_ENTRIES as usize
            invariant
                env.wf(),
                grown.len() >= env.pause_history@.len(),
                env.pause_history@.len() >= (if grown.len() > MAX_HISTORY_ENTRIES { MAX_HISTORY_ENTRIES as int } else { grown.len() as int }),
                env.pause_history@.map_values(|e: PauseEvent| e@) =~= grown.subrange(
                    grown.len() - env.pause_history@.len(),
                    grown.len() as int,
                ),
                env@ == (DrEnvView { pause_history: env@.pause_history, ..spec_set_level(v, caller, level, reason@, unpause_after, is_pause) }),
            decreases env.pause_history@.len(),
        {
            let ghost prev = env.pause_history@;
            env.pause_history.remove(0);
            assert forall|k: int| 0 <= k < env.pause_history@.len() implies env.pause_history@[k]@ == grown.subrange(
                grown.len() - env.pause_history@.len(),
                grown.len() as int,
            )[k] by {
                assert(env.pause_history@[k] == prev[k + 1]);
                assert(prev.map_values(|e: PauseEvent| e@)[k + 1] == prev[k + 1]@);
            }
            assert(env.pause_history@.map_values(|e: PauseEvent| e@) =~= grown.subrange(
                grown.len() - env.pause_history@.len(),
                grown.len() as int,
            ));
        }
        assert(env@.pause_history =~= keep_last(grown, MAX_HISTORY_ENTRIES as int));
        assert(env@ =~= spec_set_level(v, caller, level, reason@, unpause_after, is_pause));
    }

    /// Pause at `level`. Guardians may soft- or hard-pause; only the admin
    /// may declare an emergency, which nothing but another emergency can
    /// replace. Every pause but an emergency waits out the cooldown.
    pub fn pause(
        env: &mut DrEnv,
        caller: Address,
        level: PauseLevel,
        reason: String,
        unpause_after: u32,
    ) -> (r: Result<(), DisasterRecoveryError>)
        requires
            old(env).wf(),
            spec_pause_prechecks(old(env)@, caller, level) is Ok ==> {
                &&& old(env)@.pause_state is Some
                &&& old(env).ledger + PAUSE_COOLDOWN_LEDGERS <= u32::MAX
                &&& emit_ok(old(env)@, AlertLevel::Critical)
            },
        ensures
            final(env).wf(),
            r == spec_pause_result(old(env)@, caller, level),
            r is Err ==> final(env)@ == old(env)@,
            r is Ok ==> final(env)@ == spec_emit(
                spec_set_level(old(env)@, caller, level, reason@, unpause_after, true),
                "ContractPaused"@,
                AlertLevel::Critical,
                reason@,
            ),
    {
        match level {
            PauseLevel::Operational => return Err(DisasterRecoveryError::InvalidParameters),
            PauseLevel::Emergency => match Self::require_admin(env, caller) {
                Err(e) => return Err(e),
                Ok(()) => {},
            },
            _ => match Self::require_guardian_or_admin(env, caller) {
                Err(e) => return Err(e),
                Ok(()) => {},
            },
        }
        if level != PauseLevel::Emergency {
            match Self::check_cooldown(env) {
                Err(e) => return Err(e),
                Ok(()) => {},
            }
        }
        let current = match &env.pause_state {
            Some(s) => s.level,
            None => return Err(DisasterRecoveryError::InternalError),
        };
        if current == PauseLevel::Emergency && level != PauseLevel::Emergency {
            return Err(DisasterRecoveryError::EmergencyOnlyMode);
        }
        if current == level {
            return Err(DisasterRecoveryError::AlreadyPaused);
        }
        Self::set_level(env, caller, level, &reason, unpause_after, true);
        emit_event(env, "ContractPaused", AlertLevel::Critical, &reason);
        Ok(())
    }

    /// Return to operational. An emergency can only be lifted by the admin;
    /// before `unpause_after` only the admin may unpause.
    pub fn unpause(env: &mut DrEnv, caller: Address, reason: String) -> (r: Result<(), DisasterRecoveryError>)
        requires
            old(env).wf(),
            old(env)@.pause_state is Some,
            spec_unpause_result(old(env)@, caller) is Ok ==> {
                &&& old(env).ledger + PAUSE_COOLDOWN_LEDGERS <= u32::MAX
                &&& emit_ok(old(env)@, AlertLevel::Warning)
            },
        ensures
            final(env).wf(),
            r == spec_unpause_result(old(env)@, caller),
            r is Err ==> final(env)@ == old(env)@,
            r is Ok ==> final(env)@ == spec_emit(
                spec_set_level(old(env)@, caller, PauseLevel::Operational, reason@, 0, false),
                "ContractUnpaused"@,
                AlertLevel::Warning,
                reason@,
            ),
    {
        let (level, unpause_after) = match &env.pause_state {
            Some(s) => (s.level, s.unpause_after),
            None => return Err(DisasterRecoveryError::InternalError),
        };
        match level {
            PauseLevel::Operational => return Err(DisasterRecoveryError::ContractNotPaused),
            PauseLevel::Emergency => match Self::require_admin(env, caller) {
                Err(e) => return Err(e),
                Ok(()) => {},
            },
            _ => match Self::require_guardian_or_admin(env, caller) {
                Err(e) => return Err(e),
                Ok(()) => {},
            },
        }
        if unpause_after > 0 && env.ledger < unpause_after {
            match Self::require_admin(env, caller) {
                Err(e) => return Err(e),
                Ok(()) => {},
            }
        }
        Self::set_level(env, caller, PauseLevel::Operational, &reason, 0, false);
        emit_event(env, "ContractUnpaused", AlertLevel::Warning, &reason);
        Ok(())
    }

    /// Add a guardian (admin only); adding one twice changes nothing.
    pub fn add_guardian(env: &mut DrEnv, admin: Address, guardian: Address) -> (r: Result<(), DisasterRecoveryError>)
        requires
            old(env).wf(),
        ensures
            final(env).wf(),
            r == spec_require_admin(old(env)@, admin),
            r is Err ==> final(env)@ == old(env)@,
            r is Ok ==> final(env)@ == (DrEnvView {
                guardians: if old(env)@.guardians.contains(guardian) {
                    old(env)@.guardians
                } else {
                    old(env)@.guardians.push(guardian)
                },
                ..old(env)@
            }),
    {
        match Self::require_admin(env, admin) {
            Err(e) => return Err(e),
            Ok(()) => {},
        }
        if !contains_addr(&env.guardians, guardian) {
            env.guardians.push(guardian);
        }
        Ok(())
    }

    /// Remove a guardian (admin only).
    pub fn remove_guardian(env: &mut DrEnv, admin: Address, guardian: Address) -> (r: Result<(), DisasterRecoveryError>)
        requires
            old(env).wf(),
        ensures
            final(env).wf(),
            r == spec_require_admin(old(env)@, admin),
            r is Err ==> final(env)@ == old(env)@,
            r is Ok ==> final(env)@ == (DrEnvView { guardians: without(old(env)@.guardians, guardian), ..old(env)@ }),
    {
        match Self::require_admin(env, admin) {
            Err(e) => return Err(e),
            Ok(()) => {},
        }
        env.guardians = remove_addr(&env.guardians, guardian);
        Ok(())
    }

    /// The current pause state.
    pub fn get_state(env: &DrEnv) -> (s: PauseState)
        requires
            env@.pause_state is Some,
        ensures
            Some(s@) == env@.pause_state,
    {
        match &env.pause_state {
            Some(s) => copy_pause_state(s),
            None => PauseState {
                level: PauseLevel::Operational,
                paused_by: Address(0),
                reason: String::new(),
                paused_at: 0,
                unpause_after: 0,
            },
        }
    }

    fn level(env: &DrEnv) -> (l: PauseLevel)
        requires
            env@.pause_state is Some,
        ensures
            l == env@.pause_state.unwrap().level,
    {
        match &env.pause_state {
            Some(s) => s.level,
            None => PauseLevel::Operational,
        }
    }

    /// Paused at any level.
    pub fn is_paused(env: &DrEnv) -> (b: bool)
        requires
            env@.pause_state is Some,
        ensures
            b == (env@.pause_state.unwrap().level != PauseLevel::Operational),
    {
        Self::level(env) != PauseLevel::Operational
    }

    pub fn is_operational(env: &DrEnv) -> (b: bool)
        requires
            env@.pause_state is Some,
        ensures
            b == (env@.pause_state.unwrap().level == PauseLevel::Operational),
    {
        Self::level(env) == PauseLevel::Operational
    }

    /// Guard for state-changing operations.
    pub fn assert_operational(env: &DrEnv) -> (r: Result<(), DisasterRecoveryError>)
        requires
            env@.pause_state is Some,
        ensures
            r == spec_assert_operational(env@.pause_state.unwrap().level),
    {
        match Self::level(env) {
            PauseLevel::Operational => Ok(()),
            PauseLevel::Emergency => Err(DisasterRecoveryError::EmergencyOnlyMode),
            _ => Err(DisasterRecoveryError::ContractPaused),
        }
    }

    /// Guard for reads: refused only in an emergency.
    pub fn assert_reads_allowed(env: &DrEnv) -> (r: Result<(), DisasterRecoveryError>)
        requires
            env@.pause_state is Some,
        ensures
            r == (if env@.pause_state.unwrap().level == PauseLevel::Emergency {
                Err(DisasterRecoveryError::EmergencyOnlyMode)
            } else {
                Ok(())
            }),
    {
        match Self::level(env) {
            PauseLevel::Emergency => Err(DisasterRecoveryError::EmergencyOnlyMode),
            _ => Ok(()),
        }
    }

    /// The recent pauses and unpauses, oldest first.
    pub fn get_pause_history(env: &DrEnv) -> (h: Vec<PauseEvent>)
        ensures
            h@.map_values(|e: PauseEvent| e@) == env@.pause_history,
    {
        let mut h: Vec<PauseEvent> = Vec::new();
        let mut i: usize = 0;
        while i < env.pause_history.len()
            invariant
                0 <= i <= env.pause_history@.len(),
                h@.map_values(|e: PauseEvent| e@) =~= env@.pause_history.subrange(0, i as int),
            decreases env.pause_history@.len() - i,
        {
            let ghost before = h@;
            h.push(copy_pause_event(&env.pause_history[i]));
            assert(h@.map_values(|e: PauseEvent| e@) =~= before.map_values(|e: PauseEvent| e@).push(env.pause_history@[i as int]@));
            assert(env@.pause_history.subrange(0, i + 1) =~= env@.pause_history.subrange(0, i as int).push(env.pause_history@[i as int]@));
            i = i + 1;
        }
        h
    }
}

} // verus!
