//! The contract state the disaster-recovery modules share, with the current
//! ledger sequence.

use vstd::prelude::*;
use crate::common::{Address, str_lt};
use crate::store::Store;
use crate::disaster_recovery::monitoring::{Alert, AlertView, MonitoringConfig};
use crate::disaster_recovery::pause_control::{PauseEvent, PauseEventView, PauseState, PauseStateView};
use crate::disaster_recovery::circuit_breaker::{CircuitStatus, CircuitStatusView};
use crate::disaster_recovery::recovery::{
    AuditEntry, Checkpoint, CheckpointView, ProposalStatus, RecoveryCouncil, RecoveryCouncilView,
    RecoveryProposal, RecoveryProposalView,
};

verus! {

/// Everything the modules keep in instance storage.
pub struct DrEnv {
    /// Current ledger sequence number.
    pub ledger: u32,
    /// Admin of pausing and circuit breakers.
    pub admin: Option<Address>,
    pub pause_state: Option<PauseState>,
    pub guardians: Vec<Address>,
    /// Ledger before which no new pause or unpause is allowed.
    pub pause_cooldown: u32,
    pub pause_history: Vec<PauseEvent>,
    /// Circuits by id, in registration order.
    pub circuits: Vec<(String, CircuitStatus)>,
    pub council: Option<RecoveryCouncil>,
    pub proposal_nonce: u32,
    /// Proposals; the one with id `i` is at position `i - 1`.
    pub proposals: Vec<RecoveryProposal>,
    /// Address approved for a funds rescue.
    pub rescue_address: Option<Address>,
    pub checkpoints: Store<Checkpoint>,
    pub audit: Vec<AuditEntry>,
    pub monitoring: Option<MonitoringConfig>,
    /// Stored alerts in increasing id order.
    pub alerts: Vec<Alert>,
    pub alert_nonce: u32,
}

#[verifier::ext_equal]
pub struct DrEnvView {
    pub ledger: u32,
    pub admin: Option<Address>,
    pub pause_state: Option<PauseStateView>,
    pub guardians: Seq<Address>,
    pub pause_cooldown: u32,
    pub pause_history: Seq<PauseEventView>,
    pub circuits: Seq<(Seq<char>, CircuitStatusView)>,
    pub council: Option<RecoveryCouncilView>,
    pub proposal_nonce: u32,
    pub proposals: Seq<RecoveryProposalView>,
    pub rescue_address: Option<Address>,
    pub checkpoints: Map<u128, CheckpointView>,
    pub audit: Seq<AuditEntry>,
    pub monitoring: Option<MonitoringConfig>,
    pub alerts: Seq<AlertView>,
    pub alert_nonce: u32,
}

pub open spec fn opt_pause_view(s: Option<PauseState>) -> Option<PauseStateView> {
    match s {
        Some(p) => Some(p@),
        None => None,
    }
}

pub open spec fn opt_council_view(c: Option<RecoveryCouncil>) -> Option<RecoveryCouncilView> {
    match c {
        Some(x) => Some(x@),
        None => None,
    }
}

impl View for DrEnv {
    type V = DrEnvView;

    open spec fn view(&self) -> DrEnvView {
        DrEnvView {
            ledger: self.ledger,
            admin: self.admin,
            pause_state: opt_pause_view(self.pause_state),
            guardians: self.guardians@,
            pause_cooldown: self.pause_cooldown,
            pause_history: self.pause_history@.map_values(|e: PauseEvent| e@),
            circuits: self.circuits@.map_values(|e: (String, CircuitStatus)| (e.0@, e.1@)),
            council: opt_council_view(self.council),
            proposal_nonce: self.proposal_nonce,
            proposals: self.proposals@.map_values(|p: RecoveryProposal| p@),
            rescue_address: self.rescue_address,
            checkpoints: self.checkpoints@.map_values(|c: Checkpoint| c@),
            audit: self.audit@,
            monitoring: self.monitoring,
            alerts: self.alerts@.map_values(|a: Alert| a@),
            alert_nonce: self.alert_nonce,
        }
    }
}

/// Stored alerts have increasing ids, none above the last one issued.
pub open spec fn alerts_ordered(alerts: Seq<AlertView>, nonce: u32) -> bool {
    &&& forall|i: int, j: int| 0 <= i < j < alerts.len() ==> (#[trigger] alerts[i]).id < (#[trigger] alerts[j]).id
    &&& forall|i: int| 0 <= i < alerts.len() ==> (#[trigger] alerts[i]).id <= nonce
}

/// Proposal `i + 1` sits at position `i`, and there is one per id issued.
pub open spec fn proposals_numbered(proposals: Seq<RecoveryProposalView>, nonce: u32) -> bool {
    &&& proposals.len() == nonce
    &&& forall|i: int| 0 <= i < proposals.len() ==> (#[trigger] proposals[i]).id == i + 1
}

/// No member approves a proposal twice, and only a proposal with a quorum
/// of approvals is approved or executed.
pub open spec fn proposal_sound(p: RecoveryProposalView) -> bool {
    &&& p.approvals.no_duplicates()
    &&& (p.status == ProposalStatus::Approved || p.status == ProposalStatus::Executed) ==> p.approvals.len()
        >= p.required_quorum
}

pub open spec fn proposals_sound(ps: Seq<RecoveryProposalView>) -> bool {
    forall|i: int| 0 <= i < ps.len() ==> proposal_sound(#[trigger] ps[i])
}

/// No circuit id occurs twice.
pub open spec fn circuit_ids_unique(circuits: Seq<(Seq<char>, CircuitStatusView)>) -> bool {
    forall|i: int, j: int| 0 <= i < j < circuits.len() ==> (#[trigger] circuits[i]).0 != (#[trigger] circuits[j]).0
}

/// Circuits are kept in increasing id order, as a map keyed by id iterates.
pub open spec fn circuit_ids_sorted(circuits: Seq<(Seq<char>, CircuitStatusView)>) -> bool {
    forall|i: int, j: int| 0 <= i < j < circuits.len() ==> str_lt((#[trigger] circuits[i]).0, (#[trigger] circuits[j]).0)
}

impl DrEnv {
    pub open spec fn wf(&self) -> bool {
        &&& alerts_ordered(self@.alerts, self.alert_nonce)
        &&& proposals_numbered(self@.proposals, self.proposal_nonce)
        &&& proposals_sound(self@.proposals)
        &&& circuit_ids_unique(self@.circuits)
        &&& circuit_ids_sorted(self@.circuits)
        &&& self.circuits@.len() <= 20
        &&& self.checkpoints.wf()
    }

    /// Fresh contract storage at ledger `ledger`.
    pub fn new(ledger: u32) -> (e: Self)
        ensures
            e.wf(),
            e@ == (DrEnvView {
                ledger,
                admin: None,
                pause_state: None,
                guardians: Seq::empty(),
                pause_cooldown: 0,
                pause_history: Seq::empty(),
                circuits: Seq::empty(),
                council: None,
                proposal_nonce: 0,
                proposals: Seq::empty(),
                rescue_address: None,
                checkpoints: Map::empty(),
                audit: Seq::empty(),
                monitoring: None,
                alerts: Seq::empty(),
                alert_nonce: 0,
            }),
    {
        let e = DrEnv {
            ledger,
            admin: None,
            pause_state: None,
            guardians: Vec::new(),
            pause_cooldown: 0,
            pause_history: Vec::new(),
            circuits: Vec::new(),
            council: None,
            proposal_nonce: 0,
            proposals: Vec::new(),
            rescue_address: None,
            checkpoints: Store::new(),
            audit: Vec::new(),
            monitoring: None,
            alerts: Vec::new(),
            alert_nonce: 0,
        };
        assert(e@.checkpoints =~= Map::empty());
        assert(e@ =~= DrEnvView {
            ledger,
            admin: None,
            pause_state: None,
            guardians: Seq::empty(),
            pause_cooldown: 0,
            pause_history: Seq::empty(),
            circuits: Seq::empty(),
            council: None,
            proposal_nonce: 0,
            proposals: Seq::empty(),
            rescue_address: None,
            checkpoints: Map::empty(),
            audit: Seq::empty(),
            monitoring: None,
            alerts: Seq::empty(),
            alert_nonce: 0,
        });
        e
    }

    /// Move the ledger forward by `n` sequence numbers.
    pub fn advance_ledger(&mut self, n: u32)
        requires
            old(self).ledger + n <= u32::MAX,
        ensures
            final(self)@ == (DrEnvView { ledger: (old(self).ledger + n) as u32, ..old(self)@ }),
            final(self).wf() == old(self).wf(),
    {
        self.ledger = self.ledger + n;
    }
}

} // verus!
