//! Recovery proposals: council members propose an action, approvals reach a
//! quorum (three for admin rotation and upgrades, two otherwise), and an
//! approved proposal is executed within its time window.

use vstd::prelude::*;
use crate::common::{Address, contains_addr, remove_addr, without, copy_addrs, str_lt};
use crate::disaster_recovery::env::{DrEnv, DrEnvView, proposal_sound};
use crate::disaster_recovery::errors::DisasterRecoveryError;
use crate::disaster_recovery::monitoring::{AlertLevel, emit_event, emit_ok, spec_emit};
use crate::disaster_recovery::pause_control::keep_last;
use crate::disaster_recovery::circuit_breaker::{CircuitState, CircuitStatusView};

verus! {

/// Ledgers a proposal stays open.
pub const RECOVERY_PROPOSAL_TTL: u32 = 2_000;
/// Approvals for a standard action.
pub const STANDARD_QUORUM: u32 = 2;
/// Approvals for admin rotation and contract upgrade.
pub const HIGH_IMPACT_QUORUM: u32 = 3;
/// Most proposals pending at once.
pub const MAX_OPEN_PROPOSALS: u32 = 5;
/// Audit entries kept.
pub const MAX_AUDIT_ENTRIES: u32 = 100;

#[derive(Clone, Copy, Debug, PartialEq, Eq, Structural)]
pub enum RecoveryActionType {
    StateRollback,
    FundsRescue,
    AdminRotation,
    DataRepair,
    ContractUpgrade,
    ResetCircuits,
}

#[derive(Clone, Copy, Debug, PartialEq, Eq, Structural)]
pub enum ProposalStatus {
    Pending,
    Approved,
    Executed,
    Expired,
    Rejected,
}

#[derive(Debug)]
pub struct RecoveryProposal {
    pub id: u32,
    pub action_type: RecoveryActionType,
    pub proposer: Address,
    pub description: String,
    pub target_address: Option<Address>,
    pub data: Vec<u32>,
    pub proposed_at: u32,
    pub expires_at: u32,
    pub status: ProposalStatus,
    pub approvals: Vec<Address>,
    pub required_quorum: u32,
    pub executed_at: u32,
    pub executed_by: Option<Address>,
}

pub struct RecoveryProposalView {
    pub id: u32,
    pub action_type: RecoveryActionType,
    pub proposer: Address,
    pub description: Seq<char>,
    pub target_address: Option<Address>,
    pub data: Seq<u32>,
    pub proposed_at: u32,
    pub expires_at: u32,
    pub status: ProposalStatus,
    pub approvals: Seq<Address>,
    pub required_quorum: u32,
    pub executed_at: u32,
    pub executed_by: Option<Address>,
}

impl View for RecoveryProposal {
    type V = RecoveryProposalView;

    open spec fn view(&self) -> RecoveryProposalView {
        RecoveryProposalView {
            id: self.id,
            action_type: self.action_type,
            proposer: self.proposer,
            description: self.description@,
            target_address: self.target_address,
            data: self.data@,
            proposed_at: self.proposed_at,
            expires_at: self.expires_at,
            status: self.status,
            approvals: self.approvals@,
            required_quorum: self.required_quorum,
            executed_at: self.executed_at,
            executed_by: self.executed_by,
        }
    }
}

#[derive(Debug)]
pub struct RecoveryCouncil {
    pub members: Vec<Address>,
    pub admin: Address,
}

pub struct RecoveryCouncilView {
    pub members: Seq<Address>,
    pub admin: Address,
}

impl View for RecoveryCouncil {
    type V = RecoveryCouncilView;

    open spec fn view(&self) -> RecoveryCouncilView {
        RecoveryCouncilView { members: self.members@, admin: self.admin }
    }
}

/// A saved state checkpoint.
#[derive(Debug)]
pub struct Checkpoint {
    pub id: u32,
    pub state_hash: [u8; 32],
    pub description: String,
    pub ledger: u32,
}

pub struct CheckpointView {
    pub id: u32,
    pub state_hash: Seq<u8>,
    pub description: Seq<char>,
    pub ledger: u32,
}

impl View for Checkpoint {
    type V = CheckpointView;

    open spec fn view(&self) -> CheckpointView {
        CheckpointView { id: self.id, state_hash: self.state_hash@, description: self.description@, ledger: self.ledger }
    }
}

/// One executed proposal in the audit log.
#[derive(Clone, Copy, Debug, PartialEq, Eq, Structural)]
pub struct AuditEntry {
    pub proposal_id: u32,
    pub executor: Address,
    pub ledger: u32,
}

fn copy_data(v: &Vec<u32>) -> (r: Vec<u32>)
    ensures
        r@ == v@,
{
    let mut r: Vec<u32> = Vec::new();
    let mut i: usize = 0;
    while i < v.len()
        invariant
            0 <= i <= v@.len(),
            r@ == v@.subrange(0, i as int),
        decreases v@.len() - i,
    {
        r.push(v[i]);
        assert(v@.subrange(0, i + 1) =~= v@.subrange(0, i as int).push(v@[i as int]));
        i = i + 1;
    }
    assert(v@.subrange(0, v@.len() as int) =~= v@);
    r
}

pub fn copy_proposal(p: &RecoveryProposal) -> (c: RecoveryProposal)
    ensures
        c@ == p@,
{
    RecoveryProposal {
        id: p.id,
        action_type: p.action_type,
        proposer: p.proposer,
        description: p.description.clone(),
        target_address: p.target_address,
        data: copy_data(&p.data),
        proposed_at: p.proposed_at,
        expires_at: p.expires_at,
        status: p.status,
        approvals: copy_addrs(&p.approvals),
        required_quorum: p.required_quorum,
        executed_at: p.executed_at,
        executed_by: p.executed_by,
    }
}

/// Approvals an action needs.
pub open spec fn spec_required_quorum(action: RecoveryActionType) -> u32 {
    match action {
        RecoveryActionType::ContractUpgrade | RecoveryActionType::AdminRotation => HIGH_IMPACT_QUORUM,
        _ => STANDARD_QUORUM,
    }
}

/// The council admin check.
pub open spec fn spec_council_admin(v: DrEnvView, caller: Address) -> Result<(), DisasterRecoveryError> {
    match v.council {
        Some(c) => if c.admin == caller {
            Ok(())
        } else {
            Err(DisasterRecoveryError::NotAdmin)
        },
        None => Err(DisasterRecoveryError::NotAdmin),
    }
}

/// The council admin or a council member.
pub open spec fn spec_council_or_admin(v: DrEnvView, caller: Address) -> Result<(), DisasterRecoveryError> {
    match v.council {
        Some(c) => if c.admin == caller || c.members.contains(caller) {
            Ok(())
        } else {
            Err(DisasterRecoveryError::NotRecoveryCouncil)
        },
        None => Err(DisasterRecoveryError::NotRecoveryCouncil),
    }
}

pub open spec fn is_pending(p: RecoveryProposalView) -> bool {
    p.status == ProposalStatus::Pending
}

/// Proposals still awaiting approvals.
pub open spec fn spec_pending_count(ps: Seq<RecoveryProposalView>) -> nat {
    ps.filter(|p: RecoveryProposalView| is_pending(p)).len()
}

pub open spec fn has_proposal(v: DrEnvView, id: u32) -> bool {
    1 <= id <= v.proposals.len()
}

pub open spec fn proposal_at(v: DrEnvView, id: u32) -> RecoveryProposalView {
    v.proposals[id - 1]
}

/// The state with proposal `id` replaced by `p`.
pub open spec fn with_proposal(v: DrEnvView, id: u32, p: RecoveryProposalView) -> DrEnvView {
    DrEnvView { proposals: v.proposals.update(id - 1, p), ..v }
}

/// Every circuit closed with a fresh window.
pub open spec fn spec_reset_circuits(
    c: Seq<(Seq<char>, CircuitStatusView)>,
    now: u32,
) -> Seq<(Seq<char>, CircuitStatusView)> {
    c.map_values(
        |e: (Seq<char>, CircuitStatusView)|
            (e.0, CircuitStatusView { state: CircuitState::Closed, window_value: 0, window_start: now, consecutive_ok: 0, ..e.1 }),
    )
}

/// Whether the action of `p` can be carried out.
pub open spec fn spec_dispatch_result(p: RecoveryProposalView) -> Result<(), DisasterRecoveryError> {
    match p.action_type {
        RecoveryActionType::AdminRotation | RecoveryActionType::FundsRescue => if p.target_address is None {
            Err(DisasterRecoveryError::RecoveryActionInvalid)
        } else {
            Ok(())
        },
        RecoveryActionType::StateRollback => if p.data.len() == 0 {
            Err(DisasterRecoveryError::RecoveryActionInvalid)
        } else {
            Ok(())
        },
        _ => Ok(()),
    }
}

/// The state after the action of `p` is carried out.
pub open spec fn spec_dispatch_state(v: DrEnvView, p: RecoveryProposalView) -> DrEnvView {
    match p.action_type {
        RecoveryActionType::ResetCircuits => DrEnvView { circuits: spec_reset_circuits(v.circuits, v.ledger), ..v },
        RecoveryActionType::AdminRotation => DrEnvView { admin: p.target_address, ..v },
        RecoveryActionType::FundsRescue => DrEnvView { rescue_address: p.target_address, ..v },
        _ => v,
    }
}

/// Result of an execution request.
pub open spec fn spec_execute_result(v: DrEnvView, executor: Address, id: u32) -> Result<RecoveryActionType, DisasterRecoveryError> {
    let p = proposal_at(v, id);
    if spec_council_or_admin(v, executor) is Err {
        Err(DisasterRecoveryError::NotRecoveryCouncil)
    } else if !has_proposal(v, id) {
        Err(DisasterRecoveryError::RecoveryNotActive)
    } else if p.status == ProposalStatus::Executed {
        Err(DisasterRecoveryError::RecoveryAlreadyExecuted)
    } else if p.status == ProposalStatus::Expired {
        Err(DisasterRecoveryError::RecoveryExpired)
    } else if p.status != ProposalStatus::Approved {
        Err(DisasterRecoveryError::InsufficientQuorum)
    } else if v.ledger > p.expires_at {
        Err(DisasterRecoveryError::RecoveryWindowClosed)
    } else if spec_dispatch_result(p) is Err {
        Err(DisasterRecoveryError::RecoveryActionInvalid)
    } else {
        Ok(p.action_type)
    }
}

/// State after a successful execution: the action, the proposal marked
/// executed, the event and the audit entry.
pub open spec fn spec_executed_state(v: DrEnvView, executor: Address, id: u32) -> DrEnvView {
    let p = proposal_at(v, id);
    let d = with_proposal(
        spec_dispatch_state(v, p),
        id,
        RecoveryProposalView {
            status: ProposalStatus::Executed,
            executed_at: v.ledger,
            executed_by: Some(executor),
            ..p
        },
    );
    let e = spec_emit(d, "RecoveryExecuted"@, AlertLevel::Warning, p.description);
    DrEnvView {
        audit: keep_last(
            e.audit.push(AuditEntry { proposal_id: id, executor, ledger: v.ledger }),
            MAX_AUDIT_ENTRIES as int,
        ),
        ..e
    }
}

/// Result of an approval.
pub open spec fn spec_approve_result(v: DrEnvView, approver: Address, id: u32) -> Result<ProposalStatus, DisasterRecoveryError> {
    let p = proposal_at(v, id);
    if spec_council_or_admin(v, approver) is Err {
        Err(DisasterRecoveryError::NotRecoveryCouncil)
    } else if !has_proposal(v, id) {
        Err(DisasterRecoveryError::RecoveryNotActive)
    } else if p.status != ProposalStatus::Pending {
        Err(DisasterRecoveryError::RecoveryAlreadyExecuted)
    } else if v.ledger > p.expires_at {
        Err(DisasterRecoveryError::RecoveryExpired)
    } else if p.approvals.contains(approver) {
        Ok(p.status)
    } else if p.approvals.len() + 1 >= p.required_quorum {
        Ok(ProposalStatus::Approved)
    } else {
        Ok(ProposalStatus::Pending)
    }
}

/// State after `approve`: an expired proposal is marked expired; a refusal
/// or a repeated approval changes nothing; otherwise the approver is added,
/// and reaching the quorum approves the proposal and raises an alert.
pub open spec fn spec_approve_state(v: DrEnvView, approver: Address, id: u32) -> DrEnvView {
    let p = proposal_at(v, id);
    let added = RecoveryProposalView { approvals: p.approvals.push(approver), ..p };
    let r = spec_approve_result(v, approver, id);
    if r == Err::<ProposalStatus, DisasterRecoveryError>(DisasterRecoveryError::RecoveryExpired) {
        with_proposal(v, id, RecoveryProposalView { status: ProposalStatus::Expired, ..p })
    } else if r is Err || p.approvals.contains(approver) {
        v
    } else if r == Ok::<ProposalStatus, DisasterRecoveryError>(ProposalStatus::Approved) {
        spec_emit(
            with_proposal(v, id, RecoveryProposalView { status: ProposalStatus::Approved, ..added }),
            "RecoveryApproved"@,
            AlertLevel::Warning,
            "quorum_reached"@,
        )
    } else {
        with_proposal(v, id, added)
    }
}

pub struct RecoveryManager;

impl RecoveryManager {
    /// Set up the council: `admin` and `council_members`; no proposals yet.
    pub fn initialize(env: &mut DrEnv, admin: Address, council_members: Vec<Address>)
        requires
            old(env).wf(),
        ensures
            final(env).wf(),
            final(env)@ == (DrEnvView {
                council: Some(RecoveryCouncilView { members: council_members@, admin }),
                proposal_nonce: 0,
                proposals: Seq::empty(),
                ..old(env)@
            }),
    {
        env.council = Some(RecoveryCouncil { members: council_members, admin });
        env.proposal_nonce = 0;
        env.proposals = Vec::new();
        assert(env@ =~= DrEnvView {
            council: Some(RecoveryCouncilView { members: council_members@, admin }),
            proposal_nonce: 0,
            proposals: Seq::empty(),
            ..old(env)@
        });
    }

    /// Approvals an action needs: three for an upgrade or an admin rotation,
    /// two otherwise.
    pub fn required_quorum_for(action: &RecoveryActionType) -> (q: u32)
        ensures
            q == spec_required_quorum(*action),
    {
        match action {
            RecoveryActionType::ContractUpgrade | RecoveryActionType::AdminRotation => HIGH_IMPACT_QUORUM,
            _ => STANDARD_QUORUM,
        }
    }

    fn require_admin(env: &DrEnv, caller: Address) -> (r: Result<(), DisasterRecoveryError>)
        ensures
            r == spec_council_admin(env@, caller),
    {
        match &env.council {
            Some(c) => if c.admin == caller {
                Ok(())
            } else {
                Err(DisasterRecoveryError::NotAdmin)
            },
            None => Err(DisasterRecoveryError::NotAdmin),
        }
    }

    fn require_council_or_admin(env: &DrEnv, caller: Address) -> (r: Result<(), DisasterRecoveryError>)
        ensures
            r == spec_council_or_admin(env@, caller),
    {
        match &env.council {
            Some(c) => if c.admin == caller || contains_addr(&c.members, caller) {
                Ok(())
            } else {
                Err(DisasterRecoveryError::NotRecoveryCouncil)
            },
            None => Err(DisasterRecoveryError::NotRecoveryCouncil),
        }
    }

    fn pending_count(env: &DrEnv) -> (n: usize)
        ensures
            n == spec_pending_count(env@.proposals),
    {
        let mut n: usize = 0;
        let mut i: usize = 0;
        while i < env.proposals.len()
            invariant
                0 <= i <= env.proposals@.len(),
                n == env@.proposals.subrange(0, i as int).filter(|p: RecoveryProposalView| is_pending(p)).len(),
                n <= i,
            decreases env.proposals@.len() - i,
        {
            proof {
                reveal_with_fuel(Seq::<_>::filter, 1);
                assert(env@.proposals.subrange(0, i + 1).drop_last() =~= env@.proposals.subrange(0, i as int));
                assert(env@.proposals.subrange(0, i + 1).last() == env@.proposals[i as int]);
            }
            if env.proposals[i].status == ProposalStatus::Pending {
                n = n + 1;
            }
            i = i + 1;
        }
        assert(env@.proposals.subrange(0, env.proposals@.len() as int) =~= env@.proposals);
        n
    }

    fn store_proposal(env: &mut DrEnv, id: u32, p: RecoveryProposal)
        requires
            old(env).wf(),
            has_proposal(old(env)@, id),
            p.id == id,
            proposal_sound(p@),
        ensures
            final(env).wf(),
            final(env)@ == with_proposal(old(env)@, id, p@),
    {
        env.proposals.set((id - 1) as usize, p);
        assert(env@.proposals =~= old(env)@.proposals.update(id - 1, p@));
        assert(env@ =~= with_proposal(old(env)@, id, p@));
    }

    /// Submit a proposal (council members and admin). At most five may be
    /// pending at once. Returns the new proposal's id.
    pub fn propose(
        env: &mut DrEnv,
        proposer: Address,
        action_type: RecoveryActionType,
        description: String,
        target_address: Option<Address>,
        data: Vec<u32>,
    ) -> (r: Result<u32, DisasterRecoveryError>)
        requires
            old(env).wf(),
            spec_council_or_admin(old(env)@, proposer) is Ok && spec_pending_count(old(env)@.proposals) < MAX_OPEN_PROPOSALS ==> {
                &&& old(env).proposal_nonce < u32::MAX
                &&& old(env).ledger + RECOVERY_PROPOSAL_TTL <= u32::MAX
                &&& emit_ok(old(env)@, AlertLevel::Warning)
            },
        ensures
            final(env).wf(),
            ({
                let v = old(env)@;
                &&& r == (if spec_council_or_admin(v, proposer) is Err {
                    Err(DisasterRecoveryError::NotRecoveryCouncil)
                } else if spec_pending_count(v.proposals) >= MAX_OPEN_PROPOSALS {
                    Err(DisasterRecoveryError::RecoveryAlreadyActive)
                } else {
                    Ok((v.proposal_nonce + 1) as u32)
                })
                &&& r is Err ==> final(env)@ == v
                &&& r matches Ok(id) ==> final(env)@ == spec_emit(
                    DrEnvView {
                        proposals: v.proposals.push(RecoveryProposalView {
                            id,
                            action_type,
                            proposer,
                            description: description@,
                            target_address,
                            data: data@,
                            proposed_at: v.ledger,
                            expires_at: (v.ledger + RECOVERY_PROPOSAL_TTL) as u32,
                            status: ProposalStatus::Pending,
                            approvals: Seq::empty(),
                            required_quorum: spec_required_quorum(action_type),
                            executed_at: 0,
                            executed_by: None,
                        }),
                        proposal_nonce: id,
                        ..v
                    },
                    "RecoveryProposed"@,
                    AlertLevel::Warning,
                    description@,
                )
            }),
    {
        match Self::require_council_or_admin(env, proposer) {
            Err(e) => return Err(e),
            Ok(()) => {},
        }
        if Self::pending_count(env) >= MAX_OPEN_PROPOSALS as usize {
            return Err(DisasterRecoveryError::RecoveryAlreadyActive);
        }
        let ghost v = env@;
        let quorum = Self::required_quorum_for(&action_type);
        let nonce = env.proposal_nonce + 1;
        let current = env.ledger;
        let proposal = RecoveryProposal {
            id: nonce,
            action_type,
            proposer,
            description: description.clone(),
            target_address,
            data,
            proposed_at: current,
            expires_at: current + RECOVERY_PROPOSAL_TTL,
            status: ProposalStatus::Pending,
            approvals: Vec::new(),
            required_quorum: quorum,
            executed_at: 0,
            executed_by: None,
        };
        let ghost pv = proposal@;
        env.proposals.push(proposal);
        env.proposal_nonce = nonce;
        assert(env@ =~= DrEnvView { proposals: v.proposals.push(pv), proposal_nonce: nonce, ..v });
        emit_event(env, "RecoveryProposed", AlertLevel::Warning, &description);
        Ok(nonce)
    }

    /// Approve a pending proposal; reaching the quorum makes it approved.
    /// Approving twice changes nothing; approving after expiry marks the
    /// proposal expired.
    pub fn approve(env: &mut DrEnv, approver: Address, proposal_id: u32) -> (r: Result<ProposalStatus, DisasterRecoveryError>)
        requires
            old(env).wf(),
            spec_approve_result(old(env)@, approver, proposal_id) == Ok::<ProposalStatus, DisasterRecoveryError>(
                ProposalStatus::Approved,
            ) ==> emit_ok(old(env)@, AlertLevel::Warning),
        ensures
            final(env).wf(),
            r == spec_approve_result(old(env)@, approver, proposal_id),
            final(env)@ == spec_approve_state(old(env)@, approver, proposal_id),
            ({
                let v = old(env)@;
                let p = proposal_at(v, proposal_id);
                let added = RecoveryProposalView { approvals: p.approvals.push(approver), ..p };
                &&& r == Err::<ProposalStatus, DisasterRecoveryError>(DisasterRecoveryError::RecoveryExpired) ==> final(env)@
                    == with_proposal(v, proposal_id, RecoveryProposalView { status: ProposalStatus::Expired, ..p })
                &&& (r is Err && r != Err::<ProposalStatus, DisasterRecoveryError>(DisasterRecoveryError::RecoveryExpired))
                    ==> final(env)@ == v
                &&& (r is Ok && p.approvals.contains(approver)) ==> final(env)@ == v
                &&& r == Ok::<ProposalStatus, DisasterRecoveryError>(ProposalStatus::Pending) && !p.approvals.contains(approver)
                    ==> final(env)@ == with_proposal(v, proposal_id, added)
                &&& r == Ok::<ProposalStatus, DisasterRecoveryError>(ProposalStatus::Approved) ==> final(env)@ == spec_emit(
                    with_proposal(v, proposal_id, RecoveryProposalView { status: ProposalStatus::Approved, ..added }),
                    "RecoveryApproved"@,
                    AlertLevel::Warning,
                    "quorum_reached"@,
                )
            }),
    {
        match Self::require_council_or_admin(env, approver) {
            Err(e) => return Err(e),
            Ok(()) => {},
        }
        if proposal_id == 0 || proposal_id as usize > env.proposals.len() {
            return Err(DisasterRecoveryError::RecoveryNotActive);
        }
        let idx = (proposal_id - 1) as usize;
        assert(env@.proposals[idx as int] == env.proposals@[idx as int]@);
        let mut proposal = copy_proposal(&env.proposals[idx]);
        if proposal.status != ProposalStatus::Pending {
            return Err(DisasterRecoveryError::RecoveryAlreadyExecuted);
        }
        if env.ledger > proposal.expires_at {
            proposal.status = ProposalStatus::Expired;
            Self::store_proposal(env, proposal_id, proposal);
            return Err(DisasterRecoveryError::RecoveryExpired);
        }
        if contains_addr(&proposal.approvals, approver) {
            return Ok(proposal.status);
        }
        proposal.approvals.push(approver);
        if proposal.approvals.len() >= proposal.required_quorum as usize {
            proposal.status = ProposalStatus::Approved;
            Self::store_proposal(env, proposal_id, proposal);
            emit_event(env, "RecoveryApproved", AlertLevel::Warning, &"quorum_reached".to_owned());
            return Ok(ProposalStatus::Approved);
        }
        let status = proposal.status;
        Self::store_proposal(env, proposal_id, proposal);
        Ok(status)
    }

    /// Reject a pending proposal (any council member or the admin).
    pub fn reject(env: &mut DrEnv, rejecter: Address, proposal_id: u32) -> (r: Result<(), DisasterRecoveryError>)
        requires
            old(env).wf(),
            emit_ok(old(env)@, AlertLevel::Info),
        ensures
            final(env).wf(),
            ({
                let v = old(env)@;
                let p = proposal_at(v, proposal_id);
                &&& r == (if spec_council_or_admin(v, rejecter) is Err {
                    Err(DisasterRecoveryError::NotRecoveryCouncil)
                } else if !has_proposal(v, proposal_id) {
                    Err(DisasterRecoveryError::RecoveryNotActive)
                } else if p.status != ProposalStatus::Pending {
                    Err(DisasterRecoveryError::RecoveryAlreadyExecuted)
                } else {
                    Ok(())
                })
                &&& r is Err ==> final(env)@ == v
                &&& r is Ok ==> final(env)@ == spec_emit(
                    with_proposal(v, proposal_id, RecoveryProposalView { status: ProposalStatus::Rejected, ..p }),
                    "RecoveryRejected"@,
                    AlertLevel::Info,
                    "proposal_rejected"@,
                )
            }),
    {
        match Self::require_council_or_admin(env, rejecter) {
            Err(e) => return Err(e),
            Ok(()) => {},
        }
        if proposal_id == 0 || proposal_id as usize > env.proposals.len() {
            return Err(DisasterRecoveryError::RecoveryNotActive);
        }
        let idx = (proposal_id - 1) as usize;
        assert(env@.proposals[idx as int] == env.proposals@[idx as int]@);
        let mut proposal = copy_proposal(&env.proposals[idx]);
        if proposal.status != ProposalStatus::Pending {
            return Err(DisasterRecoveryError::RecoveryAlreadyExecuted);
        }
        proposal.status = ProposalStatus::Rejected;
        Self::store_proposal(env, proposal_id, proposal);
        emit_event(env, "RecoveryRejected", AlertLevel::Info, &"proposal_rejected".to_owned());
        Ok(())
    }

    fn reset_circuits(env: &mut DrEnv)
        requires
            old(env).wf(),
        ensures
            final(env).wf(),
            final(env)@ == (DrEnvView { circuits: spec_reset_circuits(old(env)@.circuits, old(env).ledger), ..old(env)@ }),
    {
        let ghost v = env@;
        let mut i: usize = 0;
        while i < env.circuits.len()
            invariant
                env.wf(),
                0 <= i <= env.circuits@.len(),
                env@.circuits.len() == v.circuits.len(),
                env.ledger == v.ledger,
                forall|j: int| 0 <= j < i ==> env@.circuits[j] == spec_reset_circuits(v.circuits, v.ledger)[j],
                forall|j: int| i <= j < env@.circuits.len() ==> env@.circuits[j] == v.circuits[j],
                env@ == (DrEnvView { circuits: env@.circuits, ..v }),
            decreases env.circuits@.len() - i,
        {
            let mut status = crate::disaster_recovery::circuit_breaker::copy_status(&env.circuits[i].1);
            let id = env.circuits[i].0.clone();
            status.state = CircuitState::Closed;
            status.window_value = 0;
            status.window_start = env.ledger;
            status.consecutive_ok = 0;
            let ghost before = env@.circuits;
            env.circuits.set(i, (id, status));
            proof {
                assert(env@.circuits =~= before.update(i as int, env@.circuits[i as int]));
                assert forall|a: int, b: int| 0 <= a < b < env@.circuits.len() implies
                    (#[trigger] env@.circuits[a]).0 != (#[trigger] env@.circuits[b]).0
                    && str_lt(env@.circuits[a].0, env@.circuits[b].0) by {
                    assert(env@.circuits[a].0 == before[a].0);
                    assert(env@.circuits[b].0 == before[b].0);
                }
            }
            i = i + 1;
        }
        assert(env@.circuits =~= spec_reset_circuits(v.circuits, v.ledger));
        assert(env@ =~= DrEnvView { circuits: spec_reset_circuits(v.circuits, v.ledger), ..v });
    }

    fn dispatch_recovery(env: &mut DrEnv, proposal: &RecoveryProposal) -> (r: Result<(), DisasterRecoveryError>)
        requires
            old(env).wf(),
        ensures
            final(env).wf(),
            r == spec_dispatch_result(proposal@),
            r is Err ==> final(env)@ == old(env)@,
            r is Ok ==> final(env)@ == spec_dispatch_state(old(env)@, proposal@),
    {
        match proposal.action_type {
            RecoveryActionType::ResetCircuits => {
                Self::reset_circuits(env);
            },
            RecoveryActionType::AdminRotation => {
                match proposal.target_address {
                    Some(a) => {
                        env.admin = Some(a);
                    },
                    None => return Err(DisasterRecoveryError::RecoveryActionInvalid),
                }
            },
            RecoveryActionType::StateRollback => {
                if proposal.data.len() == 0 {
                    return Err(DisasterRecoveryError::RecoveryActionInvalid);
                }
            },
            RecoveryActionType::FundsRescue => {
                if proposal.target_address.is_none() {
                    return Err(DisasterRecoveryError::RecoveryActionInvalid);
                }
                env.rescue_address = proposal.target_address;
            },
            RecoveryActionType::DataRepair => {},
            RecoveryActionType::ContractUpgrade => {},
        }
        assert(env@ =~= spec_dispatch_state(old(env)@, proposal@));
        Ok(())
    }

    fn append_audit(env: &mut DrEnv, proposal_id: u32, executor: Address)
        requires
            old(env).wf(),
            old(env).audit@.len() <= MAX_AUDIT_ENTRIES,
        ensures
            final(env).wf(),
            final(env)@ == (DrEnvView {
                audit: keep_last(
                    old(env)@.audit.push(AuditEntry { proposal_id, executor, ledger: old(env).ledger }),
                    MAX_AUDIT_ENTRIES as int,
                ),
                ..old(env)@
            }),
    {
        let ghost grown = env@.audit.push(AuditEntry { proposal_id, executor, ledger: env.ledger });
        env.audit.push(AuditEntry { proposal_id, executor, ledger: env.ledger });
        if env.audit.len() > MAX_AUDIT_ENTRIES as usize {
            env.audit.remove(0);
            assert(env.audit@ =~= keep_last(grown, MAX_AUDIT_ENTRIES as int));
        }
        assert(env@ =~= DrEnvView { audit: keep_last(grown, MAX_AUDIT_ENTRIES as int), ..old(env)@ });
    }

    /// Execute an approved proposal within its window: the action is carried
    /// out, the proposal marked executed and the execution audited.
    pub fn execute(env: &mut DrEnv, executor: Address, proposal_id: u32) -> (r: Result<RecoveryActionType, DisasterRecoveryError>)
        requires
            old(env).wf(),
            old(env).audit@.len() <= MAX_AUDIT_ENTRIES,
            emit_ok(old(env)@, AlertLevel::Warning),
        ensures
            final(env).wf(),
            final(env).audit@.len() <= MAX_AUDIT_ENTRIES,
            r == spec_execute_result(old(env)@, executor, proposal_id),
            r == Err::<RecoveryActionType, DisasterRecoveryError>(DisasterRecoveryError::RecoveryWindowClosed) ==> final(env)@
                == with_proposal(
                old(env)@,
                proposal_id,
                RecoveryProposalView { status: ProposalStatus::Expired, ..proposal_at(old(env)@, proposal_id) },
            ),
            (r is Err && r != Err::<RecoveryActionType, DisasterRecoveryError>(DisasterRecoveryError::RecoveryWindowClosed))
                ==> final(env)@ == old(env)@,
            r is Ok ==> final(env)@ == spec_executed_state(old(env)@, executor, proposal_id),
    {
        match Self::require_council_or_admin(env, executor) {
            Err(e) => return Err(e),
            Ok(()) => {},
        }
        if proposal_id == 0 || proposal_id as usize > env.proposals.len() {
            return Err(DisasterRecoveryError::RecoveryNotActive);
        }
        let idx = (proposal_id - 1) as usize;
        assert(env@.proposals[idx as int] == env.proposals@[idx as int]@);
        let mut proposal = copy_proposal(&env.proposals[idx]);
        match proposal.status {
            ProposalStatus::Approved => {},
            ProposalStatus::Executed => return Err(DisasterRecoveryError::RecoveryAlreadyExecuted),
            ProposalStatus::Expired => return Err(DisasterRecoveryError::RecoveryExpired),
            _ => return Err(DisasterRecoveryError::InsufficientQuorum),
        }
        if env.ledger > proposal.expires_at {
            proposal.status = ProposalStatus::Expired;
            Self::store_proposal(env, proposal_id, proposal);
            return Err(DisasterRecoveryError::RecoveryWindowClosed);
        }
        let action_type = proposal.action_type;
        match Self::dispatch_recovery(env, &proposal) {
            Err(e) => return Err(e),
            Ok(()) => {},
        }
        let now = env.ledger;
        proposal.status = ProposalStatus::Executed;
        proposal.executed_at = now;
        proposal.executed_by = Some(executor);
        let description = proposal.description.clone();
        Self::store_proposal(env, proposal_id, proposal);
        emit_event(env, "RecoveryExecuted", AlertLevel::Warning, &description);
        Self::append_audit(env, proposal_id, executor);
        Ok(action_type)
    }

    /// Save checkpoint `checkpoint_id` with the hash of the contract state.
    pub fn save_checkpoint(env: &mut DrEnv, checkpoint_id: u32, state_hash: [u8; 32], description: String)
        requires
            old(env).wf(),
        ensures
            final(env).wf(),
            final(env)@ == (DrEnvView {
                checkpoints: old(env)@.checkpoints.insert(
                    checkpoint_id as u128,
                    CheckpointView {
                        id: checkpoint_id,
                        state_hash: state_hash@,
                        description: description@,
                        ledger: old(env).ledger,
                    },
                ),
                ..old(env)@
            }),
    {
        let cp = Checkpoint { id: checkpoint_id, state_hash, description, ledger: env.ledger };
        let ghost cv = cp@;
        env.checkpoints.set(checkpoint_id as u128, cp);
        assert(env@.checkpoints =~= old(env)@.checkpoints.insert(checkpoint_id as u128, cv));
        assert(env@ =~= DrEnvView { checkpoints: old(env)@.checkpoints.insert(checkpoint_id as u128, cv), ..old(env)@ });
    }

    /// Add a council member (council admin only); adding one twice changes
    /// nothing.
    pub fn add_council_member(env: &mut DrEnv, admin: Address, member: Address) -> (r: Result<(), DisasterRecoveryError>)
        requires
            old(env).wf(),
        ensures
            final(env).wf(),
            r == spec_council_admin(old(env)@, admin),
            r is Err ==> final(env)@ == old(env)@,
            r is Ok ==> ({
                let c = old(env)@.council.unwrap();
                final(env)@ == (DrEnvView {
                    council: Some(RecoveryCouncilView {
                        members: if c.members.contains(member) { c.members } else { c.members.push(member) },
                        ..c
                    }),
                    ..old(env)@
                })
            }),
    {
        match Self::require_admin(env, admin) {
            Err(e) => return Err(e),
            Ok(()) => {},
        }
        let council = env.council.take();
        match council {
            Some(mut c) => {
                if !contains_addr(&c.members, member) {
                    c.members.push(member);
                }
                env.council = Some(c);
            },
            None => {},
        }
        assert(env@ =~= DrEnvView { council: env@.council, ..old(env)@ });
        Ok(())
    }

    /// Remove a council member (council admin only).
    pub fn remove_council_member(env: &mut DrEnv, admin: Address, member: Address) -> (r: Result<(), DisasterRecoveryError>)
        requires
            old(env).wf(),
        ensures
            final(env).wf(),
            r == spec_council_admin(old(env)@, admin),
            r is Err ==> final(env)@ == old(env)@,
            r is Ok ==> ({
                let c = old(env)@.council.unwrap();
                final(env)@ == (DrEnvView {
                    council: Some(RecoveryCouncilView { members: without(c.members, member), ..c }),
                    ..old(env)@
                })
            }),
    {
        match Self::require_admin(env, admin) {
            Err(e) => return Err(e),
            Ok(()) => {},
        }
        let council = env.council.take();
        match council {
            Some(mut c) => {
                c.members = remove_addr(&c.members, member);
                env.council = Some(c);
            },
            None => {},
        }
        assert(env@ =~= DrEnvView { council: env@.council, ..old(env)@ });
        Ok(())
    }

    /// Proposal `proposal_id`, if it exists.
    pub fn get_proposal(env: &DrEnv, proposal_id: u32) -> (r: Option<RecoveryProposal>)
        requires
            env.wf(),
        ensures
            r is Some <==> has_proposal(env@, proposal_id),
            r matches Some(p) ==> p@ == proposal_at(env@, proposal_id),
    {
        if proposal_id == 0 || proposal_id as usize > env.proposals.len() {
            return None;
        }
        let idx = (proposal_id - 1) as usize;
        assert(env@.proposals[idx as int] == env.proposals@[idx as int]@);
        Some(copy_proposal(&env.proposals[idx]))
    }

    /// Proposals pending or approved, in id order.
    pub fn list_pending_proposals(env: &DrEnv) -> (r: Vec<RecoveryProposal>)
        ensures
            r@.map_values(|p: RecoveryProposal| p@) == env@.proposals.filter(
                |p: RecoveryProposalView| p.status == ProposalStatus::Pending || p.status == ProposalStatus::Approved,
            ),
    {
        let mut r: Vec<RecoveryProposal> = Vec::new();
        let mut i: usize = 0;
        while i < env.proposals.len()
            invariant
                0 <= i <= env.proposals@.len(),
                r@.map_values(|p: RecoveryProposal| p@) == env@.proposals.subrange(0, i as int).filter(
                    |p: RecoveryProposalView| p.status == ProposalStatus::Pending || p.status == ProposalStatus::Approved,
                ),
            decreases env.proposals@.len() - i,
        {
            proof {
                reveal_with_fuel(Seq::<_>::filter, 1);
                assert(env@.proposals.subrange(0, i + 1).drop_last() =~= env@.proposals.subrange(0, i as int));
                assert(env@.proposals.subrange(0, i + 1).last() == env.proposals@[i as int]@);
            }
            let st = env.proposals[i].status;
            if st == ProposalStatus::Pending || st == ProposalStatus::Approved {
                let ghost before = r@;
                r.push(copy_proposal(&env.proposals[i]));
                assert(r@.map_values(|p: RecoveryProposal| p@) =~= before.map_values(|p: RecoveryProposal| p@).push(
                    env.proposals@[i as int]@,
                ));
            }
            i = i + 1;
        }
        assert(env@.proposals.subrange(0, env.proposals@.len() as int) =~= env@.proposals);
        r
    }

    /// The council, once set up.
    pub fn get_council(env: &DrEnv) -> (r: Option<RecoveryCouncil>)
        ensures
            match r {
                Some(c) => env@.council == Some(c@),
                None => env@.council is None,
            },
    {
        match &env.council {
            Some(c) => Some(RecoveryCouncil { members: copy_addrs(&c.members), admin: c.admin }),
            None => None,
        }
    }
}

} // verus!
