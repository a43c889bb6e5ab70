//! Validator governance: proposals, one vote per validator, execution once
//! the voting period is over and enough votes were cast.

use vstd::prelude::*;
use crate::common::{Address, bytes32_eq, pair_key, spec_pair_key};
use crate::message_bridge::types::{
    BridgeError, GovernanceProposal, MessageBridgeEnv, MessageBridgeView, ProposalType, Validator,
};

verus! {

pub open spec fn has_proposal(v: MessageBridgeView, id: u64) -> bool {
    v.proposals.contains_key(id as u128)
}

pub open spec fn proposal_of(v: MessageBridgeView, id: u64) -> GovernanceProposal {
    v.proposals[id as u128]
}

/// Whether `voter` voted on proposal `id`.
pub open spec fn spec_has_voted(v: MessageBridgeView, id: u64, voter: Address) -> bool {
    v.has_voted.contains_key(spec_pair_key(id, voter)) && v.has_voted[spec_pair_key(id, voter)]
}

/// The validators other than those signing with `key`, in order.
pub open spec fn spec_without_key(vals: Seq<Validator>, key: Seq<u8>) -> Seq<Validator> {
    vals.filter(|x: Validator| x.signing_key@ != key)
}

/// Storage after a proposal of type `t` takes effect.
pub open spec fn spec_apply(v: MessageBridgeView, t: ProposalType) -> MessageBridgeView {
    match t {
        ProposalType::AddValidator(val) => MessageBridgeView { validators: v.validators.push(val), ..v },
        ProposalType::RemoveValidator(key) => MessageBridgeView { validators: spec_without_key(v.validators, key@), ..v },
        ProposalType::UpdateThreshold(t) => MessageBridgeView { threshold: Some(t), ..v },
        ProposalType::UpdateAdmin(a) => MessageBridgeView { admin: Some(a), ..v },
        ProposalType::PauseBridge => MessageBridgeView { paused: true, ..v },
        ProposalType::UnpauseBridge => MessageBridgeView { paused: false, ..v },
    }
}

/// Outcome of `voter` voting on proposal `id`.
pub open spec fn spec_vote_result(v: MessageBridgeView, id: u64, voter: Address) -> Result<(), BridgeError> {
    if !has_proposal(v, id) {
        Err(BridgeError::ProposalNotFound)
    } else if proposal_of(v, id).executed {
        Err(BridgeError::ProposalAlreadyExecuted)
    } else if v.ledger_sequence > proposal_of(v, id).deadline {
        Err(BridgeError::ProposalExpired)
    } else if spec_has_voted(v, id, voter) {
        Err(BridgeError::AlreadyVoted)
    } else {
        Ok(())
    }
}

/// Outcome of executing proposal `id` with approval threshold `threshold`.
pub open spec fn spec_execute_result(v: MessageBridgeView, id: u64, threshold: u32) -> Result<(), BridgeError> {
    if !has_proposal(v, id) {
        Err(BridgeError::ProposalNotFound)
    } else if proposal_of(v, id).executed {
        Err(BridgeError::ProposalAlreadyExecuted)
    } else if v.ledger_sequence <= proposal_of(v, id).deadline {
        Err(BridgeError::VotingStillActive)
    } else if proposal_of(v, id).votes_for < threshold {
        Err(BridgeError::ProposalNotApproved)
    } else {
        Ok(())
    }
}

/// Storage after proposal `id` is executed.
pub open spec fn spec_after_execute(v: MessageBridgeView, id: u64) -> MessageBridgeView {
    let p = proposal_of(v, id);
    let w = spec_apply(v, p.proposal_type);
    MessageBridgeView { proposals: w.proposals.insert(id as u128, GovernanceProposal { executed: true, ..p }), ..w }
}

/// Open proposal number `proposal_count + 1`, with voting open until
/// `voting_period` ledgers from now; returns its id.
pub fn create(env: &mut MessageBridgeEnv, proposer: Address, proposal_type: ProposalType, voting_period: u32) -> (id: u64)
    requires
        old(env).wf(),
        old(env).proposal_count < u64::MAX,
        old(env).ledger_sequence + voting_period <= u32::MAX,
    ensures
        final(env).wf(),
        id == old(env)@.proposal_count + 1,
        final(env)@ == (MessageBridgeView {
            proposals: old(env)@.proposals.insert(id as u128, GovernanceProposal {
                id,
                proposer,
                proposal_type,
                votes_for: 0,
                executed: false,
                deadline: (old(env)@.ledger_sequence + voting_period) as u32,
            }),
            proposal_count: id,
            ..old(env)@
        }),
{
    let id = env.proposal_count + 1;
    let proposal = GovernanceProposal {
        id,
        proposer,
        proposal_type,
        votes_for: 0,
        executed: false,
        deadline: env.ledger_sequence + voting_period,
    };
    let ghost pre = env@;
    env.proposals.set(id as u128, proposal);
    env.proposal_count = id;
    assert(env@ =~= MessageBridgeView { proposals: pre.proposals.insert(id as u128, proposal), proposal_count: id, ..pre });
    id
}

/// Count `voter`'s vote for proposal `proposal_id`.
pub fn vote(env: &mut MessageBridgeEnv, proposal_id: u64, voter: Address) -> (r: Result<(), BridgeError>)
    requires
        old(env).wf(),
        has_proposal(old(env)@, proposal_id) ==> proposal_of(old(env)@, proposal_id).votes_for < u32::MAX,
    ensures
        final(env).wf(),
        ({
            let v = old(env)@;
            let p = proposal_of(v, proposal_id);
            &&& r == spec_vote_result(v, proposal_id, voter)
            &&& r is Err ==> final(env)@ == v
            &&& r is Ok ==> final(env)@ == (MessageBridgeView {
                proposals: v.proposals.insert(proposal_id as u128, GovernanceProposal { votes_for: (p.votes_for + 1) as u32, ..p }),
                has_voted: v.has_voted.insert(spec_pair_key(proposal_id, voter), true),
                ..v
            })
        }),
{
    let mut proposal = match env.proposals.get(proposal_id as u128) {
        Some(p) => *p,
        None => {
            return Err(BridgeError::ProposalNotFound);
        },
    };
    if proposal.executed {
        return Err(BridgeError::ProposalAlreadyExecuted);
    }
    if env.ledger_sequence > proposal.deadline {
        return Err(BridgeError::ProposalExpired);
    }
    let vk = pair_key(proposal_id, voter);
    let voted = match env.has_voted.get(vk) {
        Some(b) => *b,
        None => false,
    };
    if voted {
        return Err(BridgeError::AlreadyVoted);
    }
    proposal.votes_for = proposal.votes_for + 1;
    let ghost pre = env@;
    env.proposals.set(proposal_id as u128, proposal);
    env.has_voted.set(vk, true);
    assert(env@ =~= MessageBridgeView {
        proposals: pre.proposals.insert(proposal_id as u128, proposal),
        has_voted: pre.has_voted.insert(vk, true),
        ..pre
    });
    Ok(())
}

/// The validators other than those signing with `key`, and whether there
/// was one.
pub fn without_key(vals: &Vec<Validator>, key: &[u8; 32]) -> (r: (Vec<Validator>, bool))
    ensures
        r.0@ == spec_without_key(vals@, key@),
        r.1 == exists|i: int| 0 <= i < vals@.len() && (#[trigger] vals@[i]).signing_key@ == key@,
{
    let mut out: Vec<Validator> = Vec::new();
    let mut found = false;
    let mut i: usize = 0;
    while i < vals.len()
        invariant
            0 <= i <= vals@.len(),
            out@ == spec_without_key(vals@.subrange(0, i as int), key@),
            found == exists|k: int| 0 <= k < i && (#[trigger] vals@[k]).signing_key@ == key@,
        decreases vals@.len() - i,
    {
        proof {
            reveal_with_fuel(Seq::<_>::filter, 1);
            assert(vals@.subrange(0, i + 1).drop_last() =~= vals@.subrange(0, i as int));
        }
        let v = vals[i];
        if bytes32_eq(&v.signing_key, key) {
            found = true;
        } else {
            out.push(v);
        }
        i = i + 1;
    }
    assert(vals@.subrange(0, vals@.len() as int) =~= vals@);
    (out, found)
}

fn apply(env: &mut MessageBridgeEnv, proposal_type: ProposalType)
    requires
        old(env).wf(),
    ensures
        final(env).wf(),
        final(env)@ == spec_apply(old(env)@, proposal_type),
{
    let ghost pre = env@;
    match proposal_type {
        ProposalType::AddValidator(validator) => {
            env.validators.push(validator);
        },
        ProposalType::RemoveValidator(signing_key) => {
            let (updated, _found) = without_key(&env.validators, &signing_key);
            env.validators = updated;
        },
        ProposalType::UpdateThreshold(t) => {
            env.threshold = Some(t);
        },
        ProposalType::UpdateAdmin(a) => {
            env.admin = Some(a);
        },
        ProposalType::PauseBridge => {
            env.paused = true;
        },
        ProposalType::UnpauseBridge => {
            env.paused = false;
        },
    }
    assert(env@ =~= spec_apply(pre, proposal_type));
}

/// Carry out proposal `proposal_id` once its voting period is over and at
/// least `threshold` votes were cast; it is then marked executed.
pub fn execute(env: &mut MessageBridgeEnv, proposal_id: u64, threshold: u32) -> (r: Result<(), BridgeError>)
    requires
        old(env).wf(),
    ensures
        final(env).wf(),
        r == spec_execute_result(old(env)@, proposal_id, threshold),
        r is Err ==> final(env)@ == old(env)@,
        r is Ok ==> final(env)@ == spec_after_execute(old(env)@, proposal_id),
{
    let mut proposal = match env.proposals.get(proposal_id as u128) {
        Some(p) => *p,
        None => {
            return Err(BridgeError::ProposalNotFound);
        },
    };
    if proposal.executed {
        return Err(BridgeError::ProposalAlreadyExecuted);
    }
    if env.ledger_sequence <= proposal.deadline {
        return Err(BridgeError::VotingStillActive);
    }
    if proposal.votes_for < threshold {
        return Err(BridgeError::ProposalNotApproved);
    }
    let ghost pre = env@;
    apply(env, proposal.proposal_type);
    let ghost mid = env@;
    proposal.executed = true;
    env.proposals.set(proposal_id as u128, proposal);
    assert(env@ =~= MessageBridgeView { proposals: mid.proposals.insert(proposal_id as u128, proposal), ..mid });
    Ok(())
}

} // verus!
