//! Properties of the message bridge that span its entry points.

use vstd::prelude::*;
use crate::common::{Address, spec_pair_key};
use crate::crypto::spec_ed25519_verifies;
use crate::message_bridge::types::{
    BridgeError, GovernanceProposal, MessageBridgeView, MessageStatus, messages_unique, spec_message_status,
    spec_threshold,
};
use crate::message_bridge::verification::{dup_after, lemma_check_signers_ok, spec_signing_hash};
use crate::message_bridge::governance::{
    has_proposal, proposal_of, spec_after_execute, spec_apply, spec_execute_result, spec_has_voted, spec_vote_result,
};
use crate::message_bridge::contract::{spec_receive_result, spec_signing_keys};

verus! {

/// An accepted message carried at least `threshold` signatures, from
/// distinct validators, each a valid Ed25519 signature of the message's
/// signing digest under that validator's key.
pub proof fn law_accepted_message_has_quorum(
    v: MessageBridgeView,
    message_id: Seq<u8>,
    source_chain: u32,
    receiver: Address,
    original_token: Seq<u8>,
    asset_amount: i128,
    idx: Seq<u32>,
    sigs: Seq<[u8; 64]>,
)
    requires
        spec_receive_result(v, message_id, source_chain, receiver, original_token, asset_amount, idx, sigs) is Ok,
    ensures
        v.stellar_chain_id is Some,
        sigs.len() >= spec_threshold(v),
        idx.len() == sigs.len(),
        forall|a: int, b: int| 0 <= a < b < idx.len() ==> #[trigger] idx[a] != #[trigger] idx[b],
        forall|k: int| 0 <= k < sigs.len() ==> #[trigger] idx[k] < v.validators.len()
            && spec_ed25519_verifies(
                v.validators[idx[k] as int].signing_key@,
                spec_signing_hash(message_id, v.stellar_chain_id.unwrap()),
                sigs[k]@,
            ),
{
    let hash = spec_signing_hash(message_id, v.stellar_chain_id.unwrap());
    let keys = spec_signing_keys(v);
    lemma_check_signers_ok(hash, keys, idx, sigs, 0);
    assert forall|a: int, b: int| 0 <= a < b < idx.len() implies #[trigger] idx[a] != #[trigger] idx[b] by {
        assert(!dup_after(idx, a));
    }
    assert forall|k: int| 0 <= k < sigs.len() implies #[trigger] idx[k] < v.validators.len()
        && spec_ed25519_verifies(v.validators[idx[k] as int].signing_key@, hash, sigs[k]@) by {
        assert(keys[idx[k] as int] == v.validators[idx[k] as int].signing_key);
    }
}

/// Once a message is processed, it is refused whenever it comes again.
pub proof fn law_message_processed_once(
    v: MessageBridgeView,
    message_id: Seq<u8>,
    source_chain: u32,
    receiver: Address,
    original_token: Seq<u8>,
    asset_amount: i128,
    idx: Seq<u32>,
    sigs: Seq<[u8; 64]>,
)
    requires
        messages_unique(v.messages),
        spec_receive_result(v, message_id, source_chain, receiver, original_token, asset_amount, idx, sigs) is Ok,
    ensures
        ({
            let w = MessageBridgeView { messages: v.messages.push((message_id, MessageStatus::Processed)), ..v };
            forall|s: u32, rc: Address, t: Seq<u8>, amt: i128, i2: Seq<u32>, s2: Seq<[u8; 64]>|
                #[trigger] spec_receive_result(w, message_id, s, rc, t, amt, i2, s2)
                    == Err::<crate::message_bridge::contract::WrappedMint, BridgeError>(BridgeError::MessageAlreadyProcessed)
        }),
{
    let w = MessageBridgeView { messages: v.messages.push((message_id, MessageStatus::Processed)), ..v };
    let n = v.messages.len() as int;
    assert(w.messages[n].0 == message_id);
    assert(spec_message_status(w, message_id) is Some);
}

/// A validator's vote counts once: after voting, voting again on the same
/// proposal is refused.
pub proof fn law_vote_once(v: MessageBridgeView, id: u64, voter: Address)
    requires
        spec_vote_result(v, id, voter) is Ok,
        proposal_of(v, id).votes_for < u32::MAX,
    ensures
        ({
            let p = proposal_of(v, id);
            let w = MessageBridgeView {
                proposals: v.proposals.insert(id as u128, GovernanceProposal { votes_for: (p.votes_for + 1) as u32, ..p }),
                has_voted: v.has_voted.insert(spec_pair_key(id, voter), true),
                ..v
            };
            &&& spec_has_voted(w, id, voter)
            &&& spec_vote_result(w, id, voter) == Err::<(), BridgeError>(BridgeError::AlreadyVoted)
        }),
{
}

/// A proposal is carried out only after its voting period and with at least
/// `threshold` votes, and only once.
pub proof fn law_execute_once_after_quorum(v: MessageBridgeView, id: u64, threshold: u32)
    requires
        spec_execute_result(v, id, threshold) is Ok,
    ensures
        has_proposal(v, id),
        proposal_of(v, id).votes_for >= threshold,
        v.ledger_sequence > proposal_of(v, id).deadline,
        spec_execute_result(spec_after_execute(v, id), id, threshold)
            == Err::<(), BridgeError>(BridgeError::ProposalAlreadyExecuted),
{
    let p = proposal_of(v, id);
    let w = spec_apply(v, p.proposal_type);
    assert(w.proposals == v.proposals);
}

} // verus!
