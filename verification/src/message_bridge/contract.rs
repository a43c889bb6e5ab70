//! The bridge's entry points. `caller` is the address that authorized the
//! invocation; admin entry points refuse any other caller. The token
//! operations an entry point decides (minting for an inbound message;
//! collecting and burning for an outbound transfer) are returned for the
//! host to carry out.

use vstd::prelude::*;
use crate::common::{Address, TokenTransfer, bytes32_eq, push_be_bytes, spec_be_bytes};
use crate::crypto::{sha256, spec_sha256};
use crate::message_bridge::types::{
    BridgeError, BridgeMessage, GovernanceProposal, MessageBridgeEnv, MessageBridgeView, MessageStatus,
    ProposalType, Validator, WrappedAssetInfo, spec_message_status, spec_threshold,
};
use crate::message_bridge::verification::{compute_signing_hash, spec_signing_hash, spec_verify_multi_sig, verify_multi_sig};
use crate::message_bridge::assets::{self, asset_index, has_asset, spec_register};
use crate::message_bridge::governance::{
    self, has_proposal, proposal_of, spec_after_execute, spec_execute_result, spec_vote_result, spec_without_key,
};
use crate::common::spec_pair_key;

verus! {

/// A mint of wrapped tokens for the host to carry out.
#[derive(Clone, Copy, Debug, PartialEq, Eq, Structural)]
pub struct WrappedMint {
    pub token: Address,
    pub to: Address,
    pub amount: i128,
}

/// What an outbound transfer asks of the host: collect the tokens from the
/// user, burn them, and announce `message_id` for the destination chain.
#[derive(Debug)]
pub struct BridgeOut {
    pub collect: TokenTransfer,
    pub burn_amount: i128,
    pub message_id: Vec<u8>,
    pub destination_chain: u32,
    pub destination_address: Vec<u8>,
}

/// Outcome of the admin check.
pub open spec fn spec_require_admin(v: MessageBridgeView, caller: Address) -> Result<(), BridgeError> {
    match v.admin {
        None => Err(BridgeError::NotInitialized),
        Some(a) => if a == caller { Ok(()) } else { Err(BridgeError::Unauthorized) },
    }
}

/// Whether `a` is the account of some validator.
pub open spec fn spec_is_validator(v: MessageBridgeView, a: Address) -> bool {
    exists|i: int| 0 <= i < v.validators.len() && (#[trigger] v.validators[i]).address == a
}

/// The validators' signing keys, in validator order.
pub open spec fn spec_signing_keys(v: MessageBridgeView) -> Seq<[u8; 32]> {
    v.validators.map_values(|x: Validator| x.signing_key)
}

/// Outcome of receiving `message` with the given signatures: the mint it
/// calls for, or why it is refused.
pub open spec fn spec_receive_result(
    v: MessageBridgeView,
    message_id: Seq<u8>,
    source_chain: u32,
    receiver: Address,
    original_token: Seq<u8>,
    asset_amount: i128,
    idx: Seq<u32>,
    sigs: Seq<[u8; 64]>,
) -> Result<WrappedMint, BridgeError> {
    if v.paused {
        Err(BridgeError::Paused)
    } else if spec_message_status(v, message_id) is Some {
        Err(BridgeError::MessageAlreadyProcessed)
    } else if v.stellar_chain_id is None {
        Err(BridgeError::NotInitialized)
    } else if spec_verify_multi_sig(
        spec_signing_hash(message_id, v.stellar_chain_id.unwrap()),
        spec_signing_keys(v),
        idx,
        sigs,
        spec_threshold(v),
    ) is Err {
        Err(spec_verify_multi_sig(
            spec_signing_hash(message_id, v.stellar_chain_id.unwrap()),
            spec_signing_keys(v),
            idx,
            sigs,
            spec_threshold(v),
        )->Err_0)
    } else if !has_asset(v.wrapped_assets, source_chain, original_token) {
        Err(BridgeError::WrappedAssetNotFound)
    } else {
        Ok(WrappedMint {
            token: v.wrapped_assets[asset_index(v.wrapped_assets, source_chain, original_token)].stellar_token,
            to: receiver,
            amount: asset_amount,
        })
    }
}

/// The ASCII bytes of `bridge_out:`.
pub open spec fn spec_bridge_out_tag() -> Seq<u8> {
    seq![98u8, 114, 105, 100, 103, 101, 95, 111, 117, 116, 58]
}

/// The id announced for an outbound transfer: SHA-256 of the tag, the
/// token's address bytes, the amount and the ledger sequence, big-endian.
pub open spec fn spec_bridge_out_id(token: Address, amount: i128, ledger_sequence: u32) -> Seq<u8> {
    spec_sha256(
        spec_bridge_out_tag() + spec_be_bytes(token.0 as u128, 8) + spec_be_bytes(amount as u128, 16)
            + spec_be_bytes(ledger_sequence as u128, 4),
    )
}

pub struct CrossChainBridgeContract;

impl CrossChainBridgeContract {
    fn require_admin(env: &MessageBridgeEnv, caller: Address) -> (r: Result<(), BridgeError>)
        ensures
            r == spec_require_admin(env@, caller),
    {
        match env.admin {
            None => Err(BridgeError::NotInitialized),
            Some(a) => if a == caller { Ok(()) } else { Err(BridgeError::Unauthorized) },
        }
    }

    fn is_validator(env: &MessageBridgeEnv, a: Address) -> (b: bool)
        ensures
            b == spec_is_validator(env@, a),
    {
        let mut i: usize = 0;
        while i < env.validators.len()
            invariant
                0 <= i <= env.validators@.len(),
                forall|k: int| 0 <= k < i ==> (#[trigger] env.validators@[k]).address != a,
            decreases env.validators@.len() - i,
        {
            if env.validators[i].address == a {
                assert(env@.validators[i as int].address == a);
                return true;
            }
            i = i + 1;
        }
        false
    }

    fn find_message(env: &MessageBridgeEnv, id: &[u8; 32]) -> (r: Option<usize>)
        requires
            env.wf(),
        ensures
            r is None <==> spec_message_status(env@, id@) is None,
            r matches Some(i) ==> i < env.messages@.len() && spec_message_status(env@, id@) == Some(env.messages@[i as int].1),
    {
        let ghost m = env@.messages;
        let mut i: usize = 0;
        while i < env.messages.len()
            invariant
                env.wf(),
                m == env@.messages,
                m.len() == env.messages@.len(),
                0 <= i <= m.len(),
                forall|k: int| 0 <= k < i ==> (#[trigger] m[k]).0 != id@,
            decreases m.len() - i,
        {
            assert(m[i as int] == (env.messages@[i as int].0@, env.messages@[i as int].1));
            if bytes32_eq(&env.messages[i].0, id) {
                proof {
                    let j = choose|j: int| 0 <= j < m.len() && #[trigger] m[j].0 == id@;
                    if j != i {
                        if j < i {
                            assert(m[j].0 != m[i as int].0);
                        } else {
                            assert(m[i as int].0 != m[j].0);
                        }
                    }
                }
                return Some(i);
            }
            i = i + 1;
        }
        None
    }

    /// Set the admin, validator set, threshold and chain id once.
    pub fn initialize(
        env: &mut MessageBridgeEnv,
        admin: Address,
        validators: Vec<Validator>,
        threshold: u32,
        stellar_chain_id: u32,
    ) -> (r: Result<(), BridgeError>)
        requires
            old(env).wf(),
        ensures
            final(env).wf(),
            r == (if old(env)@.admin is Some {
                Err(BridgeError::AlreadyInitialized)
            } else if threshold == 0 || threshold > validators@.len() {
                Err(BridgeError::InvalidThreshold)
            } else {
                Ok(())
            }),
            r is Err ==> final(env)@ == old(env)@,
            r is Ok ==> final(env)@ == (MessageBridgeView {
                admin: Some(admin),
                validators: validators@,
                threshold: Some(threshold),
                stellar_chain_id: Some(stellar_chain_id),
                paused: false,
                ..old(env)@
            }),
    {
        if env.admin.is_some() {
            return Err(BridgeError::AlreadyInitialized);
        }
        if threshold == 0 || threshold as usize > validators.len() {
            return Err(BridgeError::InvalidThreshold);
        }
        env.admin = Some(admin);
        env.validators = validators;
        env.threshold = Some(threshold);
        env.stellar_chain_id = Some(stellar_chain_id);
        env.paused = false;
        Ok(())
    }

    /// Accept a message co-signed by the validators: it must be new, carry
    /// enough valid signatures over its signing digest, and name a
    /// registered wrapped asset. The message is marked processed and the
    /// mint to its receiver is returned.
    pub fn receive_message(
        env: &mut MessageBridgeEnv,
        message: &BridgeMessage,
        original_token: &Vec<u8>,
        asset_amount: i128,
        signer_indices: &Vec<u32>,
        signatures: &Vec<[u8; 64]>,
    ) -> (r: Result<WrappedMint, BridgeError>)
        requires
            old(env).wf(),
        ensures
            final(env).wf(),
            r == spec_receive_result(
                old(env)@,
                message.id@,
                message.source_chain,
                message.receiver,
                original_token@,
                asset_amount,
                signer_indices@,
                signatures@,
            ),
            r is Err ==> final(env)@ == old(env)@,
            r is Ok ==> final(env)@ == (MessageBridgeView {
                messages: old(env)@.messages.push((message.id@, MessageStatus::Processed)),
                ..old(env)@
            }),
    {
        if env.paused {
            return Err(BridgeError::Paused);
        }
        if Self::find_message(env, &message.id).is_some() {
            return Err(BridgeError::MessageAlreadyProcessed);
        }
        let stellar_chain_id = match env.stellar_chain_id {
            Some(c) => c,
            None => {
                return Err(BridgeError::NotInitialized);
            },
        };
        let signing_hash = compute_signing_hash(&message.id, stellar_chain_id);
        let threshold = Self::get_threshold(env);
        let mut signing_keys: Vec<[u8; 32]> = Vec::new();
        let mut i: usize = 0;
        while i < env.validators.len()
            invariant
                0 <= i <= env.validators@.len(),
                signing_keys@ == spec_signing_keys(env@).subrange(0, i as int),
            decreases env.validators@.len() - i,
        {
            signing_keys.push(env.validators[i].signing_key);
            assert(signing_keys@ =~= spec_signing_keys(env@).subrange(0, i + 1));
            i = i + 1;
        }
        assert(signing_keys@ =~= spec_signing_keys(env@));
        verify_multi_sig(&signing_hash, &signing_keys, signer_indices, signatures, threshold)?;
        let asset_info = assets::get_asset(env, message.source_chain, original_token)?;
        let ghost pre = env@;
        env.messages.push((message.id, MessageStatus::Processed));
        proof {
            let a = pre.messages;
            let b = env@.messages;
            assert(b =~= a.push((message.id@, MessageStatus::Processed)));
            assert forall|p: int, q: int| 0 <= p < q < b.len() implies #[trigger] b[p].0 != #[trigger] b[q].0 by {
                assert(b[p] == a[p]);
                if q < a.len() {
                    assert(b[q] == a[q]);
                } else if b[p].0 == b[q].0 {
                    assert(a[p].0 == message.id@);
                }
            }
        }
        assert(env@ =~= MessageBridgeView { messages: pre.messages.push((message.id@, MessageStatus::Processed)), ..pre });
        Ok(WrappedMint { token: asset_info.stellar_token, to: message.receiver, amount: asset_amount })
    }

    /// Start an outbound transfer of `amount` of `stellar_token` from
    /// `user`: the tokens are collected by the bridge and burned, and the
    /// transfer is announced under its id. Nothing is stored.
    pub fn initiate_bridge_out(
        env: &MessageBridgeEnv,
        user: Address,
        stellar_token: Address,
        amount: i128,
        destination_chain: u32,
        destination_address: Vec<u8>,
    ) -> (r: Result<BridgeOut, BridgeError>)
        ensures
            r is Err <==> env@.paused,
            r is Err ==> r->Err_0 == BridgeError::Paused,
            r matches Ok(out) ==> out.collect == (TokenTransfer { token: stellar_token, from: user, to: env@.current_contract, amount })
                && out.burn_amount == amount
                && out.message_id@ == spec_bridge_out_id(stellar_token, amount, env@.ledger_sequence)
                && out.destination_chain == destination_chain
                && out.destination_address@ == destination_address@,
    {
        if env.paused {
            return Err(BridgeError::Paused);
        }
        let mut data: Vec<u8> = vec![98u8, 114, 105, 100, 103, 101, 95, 111, 117, 116, 58];
        assert(data@ =~= spec_bridge_out_tag());
        push_be_bytes(&mut data, stellar_token.0 as u128, 8);
        push_be_bytes(&mut data, amount as u128, 16);
        push_be_bytes(&mut data, env.ledger_sequence as u128, 4);
        assert(data@ =~= spec_bridge_out_tag() + spec_be_bytes(stellar_token.0 as u128, 8) + spec_be_bytes(amount as u128, 16)
            + spec_be_bytes(env.ledger_sequence as u128, 4));
        let message_id = sha256(&data);
        Ok(BridgeOut {
            collect: TokenTransfer { token: stellar_token, from: user, to: env.current_contract, amount },
            burn_amount: amount,
            message_id,
            destination_chain,
            destination_address,
        })
    }

    /// Register the wrapped form of a token of another chain.
    pub fn register_wrapped_asset(
        env: &mut MessageBridgeEnv,
        caller: Address,
        source_chain: u32,
        original_token: Vec<u8>,
        stellar_token: Address,
    ) -> (r: Result<(), BridgeError>)
        requires
            old(env).wf(),
        ensures
            final(env).wf(),
            r == spec_require_admin(old(env)@, caller),
            r is Err ==> final(env)@ == old(env)@,
            r is Ok ==> final(env)@ == (MessageBridgeView {
                wrapped_assets: spec_register(old(env)@.wrapped_assets, source_chain, original_token@, stellar_token),
                ..old(env)@
            }),
    {
        Self::require_admin(env, caller)?;
        assets::register(env, source_chain, original_token, stellar_token);
        Ok(())
    }

    /// A validator opens a proposal; returns its id.
    pub fn create_proposal(
        env: &mut MessageBridgeEnv,
        proposer: Address,
        proposal_type: ProposalType,
        voting_period: u32,
    ) -> (r: Result<u64, BridgeError>)
        requires
            old(env).wf(),
            old(env).proposal_count < u64::MAX,
            old(env).ledger_sequence + voting_period <= u32::MAX,
        ensures
            final(env).wf(),
            ({
                let v = old(env)@;
                let id = (v.proposal_count + 1) as u64;
                &&& r == (if v.paused {
                    Err(BridgeError::Paused)
                } else if !spec_is_validator(v, proposer) {
                    Err(BridgeError::Unauthorized)
                } else {
                    Ok(id)
                })
                &&& r is Err ==> final(env)@ == v
                &&& r is Ok ==> final(env)@ == (MessageBridgeView {
                    proposals: v.proposals.insert(id as u128, GovernanceProposal {
                        id,
                        proposer,
                        proposal_type,
                        votes_for: 0,
                        executed: false,
                        deadline: (v.ledger_sequence + voting_period) as u32,
                    }),
                    proposal_count: id,
                    ..v
                })
            }),
    {
        if env.paused {
            return Err(BridgeError::Paused);
        }
        if !Self::is_validator(env, proposer) {
            return Err(BridgeError::Unauthorized);
        }
        let id = governance::create(env, proposer, proposal_type, voting_period);
        Ok(id)
    }

    /// A validator votes for a proposal, once.
    pub fn vote_proposal(env: &mut MessageBridgeEnv, voter: Address, proposal_id: u64) -> (r: Result<(), BridgeError>)
        requires
            old(env).wf(),
            has_proposal(old(env)@, proposal_id) ==> proposal_of(old(env)@, proposal_id).votes_for < u32::MAX,
        ensures
            final(env).wf(),
            ({
                let v = old(env)@;
                let p = proposal_of(v, proposal_id);
                &&& r == (if v.paused {
                    Err(BridgeError::Paused)
                } else if !spec_is_validator(v, voter) {
                    Err(BridgeError::Unauthorized)
                } else {
                    spec_vote_result(v, proposal_id, voter)
                })
                &&& r is Err ==> final(env)@ == v
                &&& r is Ok ==> final(env)@ == (MessageBridgeView {
                    proposals: v.proposals.insert(proposal_id as u128, GovernanceProposal { votes_for: (p.votes_for + 1) as u32, ..p }),
                    has_voted: v.has_voted.insert(spec_pair_key(proposal_id, voter), true),
                    ..v
                })
            }),
    {
        if env.paused {
            return Err(BridgeError::Paused);
        }
        if !Self::is_validator(env, voter) {
            return Err(BridgeError::Unauthorized);
        }
        governance::vote(env, proposal_id, voter)
    }

    /// Carry out a proposal whose voting is over and that has at least
    /// `threshold` votes.
    pub fn execute_proposal(env: &mut MessageBridgeEnv, proposal_id: u64) -> (r: Result<(), BridgeError>)
        requires
            old(env).wf(),
        ensures
            final(env).wf(),
            r == spec_execute_result(old(env)@, proposal_id, spec_threshold(old(env)@)),
            r is Err ==> final(env)@ == old(env)@,
            r is Ok ==> final(env)@ == spec_after_execute(old(env)@, proposal_id),
    {
        let threshold = Self::get_threshold(env);
        governance::execute(env, proposal_id, threshold)
    }

    pub fn pause(env: &mut MessageBridgeEnv, caller: Address) -> (r: Result<(), BridgeError>)
        requires
            old(env).wf(),
        ensures
            final(env).wf(),
            r == spec_require_admin(old(env)@, caller),
            r is Err ==> final(env)@ == old(env)@,
            r is Ok ==> final(env)@ == (MessageBridgeView { paused: true, ..old(env)@ }),
    {
        Self::require_admin(env, caller)?;
        env.paused = true;
        Ok(())
    }

    pub fn unpause(env: &mut MessageBridgeEnv, caller: Address) -> (r: Result<(), BridgeError>)
        requires
            old(env).wf(),
        ensures
            final(env).wf(),
            r == spec_require_admin(old(env)@, caller),
            r is Err ==> final(env)@ == old(env)@,
            r is Ok ==> final(env)@ == (MessageBridgeView { paused: false, ..old(env)@ }),
    {
        Self::require_admin(env, caller)?;
        env.paused = false;
        Ok(())
    }

    /// Append a validator.
    pub fn add_validator(env: &mut MessageBridgeEnv, caller: Address, validator: Validator) -> (r: Result<(), BridgeError>)
        requires
            old(env).wf(),
        ensures
            final(env).wf(),
            r == spec_require_admin(old(env)@, caller),
            r is Err ==> final(env)@ == old(env)@,
            r is Ok ==> final(env)@ == (MessageBridgeView { validators: old(env)@.validators.push(validator), ..old(env)@ }),
    {
        Self::require_admin(env, caller)?;
        env.validators.push(validator);
        Ok(())
    }

    /// Remove the validators signing with `signing_key`, unless that leaves
    /// fewer validators than the threshold.
    pub fn remove_validator(env: &mut MessageBridgeEnv, caller: Address, signing_key: [u8; 32]) -> (r: Result<(), BridgeError>)
        requires
            old(env).wf(),
        ensures
            final(env).wf(),
            ({
                let v = old(env)@;
                let rest = spec_without_key(v.validators, signing_key@);
                &&& r == (if spec_require_admin(v, caller) is Err {
                    spec_require_admin(v, caller)
                } else if !(exists|i: int| 0 <= i < v.validators.len() && (#[trigger] v.validators[i]).signing_key@ == signing_key@) {
                    Err(BridgeError::ValidatorNotFound)
                } else if spec_threshold(v) > rest.len() {
                    Err(BridgeError::InvalidThreshold)
                } else {
                    Ok(())
                })
                &&& r is Err ==> final(env)@ == v
                &&& r is Ok ==> final(env)@ == (MessageBridgeView { validators: rest, ..v })
            }),
    {
        Self::require_admin(env, caller)?;
        let (updated, found) = governance::without_key(&env.validators, &signing_key);
        if !found {
            return Err(BridgeError::ValidatorNotFound);
        }
        let threshold = Self::get_threshold(env);
        if threshold as usize > updated.len() {
            return Err(BridgeError::InvalidThreshold);
        }
        env.validators = updated;
        Ok(())
    }

    /// Set the approval threshold, between 1 and the number of validators.
    pub fn update_threshold(env: &mut MessageBridgeEnv, caller: Address, threshold: u32) -> (r: Result<(), BridgeError>)
        requires
            old(env).wf(),
        ensures
            final(env).wf(),
            r == (if spec_require_admin(old(env)@, caller) is Err {
                spec_require_admin(old(env)@, caller)
            } else if threshold == 0 || threshold > old(env)@.validators.len() {
                Err(BridgeError::InvalidThreshold)
            } else {
                Ok(())
            }),
            r is Err ==> final(env)@ == old(env)@,
            r is Ok ==> final(env)@ == (MessageBridgeView { threshold: Some(threshold), ..old(env)@ }),
    {
        Self::require_admin(env, caller)?;
        if threshold == 0 || threshold as usize > env.validators.len() {
            return Err(BridgeError::InvalidThreshold);
        }
        env.threshold = Some(threshold);
        Ok(())
    }

    pub fn get_message_status(env: &MessageBridgeEnv, message_id: [u8; 32]) -> (r: Option<MessageStatus>)
        requires
            env.wf(),
        ensures
            r == spec_message_status(env@, message_id@),
    {
        match Self::find_message(env, &message_id) {
            Some(i) => Some(env.messages[i].1),
            None => None,
        }
    }

    pub fn get_wrapped_asset(env: &MessageBridgeEnv, source_chain: u32, original_token: Vec<u8>) -> (r: Option<WrappedAssetInfo>)
        requires
            env.wf(),
        ensures
            r is Some <==> has_asset(env@.wrapped_assets, source_chain, original_token@),
            r matches Some(w) ==> w@ == env@.wrapped_assets[asset_index(env@.wrapped_assets, source_chain, original_token@)],
    {
        match assets::get_asset(env, source_chain, &original_token) {
            Ok(w) => Some(w),
            Err(_) => None,
        }
    }

    pub fn get_proposal(env: &MessageBridgeEnv, proposal_id: u64) -> (r: Option<GovernanceProposal>)
        requires
            env.wf(),
        ensures
            r == (if has_proposal(env@, proposal_id) { Some(proposal_of(env@, proposal_id)) } else { None }),
    {
        match env.proposals.get(proposal_id as u128) {
            Some(p) => Some(*p),
            None => None,
        }
    }

    pub fn get_validators(env: &MessageBridgeEnv) -> (r: Vec<Validator>)
        ensures
            r@ == env@.validators,
    {
        let mut out: Vec<Validator> = Vec::new();
        let mut i: usize = 0;
        while i < env.validators.len()
            invariant
                0 <= i <= env.validators@.len(),
                out@ == env.validators@.subrange(0, i as int),
            decreases env.validators@.len() - i,
        {
            out.push(env.validators[i]);
            assert(out@ =~= env.validators@.subrange(0, i + 1));
            i = i + 1;
        }
        assert(out@ =~= env.validators@);
        out
    }

    pub fn get_threshold(env: &MessageBridgeEnv) -> (t: u32)
        ensures
            t == spec_threshold(env@),
    {
        match env.threshold {
            Some(t) => t,
            None => 1,
        }
    }

    pub fn is_paused(env: &MessageBridgeEnv) -> (b: bool)
        ensures
            b == env@.paused,
    {
        env.paused
    }
}

} // verus!
