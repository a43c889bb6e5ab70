//! Records and storage of the message bridge.

use vstd::prelude::*;
use crate::common::Address;
use crate::store::Store;

verus! {

#[derive(Clone, Copy, Debug, PartialEq, Eq, Structural)]
pub enum BridgeError {
    NotInitialized,
    AlreadyInitialized,
    Unauthorized,
    Paused,
    MessageAlreadyProcessed,
    InvalidSignatureCount,
    InvalidSignerIndex,
    ThresholdNotMet,
    InvalidDestinationChain,
    WrappedAssetNotFound,
    ProposalNotFound,
    ProposalExpired,
    ProposalAlreadyExecuted,
    AlreadyVoted,
    ProposalNotApproved,
    ValidatorNotFound,
    InvalidThreshold,
    DuplicateSigner,
    VotingStillActive,
    /// A signature that does not verify under its signer's key; the host
    /// aborts the invocation at that point.
    InvalidSignature,
}

impl BridgeError {
    /// The contract error code.
    pub fn code(&self) -> (c: u32)
        ensures
            1 <= c <= 20,
            c == match *self {
                BridgeError::NotInitialized => 1u32,
                BridgeError::AlreadyInitialized => 2,
                BridgeError::Unauthorized => 3,
                BridgeError::Paused => 4,
                BridgeError::MessageAlreadyProcessed => 5,
                BridgeError::InvalidSignatureCount => 6,
                BridgeError::InvalidSignerIndex => 7,
                BridgeError::ThresholdNotMet => 8,
                BridgeError::InvalidDestinationChain => 9,
                BridgeError::WrappedAssetNotFound => 10,
                BridgeError::ProposalNotFound => 11,
                BridgeError::ProposalExpired => 12,
                BridgeError::ProposalAlreadyExecuted => 13,
                BridgeError::AlreadyVoted => 14,
                BridgeError::ProposalNotApproved => 15,
                BridgeError::ValidatorNotFound => 16,
                BridgeError::InvalidThreshold => 17,
                BridgeError::DuplicateSigner => 18,
                BridgeError::VotingStillActive => 19,
                BridgeError::InvalidSignature => 20,
            },
    {
        match *self {
            BridgeError::NotInitialized => 1,
            BridgeError::AlreadyInitialized => 2,
            BridgeError::Unauthorized => 3,
            BridgeError::Paused => 4,
            BridgeError::MessageAlreadyProcessed => 5,
            BridgeError::InvalidSignatureCount => 6,
            BridgeError::InvalidSignerIndex => 7,
            BridgeError::ThresholdNotMet => 8,
            BridgeError::InvalidDestinationChain => 9,
            BridgeError::WrappedAssetNotFound => 10,
            BridgeError::ProposalNotFound => 11,
            BridgeError::ProposalExpired => 12,
            BridgeError::ProposalAlreadyExecuted => 13,
            BridgeError::AlreadyVoted => 14,
            BridgeError::ProposalNotApproved => 15,
            BridgeError::ValidatorNotFound => 16,
            BridgeError::InvalidThreshold => 17,
            BridgeError::DuplicateSigner => 18,
            BridgeError::VotingStillActive => 19,
            BridgeError::InvalidSignature => 20,
        }
    }
}

#[derive(Clone, Copy, Debug, PartialEq, Eq, Structural)]
pub enum MessageStatus {
    Pending,
    Processed,
    Failed,
}

/// A validator: its account and the Ed25519 key it signs messages with.
#[derive(Clone, Copy, Debug)]
pub struct Validator {
    pub address: Address,
    pub signing_key: [u8; 32],
}

/// A message relayed from another chain.
#[derive(Debug)]
pub struct BridgeMessage {
    pub id: [u8; 32],
    pub source_chain: u32,
    pub sender: Vec<u8>,
    pub receiver: Address,
    pub payload: Vec<u8>,
    pub nonce: u64,
    pub timestamp: u64,
}

/// The Stellar token that stands for a token of another chain.
#[derive(Debug)]
pub struct WrappedAssetInfo {
    pub source_chain: u32,
    pub original_token: Vec<u8>,
    pub stellar_token: Address,
}

#[derive(Clone, Copy, Debug)]
pub enum ProposalType {
    AddValidator(Validator),
    RemoveValidator([u8; 32]),
    UpdateThreshold(u32),
    UpdateAdmin(Address),
    PauseBridge,
    UnpauseBridge,
}

#[derive(Clone, Copy, Debug)]
pub struct GovernanceProposal {
    pub id: u64,
    pub proposer: Address,
    pub proposal_type: ProposalType,
    pub votes_for: u32,
    pub executed: bool,
    pub deadline: u32,
}

#[derive(Debug)]
pub enum DataKey {
    Admin,
    Validators,
    Threshold,
    Paused,
    StellarChainId,
    Message([u8; 32]),
    WrappedAsset(u32, Vec<u8>),
    ProposalCount,
    Proposal(u64),
    HasVoted(u64, Address),
}

/// Contract storage of the message bridge and the ledger it runs on.
pub struct MessageBridgeEnv {
    pub ledger_sequence: u32,
    pub current_contract: Address,
    pub admin: Option<Address>,
    pub validators: Vec<Validator>,
    pub threshold: Option<u32>,
    pub paused: bool,
    pub stellar_chain_id: Option<u32>,
    /// Status of each message id seen, in arrival order.
    pub messages: Vec<([u8; 32], MessageStatus)>,
    /// Wrapped assets, one per `(source_chain, original_token)`.
    pub wrapped_assets: Vec<WrappedAssetInfo>,
    pub proposal_count: u64,
    pub proposals: Store<GovernanceProposal>,
    /// Votes cast, keyed by `(proposal id, voter)`.
    pub has_voted: Store<bool>,
}

/// A wrapped asset as plain values.
pub struct WrappedAssetView {
    pub source_chain: u32,
    pub original_token: Seq<u8>,
    pub stellar_token: Address,
}

impl View for WrappedAssetInfo {
    type V = WrappedAssetView;

    open spec fn view(&self) -> WrappedAssetView {
        WrappedAssetView {
            source_chain: self.source_chain,
            original_token: self.original_token@,
            stellar_token: self.stellar_token,
        }
    }
}

#[verifier::ext_equal]
pub struct MessageBridgeView {
    pub ledger_sequence: u32,
    pub current_contract: Address,
    pub admin: Option<Address>,
    pub validators: Seq<Validator>,
    pub threshold: Option<u32>,
    pub paused: bool,
    pub stellar_chain_id: Option<u32>,
    pub messages: Seq<(Seq<u8>, MessageStatus)>,
    pub wrapped_assets: Seq<WrappedAssetView>,
    pub proposal_count: u64,
    pub proposals: Map<u128, GovernanceProposal>,
    pub has_voted: Map<u128, bool>,
}

impl View for MessageBridgeEnv {
    type V = MessageBridgeView;

    open spec fn view(&self) -> MessageBridgeView {
        MessageBridgeView {
            ledger_sequence: self.ledger_sequence,
            current_contract: self.current_contract,
            admin: self.admin,
            validators: self.validators@,
            threshold: self.threshold,
            paused: self.paused,
            stellar_chain_id: self.stellar_chain_id,
            messages: self.messages@.map_values(|m: ([u8; 32], MessageStatus)| (m.0@, m.1)),
            wrapped_assets: self.wrapped_assets@.map_values(|w: WrappedAssetInfo| w@),
            proposal_count: self.proposal_count,
            proposals: self.proposals@,
            has_voted: self.has_voted@,
        }
    }
}

/// No two wrapped assets share a source chain and original token.
pub open spec fn assets_unique(a: Seq<WrappedAssetView>) -> bool {
    forall|i: int, j: int|
        0 <= i < j < a.len() ==> !(#[trigger] a[i].source_chain == #[trigger] a[j].source_chain
            && a[i].original_token == a[j].original_token)
}

/// No message id occurs twice.
pub open spec fn messages_unique(m: Seq<(Seq<u8>, MessageStatus)>) -> bool {
    forall|i: int, j: int| 0 <= i < j < m.len() ==> #[trigger] m[i].0 != #[trigger] m[j].0
}

impl MessageBridgeEnv {
    pub open spec fn wf(&self) -> bool {
        &&& self.proposals.wf()
        &&& self.has_voted.wf()
        &&& assets_unique(self@.wrapped_assets)
        &&& messages_unique(self@.messages)
    }

    /// A bridge with empty storage.
    pub fn new(current_contract: Address, ledger_sequence: u32) -> (e: Self)
        ensures
            e.wf(),
            e@ == (MessageBridgeView {
                ledger_sequence,
                current_contract,
                admin: None,
                validators: Seq::empty(),
                threshold: None,
                paused: false,
                stellar_chain_id: None,
                messages: Seq::empty(),
                wrapped_assets: Seq::empty(),
                proposal_count: 0,
                proposals: Map::empty(),
                has_voted: Map::empty(),
            }),
    {
        let e = MessageBridgeEnv {
            ledger_sequence,
            current_contract,
            admin: None,
            validators: Vec::new(),
            threshold: None,
            paused: false,
            stellar_chain_id: None,
            messages: Vec::new(),
            wrapped_assets: Vec::new(),
            proposal_count: 0,
            proposals: Store::new(),
            has_voted: Store::new(),
        };
        assert(e@ =~= MessageBridgeView {
            ledger_sequence,
            current_contract,
            admin: None,
            validators: Seq::empty(),
            threshold: None,
            paused: false,
            stellar_chain_id: None,
            messages: Seq::empty(),
            wrapped_assets: Seq::empty(),
            proposal_count: 0,
            proposals: Map::empty(),
            has_voted: Map::empty(),
        });
        e
    }
}

/// The approval threshold (1 until one is stored).
pub open spec fn spec_threshold(v: MessageBridgeView) -> u32 {
    match v.threshold {
        Some(t) => t,
        None => 1,
    }
}

/// Status recorded for message `id`.
pub open spec fn spec_message_status(v: MessageBridgeView, id: Seq<u8>) -> Option<MessageStatus> {
    if exists|i: int| 0 <= i < v.messages.len() && #[trigger] v.messages[i].0 == id {
        Some(v.messages[choose|i: int| 0 <= i < v.messages.len() && #[trigger] v.messages[i].0 == id].1)
    } else {
        None
    }
}

} // verus!
