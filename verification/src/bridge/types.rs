//! Records and errors of the lock-and-mint bridge.

use vstd::prelude::*;
use crate::common::Address;

verus! {

/// Direction of a bridge operation from Stellar's perspective.
#[derive(Clone, Copy, Debug, PartialEq, Eq, Structural)]
pub enum BridgeDirection {
    /// Tokens locked on Stellar, released on the external chain.
    OutboundToExternal,
    /// Tokens locked on the external chain, paid out on Stellar.
    InboundFromExternal,
}

/// Lifecycle state of a bridge request.
#[derive(Clone, Copy, Debug, PartialEq, Eq, Structural)]
pub enum BridgeRequestStatus {
    Pending,
    Approved,
    Completed,
    Rejected,
    Cancelled,
    Expired,
}

/// Supported external chains; `Custom` carries its chain id.
#[derive(Clone, Copy, Debug, PartialEq, Eq, Structural)]
pub enum ExternalChain {
    Ethereum,
    Polygon,
    BinanceSmartChain,
    Avalanche,
    Arbitrum,
    Optimism,
    Custom(u32),
}

/// A bridge request, created when a user initiates a cross-chain transfer.
#[derive(Debug)]
pub struct BridgeRequest {
    pub request_id: u64,
    pub direction: BridgeDirection,
    pub initiator: Address,
    pub stellar_asset: Address,
    pub amount: i128,
    pub fee_amount: i128,
    pub net_amount: i128,
    pub external_chain: ExternalChain,
    pub external_address: Vec<u8>,
    pub external_tx_hash: Vec<u8>,
    pub status: BridgeRequestStatus,
    pub created_at: u64,
    pub expires_at: u64,
    pub completed_at: u64,
    pub approval_count: u32,
    pub rejection_count: u32,
    pub required_approvals: u32,
}

/// One record per (Stellar asset, external chain id) pair.
#[derive(Debug)]
pub struct WrappedAsset {
    pub stellar_asset: Address,
    pub external_chain: ExternalChain,
    pub external_contract: Vec<u8>,
    pub decimals_stellar: u32,
    pub decimals_external: u32,
    pub total_locked: i128,
    pub total_minted: i128,
    pub is_active: bool,
    pub backing_ratio_bps: u32,
    pub registered_at: u64,
    pub registered_by: Address,
}

/// A validator's recorded vote on a request.
#[derive(Debug)]
pub struct ValidatorSignature {
    pub validator: Address,
    pub request_id: u64,
    pub approved: bool,
    pub signed_at: u64,
    pub signature: [u8; 64],
}

/// The current validator set, version-stamped.
#[derive(Debug)]
pub struct ValidatorSet {
    pub validators: Vec<Address>,
    pub threshold: u32,
    pub version: u32,
    pub updated_at: u64,
}

/// Per-chain operational configuration.
#[derive(Clone, Copy, Debug, PartialEq, Eq, Structural)]
pub struct ChainConfig {
    pub chain: ExternalChain,
    pub is_active: bool,
    pub min_confirmations: u32,
    pub max_transfer_amount: i128,
    pub daily_limit: i128,
    pub daily_volume: i128,
    pub window_start: u64,
    pub fee_bps: u32,
    pub expiry_seconds: u64,
}

/// Global bridge statistics.
#[derive(Debug)]
pub struct BridgeStats {
    pub total_requests: u64,
    pub total_completed: u64,
    pub total_rejected: u64,
    pub total_volume: i128,
    pub total_fees_collected: i128,
    pub is_paused: bool,
    pub pause_reason: String,
}

/// A time-locked validator-set replacement proposed by the admin.
#[derive(Debug)]
pub struct PendingValidatorUpgrade {
    pub proposed_validators: Vec<Address>,
    pub proposed_threshold: u32,
    pub proposed_at: u64,
    pub effective_at: u64,
    pub proposer: Address,
}

/// Published when validators reject a request.
#[derive(Clone, Copy, Debug, PartialEq, Eq, Structural)]
pub struct BridgeRejectedEvent {
    pub request_id: u64,
    pub rejection_count: u32,
    pub rejected_at: u64,
}

/// Bridge errors; `code` gives each its contract error number.
#[derive(Clone, Copy, Debug, PartialEq, Eq, Structural)]
pub enum BridgeError {
    Unauthorized,
    NotValidator,
    NotAdmin,
    AlreadyInitialized,
    NotInitialized,
    RequestNotFound,
    RequestAlreadyProcessed,
    RequestExpired,
    RequestNotPending,
    AlreadyVoted,
    AssetNotRegistered,
    AssetAlreadyRegistered,
    AssetInactive,
    BackingRatioBroken,
    ChainNotSupported,
    ChainInactive,
    AmountTooSmall,
    AmountExceedsMax,
    DailyLimitExceeded,
    InsufficientBalance,
    InvalidFee,
    ValidatorAlreadyExists,
    ValidatorNotFound,
    ThresholdTooLow,
    ThresholdExceedsSet,
    ValidatorSetTooSmall,
    NoPendingUpgrade,
    UpgradeTimelockActive,
    BridgePaused,
    InvalidSignature,
    DuplicateExternalTx,
    InvalidNonce,
}

pub open spec fn spec_bridge_error_code(e: BridgeError) -> u32 {
    match e {
        BridgeError::Unauthorized => 5001,
        BridgeError::NotValidator => 5002,
        BridgeError::NotAdmin => 5003,
        BridgeError::AlreadyInitialized => 5010,
        BridgeError::NotInitialized => 5011,
        BridgeError::RequestNotFound => 5020,
        BridgeError::RequestAlreadyProcessed => 5021,
        BridgeError::RequestExpired => 5022,
        BridgeError::RequestNotPending => 5023,
        BridgeError::AlreadyVoted => 5024,
        BridgeError::AssetNotRegistered => 5030,
        BridgeError::AssetAlreadyRegistered => 5031,
        BridgeError::AssetInactive => 5032,
        BridgeError::BackingRatioBroken => 5033,
        BridgeError::ChainNotSupported => 5040,
        BridgeError::ChainInactive => 5041,
        BridgeError::AmountTooSmall => 5050,
        BridgeError::AmountExceedsMax => 5051,
        BridgeError::DailyLimitExceeded => 5052,
        BridgeError::InsufficientBalance => 5053,
        BridgeError::InvalidFee => 5054,
        BridgeError::ValidatorAlreadyExists => 5060,
        BridgeError::ValidatorNotFound => 5061,
        BridgeError::ThresholdTooLow => 5062,
        BridgeError::ThresholdExceedsSet => 5063,
        BridgeError::ValidatorSetTooSmall => 5064,
        BridgeError::NoPendingUpgrade => 5065,
        BridgeError::UpgradeTimelockActive => 5066,
        BridgeError::BridgePaused => 5070,
        BridgeError::InvalidSignature => 5071,
        BridgeError::DuplicateExternalTx => 5072,
        BridgeError::InvalidNonce => 5073,
    }
}

impl BridgeError {
    /// The contract error number.
    pub fn code(&self) -> (c: u32)
        ensures
            c == spec_bridge_error_code(*self),
    {
        match self {
            BridgeError::Unauthorized => 5001,
            BridgeError::NotValidator => 5002,
            BridgeError::NotAdmin => 5003,
            BridgeError::AlreadyInitialized => 5010,
            BridgeError::NotInitialized => 5011,
            BridgeError::RequestNotFound => 5020,
            BridgeError::RequestAlreadyProcessed => 5021,
            BridgeError::RequestExpired => 5022,
            BridgeError::RequestNotPending => 5023,
            BridgeError::AlreadyVoted => 5024,
            BridgeError::AssetNotRegistered => 5030,
            BridgeError::AssetAlreadyRegistered => 5031,
            BridgeError::AssetInactive => 5032,
            BridgeError::BackingRatioBroken => 5033,
            BridgeError::ChainNotSupported => 5040,
            BridgeError::ChainInactive => 5041,
            BridgeError::AmountTooSmall => 5050,
            BridgeError::AmountExceedsMax => 5051,
            BridgeError::DailyLimitExceeded => 5052,
            BridgeError::InsufficientBalance => 5053,
            BridgeError::InvalidFee => 5054,
            BridgeError::ValidatorAlreadyExists => 5060,
            BridgeError::ValidatorNotFound => 5061,
            BridgeError::ThresholdTooLow => 5062,
            BridgeError::ThresholdExceedsSet => 5063,
            BridgeError::ValidatorSetTooSmall => 5064,
            BridgeError::NoPendingUpgrade => 5065,
            BridgeError::UpgradeTimelockActive => 5066,
            BridgeError::BridgePaused => 5070,
            BridgeError::InvalidSignature => 5071,
            BridgeError::DuplicateExternalTx => 5072,
            BridgeError::InvalidNonce => 5073,
        }
    }
}

} // verus!

verus! {

/// Spec value of a [`BridgeRequest`].
pub struct BridgeRequestView {
    pub request_id: u64,
    pub direction: BridgeDirection,
    pub initiator: Address,
    pub stellar_asset: Address,
    pub amount: i128,
    pub fee_amount: i128,
    pub net_amount: i128,
    pub external_chain: ExternalChain,
    pub external_address: Seq<u8>,
    pub external_tx_hash: Seq<u8>,
    pub status: BridgeRequestStatus,
    pub created_at: u64,
    pub expires_at: u64,
    pub completed_at: u64,
    pub approval_count: u32,
    pub rejection_count: u32,
    pub required_approvals: u32,
}

impl View for BridgeRequest {
    type V = BridgeRequestView;

    open spec fn view(&self) -> BridgeRequestView {
        BridgeRequestView {
            request_id: self.request_id,
            direction: self.direction,
            initiator: self.initiator,
            stellar_asset: self.stellar_asset,
            amount: self.amount,
            fee_amount: self.fee_amount,
            net_amount: self.net_amount,
            external_chain: self.external_chain,
            external_address: self.external_address@,
            external_tx_hash: self.external_tx_hash@,
            status: self.status,
            created_at: self.created_at,
            expires_at: self.expires_at,
            completed_at: self.completed_at,
            approval_count: self.approval_count,
            rejection_count: self.rejection_count,
            required_approvals: self.required_approvals,
        }
    }
}

/// Spec value of a [`WrappedAsset`].
pub struct WrappedAssetView {
    pub stellar_asset: Address,
    pub external_chain: ExternalChain,
    pub external_contract: Seq<u8>,
    pub decimals_stellar: u32,
    pub decimals_external: u32,
    pub total_locked: i128,
    pub total_minted: i128,
    pub is_active: bool,
    pub backing_ratio_bps: u32,
    pub registered_at: u64,
    pub registered_by: Address,
}

impl View for WrappedAsset {
    type V = WrappedAssetView;

    open spec fn view(&self) -> WrappedAssetView {
        WrappedAssetView {
            stellar_asset: self.stellar_asset,
            external_chain: self.external_chain,
            external_contract: self.external_contract@,
            decimals_stellar: self.decimals_stellar,
            decimals_external: self.decimals_external,
            total_locked: self.total_locked,
            total_minted: self.total_minted,
            is_active: self.is_active,
            backing_ratio_bps: self.backing_ratio_bps,
            registered_at: self.registered_at,
            registered_by: self.registered_by,
        }
    }
}

/// Spec value of a [`ValidatorSet`].
pub struct ValidatorSetView {
    pub validators: Seq<Address>,
    pub threshold: u32,
    pub version: u32,
    pub updated_at: u64,
}

impl View for ValidatorSet {
    type V = ValidatorSetView;

    open spec fn view(&self) -> ValidatorSetView {
        ValidatorSetView {
            validators: self.validators@,
            threshold: self.threshold,
            version: self.version,
            updated_at: self.updated_at,
        }
    }
}

/// Spec value of a [`PendingValidatorUpgrade`].
pub struct PendingValidatorUpgradeView {
    pub proposed_validators: Seq<Address>,
    pub proposed_threshold: u32,
    pub proposed_at: u64,
    pub effective_at: u64,
    pub proposer: Address,
}

impl View for PendingValidatorUpgrade {
    type V = PendingValidatorUpgradeView;

    open spec fn view(&self) -> PendingValidatorUpgradeView {
        PendingValidatorUpgradeView {
            proposed_validators: self.proposed_validators@,
            proposed_threshold: self.proposed_threshold,
            proposed_at: self.proposed_at,
            effective_at: self.effective_at,
            proposer: self.proposer,
        }
    }
}

/// Spec value of a [`ValidatorSignature`].
pub struct ValidatorSignatureView {
    pub validator: Address,
    pub request_id: u64,
    pub approved: bool,
    pub signed_at: u64,
    pub signature: Seq<u8>,
}

impl View for ValidatorSignature {
    type V = ValidatorSignatureView;

    open spec fn view(&self) -> ValidatorSignatureView {
        ValidatorSignatureView {
            validator: self.validator,
            request_id: self.request_id,
            approved: self.approved,
            signed_at: self.signed_at,
            signature: self.signature@,
        }
    }
}

pub fn copy_request(r: &BridgeRequest) -> (c: BridgeRequest)
    ensures
        c@ == r@,
{
    BridgeRequest {
        request_id: r.request_id,
        direction: r.direction,
        initiator: r.initiator,
        stellar_asset: r.stellar_asset,
        amount: r.amount,
        fee_amount: r.fee_amount,
        net_amount: r.net_amount,
        external_chain: r.external_chain,
        external_address: crate::common::copy_bytes(&r.external_address),
        external_tx_hash: crate::common::copy_bytes(&r.external_tx_hash),
        status: r.status,
        created_at: r.created_at,
        expires_at: r.expires_at,
        completed_at: r.completed_at,
        approval_count: r.approval_count,
        rejection_count: r.rejection_count,
        required_approvals: r.required_approvals,
    }
}

pub fn copy_asset(a: &WrappedAsset) -> (c: WrappedAsset)
    ensures
        c@ == a@,
{
    WrappedAsset {
        stellar_asset: a.stellar_asset,
        external_chain: a.external_chain,
        external_contract: crate::common::copy_bytes(&a.external_contract),
        decimals_stellar: a.decimals_stellar,
        decimals_external: a.decimals_external,
        total_locked: a.total_locked,
        total_minted: a.total_minted,
        is_active: a.is_active,
        backing_ratio_bps: a.backing_ratio_bps,
        registered_at: a.registered_at,
        registered_by: a.registered_by,
    }
}

} // verus!

verus! {

/// Spec value of [`BridgeStats`].
pub struct BridgeStatsView {
    pub total_requests: u64,
    pub total_completed: u64,
    pub total_rejected: u64,
    pub total_volume: i128,
    pub total_fees_collected: i128,
    pub is_paused: bool,
    pub pause_reason: Seq<char>,
}

impl View for BridgeStats {
    type V = BridgeStatsView;

    open spec fn view(&self) -> BridgeStatsView {
        BridgeStatsView {
            total_requests: self.total_requests,
            total_completed: self.total_completed,
            total_rejected: self.total_rejected,
            total_volume: self.total_volume,
            total_fees_collected: self.total_fees_collected,
            is_paused: self.is_paused,
            pause_reason: self.pause_reason@,
        }
    }
}

} // verus!
