//! The bridge contract: asset and chain registry, outbound locks, inbound
//! claims, validator voting and validator-set management.

use vstd::prelude::*;
use crate::common::{Address, TokenTransfer, addr_key, pair_key, spec_addr_key, spec_pair_key, bytes_eq, copy_bytes, contains_addr};
use crate::crypto::spec_ed25519_verifies;
use crate::store::Store;
use crate::bridge::types::{
    BridgeDirection, BridgeError, BridgeRequest, BridgeRequestStatus, BridgeRequestView, BridgeStats,
    BridgeStatsView, ChainConfig, ExternalChain, PendingValidatorUpgrade, PendingValidatorUpgradeView,
    ValidatorSet, ValidatorSetView, ValidatorSignature, ValidatorSignatureView, WrappedAsset,
    WrappedAssetView, copy_asset, copy_request,
};
use crate::bridge::storage::{chain_to_id, spec_chain_to_id, refresh_daily_window, spec_refresh_daily_window};
use crate::bridge::security::{
    validate_threshold, spec_validate_threshold, calculate_fee, spec_fee,
    effective_required_approvals, spec_effective_required_approvals, spec_signed_message,
    twos_complement_128, VALIDATOR_UPGRADE_TIMELOCK_SECONDS, get_validator_pubkey, set_validator_pubkey,
    verify_validator_signature,
};

verus! {

/// Contract state: everything the original keeps in instance and persistent
/// storage.
pub struct CrossChainBridgeContract {
    /// The contract's own address (holder of locked tokens).
    pub self_address: Address,
    pub initialized: bool,
    pub admin: Option<Address>,
    pub fee_collector: Option<Address>,
    pub validator_set: Option<ValidatorSet>,
    pub stats: BridgeStats,
    pub pending_upgrade: Option<PendingValidatorUpgrade>,
    pub request_counter: u64,
    /// Requests by id.
    pub requests: Store<BridgeRequest>,
    /// Wrapped assets by `asset_key(stellar asset, chain)`.
    pub wrapped_assets: Store<WrappedAsset>,
    /// Chain configurations by chain id.
    pub chain_configs: Store<ChainConfig>,
    /// Votes by `pair_key(request id, validator)`.
    pub votes: Store<ValidatorSignature>,
    /// External transaction hashes already paid out.
    pub processed_txs: Vec<Vec<u8>>,
    /// Ed25519 public keys by validator address.
    pub validator_pubkeys: Store<[u8; 32]>,
    /// The 32-byte hash of each registered Stellar asset's address, by
    /// address; it is part of what validators sign for a request.
    pub asset_hashes: Store<[u8; 32]>,
    pub slash_counts: Store<u32>,
    pub nonces: Store<u64>,
}

/// Spec value of the whole contract state.
#[verifier::ext_equal]
pub struct CrossChainBridgeView {
    pub self_address: Address,
    pub initialized: bool,
    pub admin: Option<Address>,
    pub fee_collector: Option<Address>,
    pub validator_set: Option<ValidatorSetView>,
    pub stats: BridgeStatsView,
    pub pending_upgrade: Option<PendingValidatorUpgradeView>,
    pub request_counter: u64,
    pub requests: Map<u128, BridgeRequestView>,
    pub wrapped_assets: Map<u128, WrappedAssetView>,
    pub chain_configs: Map<u128, ChainConfig>,
    pub votes: Map<u128, ValidatorSignatureView>,
    pub processed_txs: Seq<Seq<u8>>,
    pub validator_pubkeys: Map<u128, Seq<u8>>,
    pub asset_hashes: Map<u128, Seq<u8>>,
    pub slash_counts: Map<u128, u32>,
    pub nonces: Map<u128, u64>,
}

pub open spec fn opt_set_view(s: Option<ValidatorSet>) -> Option<ValidatorSetView> {
    match s {
        Some(v) => Some(v@),
        None => None,
    }
}

pub open spec fn opt_upgrade_view(u: Option<PendingValidatorUpgrade>) -> Option<PendingValidatorUpgradeView> {
    match u {
        Some(v) => Some(v@),
        None => None,
    }
}

impl View for CrossChainBridgeContract {
    type V = CrossChainBridgeView;

    open spec fn view(&self) -> CrossChainBridgeView {
        CrossChainBridgeView {
            self_address: self.self_address,
            initialized: self.initialized,
            admin: self.admin,
            fee_collector: self.fee_collector,
            validator_set: opt_set_view(self.validator_set),
            stats: self.stats@,
            pending_upgrade: opt_upgrade_view(self.pending_upgrade),
            request_counter: self.request_counter,
            requests: self.requests@.map_values(|r: BridgeRequest| r@),
            wrapped_assets: self.wrapped_assets@.map_values(|a: WrappedAsset| a@),
            chain_configs: self.chain_configs@,
            votes: self.votes@.map_values(|v: ValidatorSignature| v@),
            processed_txs: self.processed_txs@.map_values(|b: Vec<u8>| b@),
            validator_pubkeys: self.validator_pubkeys@.map_values(|k: [u8; 32]| k@),
            asset_hashes: self.asset_hashes@.map_values(|h: [u8; 32]| h@),
            slash_counts: self.slash_counts@,
            nonces: self.nonces@,
        }
    }
}

/// Storage key of a request.
pub open spec fn request_key(id: u64) -> u128 {
    id as u128
}

/// Storage key of the wrapped asset of `asset` on `chain`.
pub open spec fn asset_key(asset: Address, chain: ExternalChain) -> u128 {
    spec_pair_key(spec_chain_to_id(chain) as u64, asset)
}

/// Storage key of the configuration of `chain`.
pub open spec fn chain_key(chain: ExternalChain) -> u128 {
    spec_chain_to_id(chain) as u128
}

/// Storage key of `validator`'s vote on request `id`.
pub open spec fn vote_key(id: u64, validator: Address) -> u128 {
    spec_pair_key(id, validator)
}

/// Outcome of the admin check: the stored admin must be the caller.
pub open spec fn spec_require_admin(admin: Option<Address>, caller: Address) -> Result<(), BridgeError> {
    match admin {
        None => Err(BridgeError::NotInitialized),
        Some(a) => if a == caller {
            Ok(())
        } else {
            Err(BridgeError::NotAdmin)
        },
    }
}

/// Outcome of the chain check: the chain must be configured and active.
pub open spec fn spec_require_chain_active(v: CrossChainBridgeView, chain: ExternalChain) -> Result<(), BridgeError> {
    if !v.chain_configs.contains_key(chain_key(chain)) {
        Err(BridgeError::ChainNotSupported)
    } else if !v.chain_configs[chain_key(chain)].is_active {
        Err(BridgeError::ChainInactive)
    } else {
        Ok(())
    }
}

/// A validator set that the BFT rule accepts.
pub open spec fn valid_set(s: ValidatorSetView) -> bool {
    &&& spec_validate_threshold(s.threshold as int, s.validators.len() as int) is Ok
    &&& 2 * s.validators.len() <= u32::MAX
}

/// The key registry after the first `n` validators are registered in
/// order, each under its own address with the key at the same position; a
/// later entry for the same address overwrites an earlier one.
pub open spec fn spec_register_keys(
    m: Map<u128, Seq<u8>>,
    validators: Seq<Address>,
    keys: Seq<[u8; 32]>,
    n: int,
) -> Map<u128, Seq<u8>>
    decreases n,
{
    if n <= 0 {
        m
    } else {
        spec_register_keys(m, validators, keys, n - 1).insert(spec_addr_key(validators[n - 1]), keys[n - 1]@)
    }
}

/// A validator whose address does not come up again later in the list ends
/// up registered with its own key.
pub proof fn lemma_registered_key(m: Map<u128, Seq<u8>>, validators: Seq<Address>, keys: Seq<[u8; 32]>, n: int, i: int)
    requires
        0 <= i < n,
        forall|j: int| i < j < n ==> validators[j] != validators[i],
    ensures
        spec_register_keys(m, validators, keys, n).contains_key(spec_addr_key(validators[i])),
        spec_register_keys(m, validators, keys, n)[spec_addr_key(validators[i])] == keys[i]@,
    decreases n,
{
    if i < n - 1 {
        lemma_registered_key(m, validators, keys, n - 1, i);
        assert(validators[n - 1] != validators[i]);
        assert(validators[n - 1].0 != validators[i].0);
    }
}

/// The validators who have voted on request `id`.
pub open spec fn voters(v: CrossChainBridgeView, id: u64) -> Set<Address> {
    Set::new(|a: Address| v.votes.contains_key(vote_key(id, a)))
}

/// The vote tally of every stored request matches the recorded votes: its
/// approvals plus rejections are the number of validators who voted on it;
/// votes are only recorded for stored requests, and stored request ids do
/// not exceed the request counter.
pub open spec fn tally_ok(v: CrossChainBridgeView) -> bool {
    &&& forall|id: u64| #[trigger] v.requests.contains_key(request_key(id)) ==> {
        &&& v.requests[request_key(id)].request_id == id
        &&& voters(v, id).finite()
        &&& voters(v, id).len() == v.requests[request_key(id)].approval_count
            + v.requests[request_key(id)].rejection_count
        &&& id <= v.request_counter
    }
    &&& forall|id: u64, a: Address| #[trigger] v.votes.contains_key(vote_key(id, a)) ==> v.requests.contains_key(
        request_key(id),
    )
}

/// The tally reads only the requests, the votes and the request counter.
pub proof fn lemma_tally_frame(v: CrossChainBridgeView, w: CrossChainBridgeView)
    requires
        tally_ok(v),
        w.requests == v.requests,
        w.votes == v.votes,
        w.request_counter == v.request_counter,
    ensures
        tally_ok(w),
{
    assert forall|id: u64| #[trigger] w.requests.contains_key(request_key(id)) implies voters(w, id) == voters(v, id) by {
        assert(voters(w, id) =~= voters(v, id));
    }
}

impl CrossChainBridgeContract {
    /// Internal consistency: the stores are consistent (`wf_stores`) and every
    /// request's vote tally matches the votes recorded for it (`tally_ok`).
    pub open spec fn wf(&self) -> bool {
        &&& self.wf_stores()
        &&& tally_ok(self@)
    }

    /// The stores are well formed, each record sits under its own key, and
    /// the validator set (when set) satisfies the BFT rule.
    pub open spec fn wf_stores(&self) -> bool {
        &&& self.requests.wf()
        &&& self.wrapped_assets.wf()
        &&& self.chain_configs.wf()
        &&& self.votes.wf()
        &&& self.validator_pubkeys.wf()
        &&& self.asset_hashes.wf()
        &&& self.slash_counts.wf()
        &&& self.nonces.wf()
        &&& forall|k: u128| #[trigger] self.requests@.contains_key(k) ==> request_key(self.requests@[k].request_id) == k
        &&& forall|k: u128| #[trigger] self.wrapped_assets@.contains_key(k) ==> asset_key(
            self.wrapped_assets@[k].stellar_asset,
            self.wrapped_assets@[k].external_chain,
        ) == k
        &&& forall|k: u128| #[trigger] self.chain_configs@.contains_key(k) ==> chain_key(self.chain_configs@[k].chain) == k
        &&& (self.validator_set matches Some(s) ==> valid_set(s@))
        &&& (self.pending_upgrade matches Some(u) ==> spec_validate_threshold(u.proposed_threshold as int, u.proposed_validators@.len() as int) is Ok
                && 2 * u.proposed_validators@.len() <= u32::MAX)
    }

    /// Record each validator's signing key, in order.
    fn register_pubkeys(&mut self, validators: &Vec<Address>, keys: &Vec<[u8; 32]>)
        requires
            old(self).wf(),
            keys@.len() == validators@.len(),
        ensures
            final(self).wf(),
            final(self)@ == (CrossChainBridgeView {
                validator_pubkeys: spec_register_keys(
                    old(self)@.validator_pubkeys,
                    validators@,
                    keys@,
                    validators@.len() as int,
                ),
                ..old(self)@
            }),
    {
        let ghost v = self@;
        let mut i: usize = 0;
        assert(self@ =~= (CrossChainBridgeView {
            validator_pubkeys: spec_register_keys(v.validator_pubkeys, validators@, keys@, 0),
            ..v
        }));
        while i < validators.len()
            invariant
                self.wf_stores(),
                tally_ok(v),
                0 <= i <= validators@.len(),
                keys@.len() == validators@.len(),
                self@ == (CrossChainBridgeView {
                    validator_pubkeys: spec_register_keys(v.validator_pubkeys, validators@, keys@, i as int),
                    ..v
                }),
            decreases validators@.len() - i,
        {
            let ghost before = self@;
            self.validator_pubkeys.set(addr_key(validators[i]), keys[i]);
            assert(self@.validator_pubkeys =~= before.validator_pubkeys.insert(spec_addr_key(validators@[i as int]), keys@[i as int]@));
            i = i + 1;
            assert(self@ =~= (CrossChainBridgeView {
                validator_pubkeys: spec_register_keys(v.validator_pubkeys, validators@, keys@, i as int),
                ..v
            }));
        }
        proof {
            lemma_tally_frame(v, self@);
        }
    }

    /// A freshly deployed, uninitialised bridge at `self_address`.
    pub fn new(self_address: Address) -> (c: Self)
        ensures
            c.wf(),
            c@.self_address == self_address,
            !c@.initialized,
            c@.admin is None,
            c@.fee_collector is None,
            c@.validator_set is None,
            c@.pending_upgrade is None,
            c@.request_counter == 0,
            c@.requests.is_empty(),
            c@.wrapped_assets.is_empty(),
            c@.chain_configs.is_empty(),
            c@.votes.is_empty(),
            c@.asset_hashes.is_empty(),
            c@.processed_txs.len() == 0,
            c@.stats == (BridgeStatsView {
                total_requests: 0,
                total_completed: 0,
                total_rejected: 0,
                total_volume: 0,
                total_fees_collected: 0,
                is_paused: false,
                pause_reason: Seq::empty(),
            }),
    {
        let c = CrossChainBridgeContract {
            self_address,
            initialized: false,
            admin: None,
            fee_collector: None,
            validator_set: None,
            stats: BridgeStats {
                total_requests: 0,
                total_completed: 0,
                total_rejected: 0,
                total_volume: 0,
                total_fees_collected: 0,
                is_paused: false,
                pause_reason: String::new(),
            },
            pending_upgrade: None,
            request_counter: 0,
            requests: Store::new(),
            wrapped_assets: Store::new(),
            chain_configs: Store::new(),
            votes: Store::new(),
            processed_txs: Vec::new(),
            validator_pubkeys: Store::new(),
            asset_hashes: Store::new(),
            slash_counts: Store::new(),
            nonces: Store::new(),
        };
        assert(c@.requests =~= Map::empty());
        assert(c@.wrapped_assets =~= Map::empty());
        assert(c@.votes =~= Map::empty());
        assert(c@.asset_hashes =~= Map::empty());
        assert(c@.stats.pause_reason =~= Seq::empty());
        c
    }

    fn require_admin(&self, caller: Address) -> (r: Result<(), BridgeError>)
        ensures
            r == spec_require_admin(self.admin, caller),
    {
        match self.admin {
            None => Err(BridgeError::NotInitialized),
            Some(a) => if a == caller {
                Ok(())
            } else {
                Err(BridgeError::NotAdmin)
            },
        }
    }

    fn chain_config(&self, chain: ExternalChain) -> (r: Option<ChainConfig>)
        requires
            self.chain_configs.wf(),
        ensures
            r is Some <==> self@.chain_configs.contains_key(chain_key(chain)),
            r matches Some(c) ==> c == self@.chain_configs[chain_key(chain)],
    {
        match self.chain_configs.get(chain_to_id(chain) as u128) {
            Some(c) => Some(*c),
            None => None,
        }
    }

    fn asset_index(&self, asset: Address, chain: ExternalChain) -> (k: u128)
        ensures
            k == asset_key(asset, chain),
    {
        pair_key(chain_to_id(chain) as u64, asset)
    }

    fn require_chain_active(&self, chain: ExternalChain) -> (r: Result<(), BridgeError>)
        requires
            self.chain_configs.wf(),
        ensures
            r == spec_require_chain_active(self@, chain),
    {
        match self.chain_config(chain) {
            None => Err(BridgeError::ChainNotSupported),
            Some(c) => if !c.is_active {
                Err(BridgeError::ChainInactive)
            } else {
                Ok(())
            },
        }
    }

    /// Deploy and configure the bridge with its admin, fee collector and
    /// initial validator set (at least 3, threshold above two thirds), one
    /// Ed25519 key per validator.
    pub fn initialize(
        &mut self,
        admin: Address,
        fee_collector: Address,
        validators: Vec<Address>,
        threshold: u32,
        validator_pubkeys: Vec<[u8; 32]>,
        now: u64,
    ) -> (r: Result<(), BridgeError>)
        requires
            old(self).wf(),
            2 * validators@.len() <= u32::MAX,
        ensures
            final(self).wf(),
            old(self)@.initialized ==> r == Err::<(), BridgeError>(BridgeError::AlreadyInitialized),
            !old(self)@.initialized && spec_validate_threshold(threshold as int, validators@.len() as int) is Err
                ==> r == spec_validate_threshold(threshold as int, validators@.len() as int),
            !old(self)@.initialized && spec_validate_threshold(threshold as int, validators@.len() as int) is Ok
                && validator_pubkeys@.len() != validators@.len() ==> r == Err::<(), BridgeError>(BridgeError::NotValidator),
            r is Err ==> final(self)@ == old(self)@,
            r is Ok <==> !old(self)@.initialized && spec_validate_threshold(threshold as int, validators@.len() as int) is Ok
                && validator_pubkeys@.len() == validators@.len(),
            r is Ok ==> final(self)@ == (CrossChainBridgeView {
                initialized: true,
                admin: Some(admin),
                fee_collector: Some(fee_collector),
                validator_set: Some(ValidatorSetView { validators: validators@, threshold, version: 1, updated_at: now }),
                validator_pubkeys: spec_register_keys(
                    old(self)@.validator_pubkeys,
                    validators@,
                    validator_pubkeys@,
                    validators@.len() as int,
                ),
                ..old(self)@
            }),
    {
        if self.initialized {
            return Err(BridgeError::AlreadyInitialized);
        }
        let count = validators.len() as u32;
        match validate_threshold(threshold, count) {
            Err(e) => return Err(e),
            Ok(()) => {},
        }
        if validator_pubkeys.len() != validators.len() {
            return Err(BridgeError::NotValidator);
        }
        self.register_pubkeys(&validators, &validator_pubkeys);
        self.validator_set = Some(ValidatorSet { validators, threshold, version: 1, updated_at: now });
        self.admin = Some(admin);
        self.fee_collector = Some(fee_collector);
        self.initialized = true;
        Ok(())
    }

    /// Register a Stellar token as bridgeable to and from `external_chain`;
    /// `stellar_asset_hash` is the 32-byte hash of the token's address,
    /// which validators sign as part of each request on it.
    pub fn register_asset(
        &mut self,
        admin: Address,
        stellar_asset: Address,
        external_chain: ExternalChain,
        stellar_asset_hash: [u8; 32],
        external_contract: Vec<u8>,
        decimals_stellar: u32,
        decimals_external: u32,
        now: u64,
    ) -> (r: Result<(), BridgeError>)
        requires
            old(self).wf(),
        ensures
            final(self).wf(),
            r == (if spec_require_admin(old(self)@.admin, admin) is Err {
                spec_require_admin(old(self)@.admin, admin)
            } else if old(self)@.stats.is_paused {
                Err(BridgeError::BridgePaused)
            } else if old(self)@.wrapped_assets.contains_key(asset_key(stellar_asset, external_chain)) {
                Err(BridgeError::AssetAlreadyRegistered)
            } else {
                spec_require_chain_active(old(self)@, external_chain)
            }),
            r is Err ==> final(self)@ == old(self)@,
            r is Ok ==> final(self)@ == (CrossChainBridgeView {
                wrapped_assets: old(self)@.wrapped_assets.insert(
                    asset_key(stellar_asset, external_chain),
                    WrappedAssetView {
                        stellar_asset,
                        external_chain,
                        external_contract: external_contract@,
                        decimals_stellar,
                        decimals_external,
                        total_locked: 0,
                        total_minted: 0,
                        is_active: true,
                        backing_ratio_bps: 10_000,
                        registered_at: now,
                        registered_by: admin,
                    },
                ),
                asset_hashes: old(self)@.asset_hashes.insert(spec_addr_key(stellar_asset), stellar_asset_hash@),
                ..old(self)@
            }),
    {
        match self.require_admin(admin) {
            Err(e) => return Err(e),
            Ok(()) => {},
        }
        if self.stats.is_paused {
            return Err(BridgeError::BridgePaused);
        }
        let k = self.asset_index(stellar_asset, external_chain);
        if self.wrapped_assets.contains(k) {
            return Err(BridgeError::AssetAlreadyRegistered);
        }
        match self.require_chain_active(external_chain) {
            Err(e) => return Err(e),
            Ok(()) => {},
        }
        let asset = WrappedAsset {
            stellar_asset,
            external_chain,
            external_contract,
            decimals_stellar,
            decimals_external,
            total_locked: 0,
            total_minted: 0,
            is_active: true,
            backing_ratio_bps: 10_000,
            registered_at: now,
            registered_by: admin,
        };
        let ghost av = asset@;
        let ghost pre = self.wrapped_assets@;
        self.wrapped_assets.set(k, asset);
        self.asset_hashes.set(addr_key(stellar_asset), stellar_asset_hash);
        assert(self@.wrapped_assets =~= old(self)@.wrapped_assets.insert(k, av));
        assert(self@.asset_hashes =~= old(self)@.asset_hashes.insert(spec_addr_key(stellar_asset), stellar_asset_hash@));
        assert(self@ =~= (CrossChainBridgeView {
            wrapped_assets: old(self)@.wrapped_assets.insert(k, av),
            asset_hashes: old(self)@.asset_hashes.insert(spec_addr_key(stellar_asset), stellar_asset_hash@),
            ..old(self)@
        }));
        proof {
            lemma_tally_frame(old(self)@, self@);
        }
        Ok(())
    }
}


/// The chain configuration of `chain` as the daily window stands at `now`.
pub open spec fn refreshed_config(v: CrossChainBridgeView, chain: ExternalChain, now: u64) -> ChainConfig {
    spec_refresh_daily_window(v.chain_configs[chain_key(chain)], now)
}

/// Checks shared by outbound and inbound requests, in the order the contract
/// makes them, up to the daily limit.
pub open spec fn spec_transfer_checks(
    v: CrossChainBridgeView,
    stellar_asset: Address,
    amount: i128,
    chain: ExternalChain,
    now: u64,
) -> Result<(), BridgeError> {
    if !v.chain_configs.contains_key(chain_key(chain)) {
        Err(BridgeError::ChainNotSupported)
    } else if !v.chain_configs[chain_key(chain)].is_active {
        Err(BridgeError::ChainInactive)
    } else if amount > v.chain_configs[chain_key(chain)].max_transfer_amount {
        Err(BridgeError::AmountExceedsMax)
    } else if !v.wrapped_assets.contains_key(asset_key(stellar_asset, chain)) {
        Err(BridgeError::AssetNotRegistered)
    } else if !v.wrapped_assets[asset_key(stellar_asset, chain)].is_active {
        Err(BridgeError::AssetInactive)
    } else if refreshed_config(v, chain, now).daily_volume + amount > refreshed_config(v, chain, now).daily_limit {
        Err(BridgeError::DailyLimitExceeded)
    } else if v.validator_set is None {
        Err(BridgeError::NotInitialized)
    } else {
        Ok(())
    }
}

/// Where the contract's arithmetic would overflow (and trap) on a new
/// request; the checks before each step are taken into account.
pub open spec fn spec_request_arith_ok(
    v: CrossChainBridgeView,
    stellar_asset: Address,
    amount: i128,
    chain: ExternalChain,
    now: u64,
    locks: bool,
) -> bool {
    let c = refreshed_config(v, chain, now);
    let fee = spec_fee(amount as int, c.fee_bps as int);
    v.stats.is_paused || amount <= 0 || !v.chain_configs.contains_key(chain_key(chain))
        || !v.chain_configs[chain_key(chain)].is_active
        || amount > v.chain_configs[chain_key(chain)].max_transfer_amount
        || !v.wrapped_assets.contains_key(asset_key(stellar_asset, chain))
        || !v.wrapped_assets[asset_key(stellar_asset, chain)].is_active || (
    c.daily_volume + amount <= i128::MAX && (c.daily_volume + amount > c.daily_limit || (
    amount * c.fee_bps <= u128::MAX && fee <= i128::MAX && (v.validator_set is None || (
    i128::MIN <= c.max_transfer_amount * 10 <= i128::MAX && v.request_counter < u64::MAX
        && now + c.expiry_seconds <= u64::MAX
        && (locks ==> v.wrapped_assets[asset_key(stellar_asset, chain)].total_locked + amount <= i128::MAX)
        && v.stats.total_requests < u64::MAX && i128::MIN <= v.stats.total_volume + amount <= i128::MAX
        && i128::MIN <= v.stats.total_fees_collected + fee <= i128::MAX)))))
}

/// The record a new request gets.
pub open spec fn spec_new_request(
    v: CrossChainBridgeView,
    direction: BridgeDirection,
    initiator: Address,
    stellar_asset: Address,
    amount: i128,
    chain: ExternalChain,
    external_address: Seq<u8>,
    external_tx_hash: Seq<u8>,
    now: u64,
) -> BridgeRequestView {
    let c = refreshed_config(v, chain, now);
    let fee = spec_fee(amount as int, c.fee_bps as int);
    BridgeRequestView {
        request_id: (v.request_counter + 1) as u64,
        direction,
        initiator,
        stellar_asset,
        amount,
        fee_amount: fee as i128,
        net_amount: (amount - fee) as i128,
        external_chain: chain,
        external_address,
        external_tx_hash,
        status: BridgeRequestStatus::Pending,
        created_at: now,
        expires_at: (now + c.expiry_seconds) as u64,
        completed_at: 0,
        approval_count: 0,
        rejection_count: 0,
        required_approvals: spec_effective_required_approvals(
            v.validator_set.unwrap().validators.len() as int,
            v.validator_set.unwrap().threshold as int,
            amount as int,
            c.max_transfer_amount as int,
        ) as u32,
    }
}

/// The statistics after a new request of `amount` with `fee`.
pub open spec fn spec_stats_after_request(s: BridgeStatsView, amount: int, fee: int) -> BridgeStatsView {
    BridgeStatsView {
        total_requests: (s.total_requests + 1) as u64,
        total_volume: (s.total_volume + amount) as i128,
        total_fees_collected: (s.total_fees_collected + fee) as i128,
        ..s
    }
}

impl CrossChainBridgeContract {
    fn get_asset(&self, k: u128) -> (r: Option<&WrappedAsset>)
        requires
            self.wrapped_assets.wf(),
        ensures
            r is Some <==> self@.wrapped_assets.contains_key(k),
            r matches Some(a) ==> a@ == self@.wrapped_assets[k],
    {
        self.wrapped_assets.get(k)
    }

    /// Whether the external transaction `tx_hash` was already paid out.
    pub fn is_external_tx_processed(&self, tx_hash: &Vec<u8>) -> (b: bool)
        ensures
            b == self@.processed_txs.contains(tx_hash@),
    {
        let mut i: usize = 0;
        while i < self.processed_txs.len()
            invariant
                0 <= i <= self.processed_txs@.len(),
                forall|j: int| 0 <= j < i ==> self.processed_txs@[j]@ != tx_hash@,
            decreases self.processed_txs@.len() - i,
        {
            if bytes_eq(&self.processed_txs[i], tx_hash) {
                assert(self@.processed_txs[i as int] == tx_hash@);
                return true;
            }
            i = i + 1;
        }
        assert forall|j: int| 0 <= j < self@.processed_txs.len() implies self@.processed_txs[j] != tx_hash@ by {
            assert(self@.processed_txs[j] == self.processed_txs@[j]@);
        }
        false
    }

    fn transfer_checks(
        &self,
        stellar_asset: Address,
        amount: i128,
        chain: ExternalChain,
        now: u64,
    ) -> (r: Result<ChainConfig, BridgeError>)
        requires
            self.wf(),
            !self@.stats.is_paused,
            amount > 0,
            spec_request_arith_ok(self@, stellar_asset, amount, chain, now, false),
        ensures
            r is Ok <==> spec_transfer_checks(self@, stellar_asset, amount, chain, now) is Ok,
            r matches Err(e) ==> spec_transfer_checks(self@, stellar_asset, amount, chain, now) == Err::<(), BridgeError>(e),
            r matches Ok(c) ==> c == refreshed_config(self@, chain, now),
    {
        let config = match self.chain_config(chain) {
            None => return Err(BridgeError::ChainNotSupported),
            Some(c) => c,
        };
        if !config.is_active {
            return Err(BridgeError::ChainInactive);
        }
        if amount > config.max_transfer_amount {
            return Err(BridgeError::AmountExceedsMax);
        }
        let k = self.asset_index(stellar_asset, chain);
        match self.get_asset(k) {
            None => return Err(BridgeError::AssetNotRegistered),
            Some(a) => if !a.is_active {
                return Err(BridgeError::AssetInactive);
            },
        }
        let config = refresh_daily_window(now, config);
        if config.daily_volume + amount > config.daily_limit {
            return Err(BridgeError::DailyLimitExceeded);
        }
        if self.validator_set.is_none() {
            return Err(BridgeError::NotInitialized);
        }
        Ok(config)
    }

    /// Lock `amount` of `stellar_asset` from `initiator` for release on
    /// `external_chain`. `initiator_balance` is the initiator's balance on
    /// the token contract. On success the lock (initiator to this contract)
    /// and, when there is a fee and a collector, the fee payment are appended
    /// to `transfers`.
    pub fn initiate_outbound(
        &mut self,
        initiator: Address,
        stellar_asset: Address,
        amount: i128,
        external_chain: ExternalChain,
        external_address: Vec<u8>,
        now: u64,
        initiator_balance: i128,
        transfers: &mut Vec<TokenTransfer>,
    ) -> (r: Result<u64, BridgeError>)
        requires
            old(self).wf(),
            spec_request_arith_ok(old(self)@, stellar_asset, amount, external_chain, now, true),
        ensures
            final(self).wf(),
            r == (if old(self)@.stats.is_paused {
                Err(BridgeError::BridgePaused)
            } else if amount <= 0 {
                Err(BridgeError::AmountTooSmall)
            } else if spec_transfer_checks(old(self)@, stellar_asset, amount, external_chain, now) is Err {
                Err(spec_transfer_checks(old(self)@, stellar_asset, amount, external_chain, now)->Err_0)
            } else if initiator_balance < amount {
                Err(BridgeError::InsufficientBalance)
            } else {
                Ok((old(self)@.request_counter + 1) as u64)
            }),
            r is Err ==> final(self)@ == old(self)@ && final(transfers)@ == old(transfers)@,
            r is Ok ==> ({
                let v = old(self)@;
                let c = refreshed_config(v, external_chain, now);
                let req = spec_new_request(v, BridgeDirection::OutboundToExternal, initiator, stellar_asset,
                    amount, external_chain, external_address@, Seq::empty(), now);
                let ak = asset_key(stellar_asset, external_chain);
                let lock = TokenTransfer { token: stellar_asset, from: initiator, to: v.self_address, amount };
                &&& final(self)@ == (CrossChainBridgeView {
                    request_counter: req.request_id,
                    requests: v.requests.insert(request_key(req.request_id), req),
                    wrapped_assets: v.wrapped_assets.insert(ak, WrappedAssetView {
                        total_locked: (v.wrapped_assets[ak].total_locked + amount) as i128,
                        ..v.wrapped_assets[ak]
                    }),
                    chain_configs: v.chain_configs.insert(chain_key(external_chain), ChainConfig {
                        daily_volume: (c.daily_volume + amount) as i128,
                        ..c
                    }),
                    stats: spec_stats_after_request(v.stats, amount as int, req.fee_amount as int),
                    ..v
                })
                &&& final(transfers)@ == if req.fee_amount > 0 && v.fee_collector is Some {
                    old(transfers)@.push(lock).push(TokenTransfer {
                        token: stellar_asset,
                        from: v.self_address,
                        to: v.fee_collector.unwrap(),
                        amount: req.fee_amount,
                    })
                } else {
                    old(transfers)@.push(lock)
                }
            }),
    {
        if self.stats.is_paused {
            return Err(BridgeError::BridgePaused);
        }
        if amount <= 0 {
            return Err(BridgeError::AmountTooSmall);
        }
        let config = match self.transfer_checks(stellar_asset, amount, external_chain, now) {
            Err(e) => return Err(e),
            Ok(c) => c,
        };
        let (fee, net) = calculate_fee(amount, config.fee_bps);
        let required = match &self.validator_set {
            Some(set) => effective_required_approvals(
                set.validators.len() as u32,
                set.threshold,
                amount,
                config.max_transfer_amount,
            ),
            None => return Err(BridgeError::NotInitialized),
        };
        if initiator_balance < amount {
            return Err(BridgeError::InsufficientBalance);
        }
        let ghost v = self@;
        let request_id = self.request_counter + 1;
        let request = BridgeRequest {
            request_id,
            direction: BridgeDirection::OutboundToExternal,
            initiator,
            stellar_asset,
            amount,
            fee_amount: fee,
            net_amount: net,
            external_chain,
            external_address,
            external_tx_hash: Vec::new(),
            status: BridgeRequestStatus::Pending,
            created_at: now,
            expires_at: now + config.expiry_seconds,
            completed_at: 0,
            approval_count: 0,
            rejection_count: 0,
            required_approvals: required,
        };
        transfers.push(TokenTransfer { token: stellar_asset, from: initiator, to: self.self_address, amount });
        let ak = self.asset_index(stellar_asset, external_chain);
        let mut asset = match self.get_asset(ak) {
            Some(a) => copy_asset(a),
            None => return Err(BridgeError::AssetNotRegistered),
        };
        asset.total_locked = asset.total_locked + amount;
        let mut config = config;
        config.daily_volume = config.daily_volume + amount;
        let ghost asset_v = asset@;
        let ghost req_v = request@;
        assert(req_v == spec_new_request(v, BridgeDirection::OutboundToExternal, initiator, stellar_asset,
            amount, external_chain, req_v.external_address, Seq::empty(), now));
        self.wrapped_assets.set(ak, asset);
        self.chain_configs.set(chain_to_id(external_chain) as u128, config);
        self.requests.set(request_id as u128, request);
        self.request_counter = request_id;
        self.stats.total_requests = self.stats.total_requests + 1;
        self.stats.total_volume = self.stats.total_volume + amount;
        self.stats.total_fees_collected = self.stats.total_fees_collected + fee;
        if fee > 0 {
            match self.fee_collector {
                Some(collector) => {
                    transfers.push(TokenTransfer { token: stellar_asset, from: self.self_address, to: collector, amount: fee });
                },
                None => {},
            }
        }
        proof {
            assert(self@.wrapped_assets =~= v.wrapped_assets.insert(ak, asset_v));
            assert(self@.requests =~= v.requests.insert(request_key(request_id), req_v));
            assert(self@.stats =~= spec_stats_after_request(v.stats, amount as int, fee as int));
            assert(self@ =~= (CrossChainBridgeView {
                request_counter: request_id,
                requests: v.requests.insert(request_key(request_id), req_v),
                wrapped_assets: v.wrapped_assets.insert(ak, asset_v),
                chain_configs: v.chain_configs.insert(chain_key(external_chain), config),
                stats: spec_stats_after_request(v.stats, amount as int, fee as int),
                ..v
            }));
            crate::bridge::laws::law_new_request_keeps_tally(v, req_v, self@);
        }
        Ok(request_id)
    }
}

/// Whether `a` is in the current validator set.
pub open spec fn spec_is_validator(v: CrossChainBridgeView, a: Address) -> bool {
    v.validator_set matches Some(s) && s.validators.contains(a)
}

/// `x - y` saturated to the `i128` range.
pub open spec fn sat_sub_i128(x: int, y: int) -> i128 {
    if x - y < i128::MIN {
        i128::MIN
    } else if x - y > i128::MAX {
        i128::MAX
    } else {
        (x - y) as i128
    }
}

/// The contract's backing test after minting: healthy when nothing is minted,
/// else `locked * 10_000 / minted >= 10_000`, computed on the two's-complement
/// `u128` readings of the totals.
pub open spec fn spec_backing_ok(locked: int, minted: int) -> bool {
    minted == 0 || ((twos_complement_128(locked) * 10_000) as int) / (twos_complement_128(minted) as int) >= 10_000
}

/// Backing ratio in basis points the contract records after minting.
pub open spec fn spec_backing_bps(locked: int, minted: int) -> u32 {
    if minted > 0 {
        ((((twos_complement_128(locked) * 10_000) as int) / minted) % 0x1_0000_0000) as u32
    } else {
        10_000
    }
}

/// The request after a vote is counted.
pub open spec fn counted(r: BridgeRequestView, approved: bool) -> BridgeRequestView {
    if approved {
        BridgeRequestView { approval_count: (r.approval_count + 1) as u32, ..r }
    } else {
        BridgeRequestView { rejection_count: (r.rejection_count + 1) as u32, ..r }
    }
}

/// Approvals still possible after `votes_cast` votes in a set of `count`.
pub open spec fn remaining_votes(count: int, votes_cast: int) -> int {
    if count >= votes_cast {
        count - votes_cast
    } else {
        0
    }
}

/// State after locked tokens of an outbound request are released back: the
/// asset's locked total drops by the full amount (saturating).
pub open spec fn spec_unlock(v: CrossChainBridgeView, r: BridgeRequestView) -> Map<u128, WrappedAssetView> {
    let ak = asset_key(r.stellar_asset, r.external_chain);
    if v.wrapped_assets.contains_key(ak) {
        v.wrapped_assets.insert(ak, WrappedAssetView {
            total_locked: sat_sub_i128(v.wrapped_assets[ak].total_locked as int, r.amount as int),
            ..v.wrapped_assets[ak]
        })
    } else {
        v.wrapped_assets
    }
}

/// Refund of an outbound request's net amount to its initiator.
pub open spec fn spec_refund(v: CrossChainBridgeView, r: BridgeRequestView, t: Seq<TokenTransfer>) -> Seq<TokenTransfer> {
    if r.net_amount > 0 {
        t.push(TokenTransfer { token: r.stellar_asset, from: v.self_address, to: r.initiator, amount: r.net_amount })
    } else {
        t
    }
}

/// Result of a validator vote, in the order of the contract's checks.
pub open spec fn spec_vote_result(
    v: CrossChainBridgeView,
    validator: Address,
    request_id: u64,
    approved: bool,
    signature: Seq<u8>,
    now: u64,
) -> Result<BridgeRequestStatus, BridgeError> {
    let k = request_key(request_id);
    let req = v.requests[k];
    let c = counted(req, approved);
    let count = v.validator_set.unwrap().validators.len() as int;
    let ak = asset_key(req.stellar_asset, req.external_chain);
    if v.stats.is_paused {
        Err(BridgeError::BridgePaused)
    } else if !spec_is_validator(v, validator) {
        Err(BridgeError::NotValidator)
    } else if !v.requests.contains_key(k) {
        Err(BridgeError::RequestNotFound)
    } else if req.status != BridgeRequestStatus::Pending {
        Err(BridgeError::RequestAlreadyProcessed)
    } else if now > req.expires_at {
        Ok(BridgeRequestStatus::Expired)
    } else if v.votes.contains_key(vote_key(request_id, validator)) {
        Err(BridgeError::AlreadyVoted)
    } else if !v.validator_pubkeys.contains_key(spec_addr_key(validator)) {
        Err(BridgeError::NotValidator)
    } else if !v.asset_hashes.contains_key(spec_addr_key(req.stellar_asset)) {
        Err(BridgeError::AssetNotRegistered)
    } else if !spec_ed25519_verifies(
        v.validator_pubkeys[spec_addr_key(validator)],
        spec_signed_message(
            req.request_id,
            req.net_amount,
            req.external_chain,
            v.asset_hashes[spec_addr_key(req.stellar_asset)],
            req.external_address,
        ),
        signature,
    ) {
        Err(BridgeError::InvalidSignature)
    } else if c.approval_count >= c.required_approvals {
        if req.direction == BridgeDirection::InboundFromExternal && !v.wrapped_assets.contains_key(ak) {
            Err(BridgeError::AssetNotRegistered)
        } else if req.direction == BridgeDirection::InboundFromExternal && !spec_backing_ok(
            v.wrapped_assets[ak].total_locked as int,
            v.wrapped_assets[ak].total_minted + req.net_amount,
        ) {
            Err(BridgeError::BackingRatioBroken)
        } else {
            Ok(BridgeRequestStatus::Completed)
        }
    } else if c.approval_count + remaining_votes(count, c.approval_count + c.rejection_count) < c.required_approvals {
        Ok(BridgeRequestStatus::Rejected)
    } else {
        Ok(BridgeRequestStatus::Pending)
    }
}

/// Where the contract's arithmetic would overflow (and trap) on a vote.
pub open spec fn spec_vote_arith_ok(
    v: CrossChainBridgeView,
    validator: Address,
    request_id: u64,
    approved: bool,
) -> bool {
    let k = request_key(request_id);
    let req = v.requests[k];
    let c = counted(req, approved);
    let count = v.validator_set.unwrap().validators.len() as int;
    let ak = asset_key(req.stellar_asset, req.external_chain);
    !v.requests.contains_key(k) || !spec_is_validator(v, validator) || (
    (approved ==> req.approval_count < u32::MAX) && (!approved ==> req.rejection_count < u32::MAX)
        && v.stats.total_completed < u64::MAX && v.stats.total_rejected < u64::MAX
        && c.approval_count + c.rejection_count <= u32::MAX
        && c.approval_count + remaining_votes(count, c.approval_count + c.rejection_count) <= u32::MAX
        && ((req.direction == BridgeDirection::InboundFromExternal && v.wrapped_assets.contains_key(ak))
            ==> (i128::MIN <= v.wrapped_assets[ak].total_minted + req.net_amount <= i128::MAX
                && twos_complement_128(v.wrapped_assets[ak].total_locked as int) * 10_000 <= u128::MAX)))
}

impl CrossChainBridgeContract {
    /// Whether `a` is in the current validator set.
    pub fn is_validator(&self, a: Address) -> (b: bool)
        ensures
            b == spec_is_validator(self@, a),
    {
        match &self.validator_set {
            None => false,
            Some(set) => contains_addr(&set.validators, a),
        }
    }

    /// Submit proof that tokens were locked on `external_chain` (transaction
    /// `external_tx_hash`); validators then vote on the claim.
    pub fn initiate_inbound(
        &mut self,
        initiator: Address,
        stellar_asset: Address,
        amount: i128,
        external_chain: ExternalChain,
        external_address: Vec<u8>,
        external_tx_hash: Vec<u8>,
        now: u64,
    ) -> (r: Result<u64, BridgeError>)
        requires
            old(self).wf(),
            old(self)@.processed_txs.contains(external_tx_hash@)
                || spec_request_arith_ok(old(self)@, stellar_asset, amount, external_chain, now, false),
        ensures
            final(self).wf(),
            r == (if old(self)@.stats.is_paused {
                Err(BridgeError::BridgePaused)
            } else if amount <= 0 {
                Err(BridgeError::AmountTooSmall)
            } else if old(self)@.processed_txs.contains(external_tx_hash@) {
                Err(BridgeError::DuplicateExternalTx)
            } else if spec_transfer_checks(old(self)@, stellar_asset, amount, external_chain, now) is Err {
                Err(spec_transfer_checks(old(self)@, stellar_asset, amount, external_chain, now)->Err_0)
            } else {
                Ok((old(self)@.request_counter + 1) as u64)
            }),
            r is Err ==> final(self)@ == old(self)@,
            r is Ok ==> ({
                let v = old(self)@;
                let c = refreshed_config(v, external_chain, now);
                let req = spec_new_request(v, BridgeDirection::InboundFromExternal, initiator, stellar_asset,
                    amount, external_chain, external_address@, external_tx_hash@, now);
                final(self)@ == (CrossChainBridgeView {
                    request_counter: req.request_id,
                    requests: v.requests.insert(request_key(req.request_id), req),
                    chain_configs: v.chain_configs.insert(chain_key(external_chain), ChainConfig {
                        daily_volume: (c.daily_volume + amount) as i128,
                        ..c
                    }),
                    stats: spec_stats_after_request(v.stats, amount as int, req.fee_amount as int),
                    ..v
                })
            }),
    {
        if self.stats.is_paused {
            return Err(BridgeError::BridgePaused);
        }
        if amount <= 0 {
            return Err(BridgeError::AmountTooSmall);
        }
        if self.is_external_tx_processed(&external_tx_hash) {
            return Err(BridgeError::DuplicateExternalTx);
        }
        let config = match self.transfer_checks(stellar_asset, amount, external_chain, now) {
            Err(e) => return Err(e),
            Ok(c) => c,
        };
        let (fee, net) = calculate_fee(amount, config.fee_bps);
        let required = match &self.validator_set {
            Some(set) => effective_required_approvals(
                set.validators.len() as u32,
                set.threshold,
                amount,
                config.max_transfer_amount,
            ),
            None => return Err(BridgeError::NotInitialized),
        };
        let ghost v = self@;
        let request_id = self.request_counter + 1;
        let request = BridgeRequest {
            request_id,
            direction: BridgeDirection::InboundFromExternal,
            initiator,
            stellar_asset,
            amount,
            fee_amount: fee,
            net_amount: net,
            external_chain,
            external_address,
            external_tx_hash,
            status: BridgeRequestStatus::Pending,
            created_at: now,
            expires_at: now + config.expiry_seconds,
            completed_at: 0,
            approval_count: 0,
            rejection_count: 0,
            required_approvals: required,
        };
        let mut config = config;
        config.daily_volume = config.daily_volume + amount;
        let ghost req_v = request@;
        self.chain_configs.set(chain_to_id(external_chain) as u128, config);
        self.requests.set(request_id as u128, request);
        self.request_counter = request_id;
        self.stats.total_requests = self.stats.total_requests + 1;
        self.stats.total_volume = self.stats.total_volume + amount;
        self.stats.total_fees_collected = self.stats.total_fees_collected + fee;
        proof {
            assert(self@.requests =~= v.requests.insert(request_key(request_id), req_v));
            assert(self@.stats =~= spec_stats_after_request(v.stats, amount as int, fee as int));
            assert(self@ =~= (CrossChainBridgeView {
                request_counter: request_id,
                requests: v.requests.insert(request_key(request_id), req_v),
                chain_configs: v.chain_configs.insert(chain_key(external_chain), config),
                stats: spec_stats_after_request(v.stats, amount as int, fee as int),
                ..v
            }));
            crate::bridge::laws::law_new_request_keeps_tally(v, req_v, self@);
        }
        Ok(request_id)
    }
}

/// A request with its status replaced.
pub open spec fn with_status(r: BridgeRequestView, status: BridgeRequestStatus) -> BridgeRequestView {
    BridgeRequestView { status, ..r }
}

/// State after an expired request is marked and, if outbound, unlocked.
pub open spec fn spec_expired_state(v: CrossChainBridgeView, req: BridgeRequestView) -> CrossChainBridgeView {
    CrossChainBridgeView {
        requests: v.requests.insert(request_key(req.request_id), with_status(req, BridgeRequestStatus::Expired)),
        wrapped_assets: if req.direction == BridgeDirection::OutboundToExternal {
            spec_unlock(v, req)
        } else {
            v.wrapped_assets
        },
        ..v
    }
}

/// State after a counted vote completes its request.
pub open spec fn spec_completed_state(
    v: CrossChainBridgeView,
    c: BridgeRequestView,
    vote: ValidatorSignatureView,
    now: u64,
) -> CrossChainBridgeView {
    let ak = asset_key(c.stellar_asset, c.external_chain);
    let inbound = c.direction == BridgeDirection::InboundFromExternal;
    let minted = v.wrapped_assets[ak].total_minted + c.net_amount;
    CrossChainBridgeView {
        votes: v.votes.insert(vote_key(c.request_id, vote.validator), vote),
        requests: v.requests.insert(
            request_key(c.request_id),
            BridgeRequestView { status: BridgeRequestStatus::Completed, completed_at: now, ..c },
        ),
        processed_txs: if inbound { v.processed_txs.push(c.external_tx_hash) } else { v.processed_txs },
        wrapped_assets: if inbound {
            v.wrapped_assets.insert(ak, WrappedAssetView {
                total_minted: minted as i128,
                backing_ratio_bps: spec_backing_bps(v.wrapped_assets[ak].total_locked as int, minted),
                ..v.wrapped_assets[ak]
            })
        } else {
            v.wrapped_assets
        },
        stats: BridgeStatsView { total_completed: (v.stats.total_completed + 1) as u64, ..v.stats },
        ..v
    }
}

/// State after a counted vote makes its request unreachable.
pub open spec fn spec_rejected_state(
    v: CrossChainBridgeView,
    c: BridgeRequestView,
    vote: ValidatorSignatureView,
) -> CrossChainBridgeView {
    CrossChainBridgeView {
        votes: v.votes.insert(vote_key(c.request_id, vote.validator), vote),
        requests: v.requests.insert(request_key(c.request_id), with_status(c, BridgeRequestStatus::Rejected)),
        wrapped_assets: if c.direction == BridgeDirection::OutboundToExternal {
            spec_unlock(v, c)
        } else {
            v.wrapped_assets
        },
        stats: BridgeStatsView { total_rejected: (v.stats.total_rejected + 1) as u64, ..v.stats },
        ..v
    }
}

/// State after a counted vote that decides nothing yet.
pub open spec fn spec_pending_state(
    v: CrossChainBridgeView,
    c: BridgeRequestView,
    vote: ValidatorSignatureView,
) -> CrossChainBridgeView {
    CrossChainBridgeView {
        votes: v.votes.insert(vote_key(c.request_id, vote.validator), vote),
        requests: v.requests.insert(request_key(c.request_id), c),
        ..v
    }
}

pub fn to_u128(x: i128) -> (r: u128)
    ensures
        r == twos_complement_128(x as int),
{
    if x >= 0 {
        x as u128
    } else {
        ((x + i128::MAX) + 1) as u128 + 0x8000_0000_0000_0000_0000_0000_0000_0000
    }
}

fn backing_ok(locked: i128, minted: i128) -> (b: bool)
    requires
        twos_complement_128(locked as int) * 10_000 <= u128::MAX,
    ensures
        b == spec_backing_ok(locked as int, minted as int),
{
    if minted == 0 {
        return true;
    }
    let l = to_u128(locked);
    let m = to_u128(minted);
    (l * 10_000) / m >= 10_000
}

fn backing_bps(locked: i128, minted: i128) -> (r: u32)
    requires
        twos_complement_128(locked as int) * 10_000 <= u128::MAX,
    ensures
        r == spec_backing_bps(locked as int, minted as int),
{
    if minted > 0 {
        let l = to_u128(locked);
        let v: u128 = (l * 10_000) / (minted as u128);
        (v % 0x1_0000_0000) as u32
    } else {
        10_000
    }
}

fn sat_sub(x: i128, y: i128) -> (r: i128)
    ensures
        r == sat_sub_i128(x as int, y as int),
{
    if y >= 0 {
        if x < i128::MIN + y {
            i128::MIN
        } else {
            x - y
        }
    } else {
        if x > i128::MAX + y {
            i128::MAX
        } else {
            x - y
        }
    }
}

fn copy_signature(sig: &[u8; 64]) -> (r: [u8; 64])
    ensures
        r@ == sig@,
{
    *sig
}

impl CrossChainBridgeContract {
    /// Release the locked tokens of an outbound request back to its
    /// initiator: the net amount is refunded (the fee stays paid) and the
    /// asset's locked total drops by the full amount.
    fn return_locked_tokens(&mut self, request: &BridgeRequest, transfers: &mut Vec<TokenTransfer>)
        requires
            old(self).wf_stores(),
        ensures
            final(self).wf_stores(),
            final(self)@ == (CrossChainBridgeView { wrapped_assets: spec_unlock(old(self)@, request@), ..old(self)@ }),
            final(transfers)@ == spec_refund(old(self)@, request@, old(transfers)@),
    {
        if request.net_amount > 0 {
            transfers.push(TokenTransfer {
                token: request.stellar_asset,
                from: self.self_address,
                to: request.initiator,
                amount: request.net_amount,
            });
        }
        let ak = self.asset_index(request.stellar_asset, request.external_chain);
        let ghost v = self@;
        let mut asset = match self.get_asset(ak) {
            Some(a) => copy_asset(a),
            None => {
                assert(self@ =~= (CrossChainBridgeView { wrapped_assets: spec_unlock(v, request@), ..v }));
                return;
            },
        };
        asset.total_locked = sat_sub(asset.total_locked, request.amount);
        let ghost av = asset@;
        self.wrapped_assets.set(ak, asset);
        assert(self@.wrapped_assets =~= spec_unlock(v, request@));
        assert(self@ =~= (CrossChainBridgeView { wrapped_assets: spec_unlock(v, request@), ..v }));
    }

    fn record_vote(&mut self, validator: Address, request_id: u64, approved: bool, signature: &[u8; 64], now: u64)
        requires
            old(self).wf_stores(),
        ensures
            final(self).wf_stores(),
            final(self)@ == (CrossChainBridgeView {
                votes: old(self)@.votes.insert(vote_key(request_id, validator), ValidatorSignatureView {
                    validator,
                    request_id,
                    approved,
                    signed_at: now,
                    signature: signature@,
                }),
                ..old(self)@
            }),
    {
        let sig = ValidatorSignature { validator, request_id, approved, signed_at: now, signature: copy_signature(signature) };
        let ghost sv = sig@;
        self.votes.set(pair_key(request_id, validator), sig);
        assert(self@.votes =~= old(self)@.votes.insert(vote_key(request_id, validator), sv));
        assert(self@ =~= (CrossChainBridgeView { votes: old(self)@.votes.insert(vote_key(request_id, validator), sv), ..old(self)@ }));
    }

    fn store_request(&mut self, request: BridgeRequest)
        requires
            old(self).wf_stores(),
        ensures
            final(self).wf_stores(),
            final(self)@ == (CrossChainBridgeView {
                requests: old(self)@.requests.insert(request_key(request.request_id), request@),
                ..old(self)@
            }),
    {
        let ghost rv = request@;
        self.requests.set(request.request_id as u128, request);
        assert(self@.requests =~= old(self)@.requests.insert(request_key(rv.request_id), rv));
        assert(self@ =~= (CrossChainBridgeView { requests: old(self)@.requests.insert(request_key(rv.request_id), rv), ..old(self)@ }));
    }

    /// A validator's signed vote on a pending request. Reaching the required
    /// approvals completes the request (inbound claims are paid to the
    /// initiator, keeping every minted token backed); once the remaining
    /// validators can no longer reach it the request is rejected and an
    /// outbound lock returned; a request past its expiry is marked expired
    /// (and unlocked) instead of counting the vote.
    #[verifier::rlimit(40)]
    pub fn submit_validator_vote(
        &mut self,
        validator: Address,
        request_id: u64,
        approved: bool,
        signature: [u8; 64],
        now: u64,
        transfers: &mut Vec<TokenTransfer>,
    ) -> (r: Result<BridgeRequestStatus, BridgeError>)
        requires
            old(self).wf(),
            spec_vote_arith_ok(old(self)@, validator, request_id, approved),
        ensures
            final(self).wf(),
            r == spec_vote_result(old(self)@, validator, request_id, approved, signature@, now),
            r is Err ==> final(self)@ == old(self)@ && final(transfers)@ == old(transfers)@,
            ({
                let v = old(self)@;
                let req = v.requests[request_key(request_id)];
                let c = counted(req, approved);
                let vote = ValidatorSignatureView { validator, request_id, approved, signed_at: now, signature: signature@ };
                let outbound = req.direction == BridgeDirection::OutboundToExternal;
                &&& r == Ok::<BridgeRequestStatus, BridgeError>(BridgeRequestStatus::Expired) ==> final(self)@ == spec_expired_state(v, req)
                    && final(transfers)@ == if outbound { spec_refund(v, req, old(transfers)@) } else { old(transfers)@ }
                &&& r == Ok::<BridgeRequestStatus, BridgeError>(BridgeRequestStatus::Completed) ==> final(self)@ == spec_completed_state(v, c, vote, now)
                    && final(transfers)@ == if outbound {
                        old(transfers)@
                    } else {
                        old(transfers)@.push(TokenTransfer {
                            token: req.stellar_asset,
                            from: v.self_address,
                            to: req.initiator,
                            amount: req.net_amount,
                        })
                    }
                &&& r == Ok::<BridgeRequestStatus, BridgeError>(BridgeRequestStatus::Rejected) ==> final(self)@ == spec_rejected_state(v, c, vote)
                    && final(transfers)@ == if outbound { spec_refund(v, req, old(transfers)@) } else { old(transfers)@ }
                &&& r == Ok::<BridgeRequestStatus, BridgeError>(BridgeRequestStatus::Pending) ==> final(self)@ == spec_pending_state(v, c, vote)
                    && final(transfers)@ == old(transfers)@
            }),
    {
        if self.stats.is_paused {
            return Err(BridgeError::BridgePaused);
        }
        if !self.is_validator(validator) {
            return Err(BridgeError::NotValidator);
        }
        let k = request_id as u128;
        let req = match self.requests.get(k) {
            None => return Err(BridgeError::RequestNotFound),
            Some(r) => copy_request(r),
        };
        let ghost v = self@;
        let ghost rv = req@;
        assert(rv == v.requests[request_key(request_id)]);
        if req.status != BridgeRequestStatus::Pending {
            return Err(BridgeError::RequestAlreadyProcessed);
        }
        if now > req.expires_at {
            let mut req = req;
            req.status = BridgeRequestStatus::Expired;
            if req.direction == BridgeDirection::OutboundToExternal {
                self.return_locked_tokens(&req, transfers);
            }
            self.store_request(req);
            proof {
                assert(self@ =~= spec_expired_state(v, rv));
                crate::bridge::laws::law_status_change_keeps_tally(
                    v,
                    request_id,
                    with_status(rv, BridgeRequestStatus::Expired),
                    self@,
                );
            }
            return Ok(BridgeRequestStatus::Expired);
        }
        if self.votes.contains(pair_key(request_id, validator)) {
            return Err(BridgeError::AlreadyVoted);
        }
        let pk = match get_validator_pubkey(&self.validator_pubkeys, validator) {
            None => return Err(BridgeError::NotValidator),
            Some(p) => p,
        };
        let asset_hash = match self.asset_hashes.get(addr_key(req.stellar_asset)) {
            None => return Err(BridgeError::AssetNotRegistered),
            Some(h) => *h,
        };
        match verify_validator_signature(&pk, &req, &asset_hash, &signature) {
            Err(e) => return Err(e),
            Ok(()) => {},
        }
        let mut req = req;
        if approved {
            req.approval_count = req.approval_count + 1;
        } else {
            req.rejection_count = req.rejection_count + 1;
        }
        let ghost cv = req@;
        assert(cv == counted(rv, approved));
        let count: u32 = match &self.validator_set {
            Some(set) => set.validators.len() as u32,
            None => return Err(BridgeError::NotInitialized),
        };
        if req.approval_count >= req.required_approvals {
            if req.direction == BridgeDirection::InboundFromExternal {
                let ak = self.asset_index(req.stellar_asset, req.external_chain);
                let mut asset = match self.get_asset(ak) {
                    None => return Err(BridgeError::AssetNotRegistered),
                    Some(a) => copy_asset(a),
                };
                asset.total_minted = asset.total_minted + req.net_amount;
                if !backing_ok(asset.total_locked, asset.total_minted) {
                    return Err(BridgeError::BackingRatioBroken);
                }
                asset.backing_ratio_bps = backing_bps(asset.total_locked, asset.total_minted);
                let ghost av = asset@;
                self.processed_txs.push(copy_bytes(&req.external_tx_hash));
                self.wrapped_assets.set(ak, asset);
                transfers.push(TokenTransfer {
                    token: req.stellar_asset,
                    from: self.self_address,
                    to: req.initiator,
                    amount: req.net_amount,
                });
                assert(self@.wrapped_assets =~= v.wrapped_assets.insert(ak, av));
                assert(self@.processed_txs =~= v.processed_txs.push(rv.external_tx_hash));
            }
            let ghost mid = self@;
            self.record_vote(validator, request_id, approved, &signature, now);
            req.status = BridgeRequestStatus::Completed;
            req.completed_at = now;
            self.store_request(req);
            self.stats.total_completed = self.stats.total_completed + 1;
            proof {
                let vote = ValidatorSignatureView { validator, request_id, approved, signed_at: now, signature: signature@ };
                assert(self@.stats =~= BridgeStatsView { total_completed: (v.stats.total_completed + 1) as u64, ..v.stats });
                assert(self@ =~= spec_completed_state(v, cv, vote, now));
                crate::bridge::laws::lemma_counted_vote_keeps_tally(
                    v,
                    request_id,
                    validator,
                    vote,
                    self@.requests[request_key(request_id)],
                    self@,
                );
            }
            return Ok(BridgeRequestStatus::Completed);
        }
        let votes_cast = req.approval_count + req.rejection_count;
        let remaining = if count >= votes_cast { count - votes_cast } else { 0 };
        if req.approval_count + remaining < req.required_approvals {
            self.record_vote(validator, request_id, approved, &signature, now);
            req.status = BridgeRequestStatus::Rejected;
            if req.direction == BridgeDirection::OutboundToExternal {
                self.return_locked_tokens(&req, transfers);
            }
            self.store_request(req);
            self.stats.total_rejected = self.stats.total_rejected + 1;
            proof {
                let vote = ValidatorSignatureView { validator, request_id, approved, signed_at: now, signature: signature@ };
                assert(self@.stats =~= BridgeStatsView { total_rejected: (v.stats.total_rejected + 1) as u64, ..v.stats });
                assert(self@ =~= spec_rejected_state(v, cv, vote));
                crate::bridge::laws::lemma_counted_vote_keeps_tally(
                    v,
                    request_id,
                    validator,
                    vote,
                    self@.requests[request_key(request_id)],
                    self@,
                );
            }
            return Ok(BridgeRequestStatus::Rejected);
        }
        self.record_vote(validator, request_id, approved, &signature, now);
        self.store_request(req);
        proof {
            let vote = ValidatorSignatureView { validator, request_id, approved, signed_at: now, signature: signature@ };
            assert(self@ =~= spec_pending_state(v, cv, vote));
            crate::bridge::laws::lemma_counted_vote_keeps_tally(v, request_id, validator, vote, cv, self@);
        }
        Ok(BridgeRequestStatus::Pending)
    }
}

impl CrossChainBridgeContract {
    /// Enable or disable an already-registered asset.
    pub fn set_asset_active(
        &mut self,
        admin: Address,
        stellar_asset: Address,
        external_chain: ExternalChain,
        active: bool,
    ) -> (r: Result<(), BridgeError>)
        requires
            old(self).wf(),
        ensures
            final(self).wf(),
            r == (if spec_require_admin(old(self)@.admin, admin) is Err {
                spec_require_admin(old(self)@.admin, admin)
            } else if !old(self)@.wrapped_assets.contains_key(asset_key(stellar_asset, external_chain)) {
                Err(BridgeError::AssetNotRegistered)
            } else {
                Ok(())
            }),
            r is Err ==> final(self)@ == old(self)@,
            r is Ok ==> final(self)@ == (CrossChainBridgeView {
                wrapped_assets: old(self)@.wrapped_assets.insert(
                    asset_key(stellar_asset, external_chain),
                    WrappedAssetView {
                        is_active: active,
                        ..old(self)@.wrapped_assets[asset_key(stellar_asset, external_chain)]
                    },
                ),
                ..old(self)@
            }),
    {
        match self.require_admin(admin) {
            Err(e) => return Err(e),
            Ok(()) => {},
        }
        let ak = self.asset_index(stellar_asset, external_chain);
        let mut asset = match self.get_asset(ak) {
            None => return Err(BridgeError::AssetNotRegistered),
            Some(a) => copy_asset(a),
        };
        asset.is_active = active;
        let ghost av = asset@;
        self.wrapped_assets.set(ak, asset);
        assert(self@.wrapped_assets =~= old(self)@.wrapped_assets.insert(ak, av));
        assert(self@ =~= (CrossChainBridgeView { wrapped_assets: old(self)@.wrapped_assets.insert(ak, av), ..old(self)@ }));
        Ok(())
    }

    /// Add or update a chain's configuration. The chain becomes active; an
    /// existing configuration keeps its daily volume and window.
    pub fn configure_chain(
        &mut self,
        admin: Address,
        chain: ExternalChain,
        min_confirmations: u32,
        max_transfer_amount: i128,
        daily_limit: i128,
        fee_bps: u32,
        expiry_seconds: u64,
        now: u64,
    ) -> (r: Result<(), BridgeError>)
        requires
            old(self).wf(),
        ensures
            final(self).wf(),
            r == spec_require_admin(old(self)@.admin, admin),
            r is Err ==> final(self)@ == old(self)@,
            r is Ok ==> final(self)@ == (CrossChainBridgeView {
                chain_configs: old(self)@.chain_configs.insert(chain_key(chain), ChainConfig {
                    chain,
                    is_active: true,
                    min_confirmations,
                    max_transfer_amount,
                    daily_limit,
                    daily_volume: if old(self)@.chain_configs.contains_key(chain_key(chain)) {
                        old(self)@.chain_configs[chain_key(chain)].daily_volume
                    } else {
                        0
                    },
                    window_start: if old(self)@.chain_configs.contains_key(chain_key(chain)) {
                        old(self)@.chain_configs[chain_key(chain)].window_start
                    } else {
                        now
                    },
                    fee_bps,
                    expiry_seconds,
                }),
                ..old(self)@
            }),
    {
        match self.require_admin(admin) {
            Err(e) => return Err(e),
            Ok(()) => {},
        }
        let existing = self.chain_config(chain);
        let config = ChainConfig {
            chain,
            is_active: true,
            min_confirmations,
            max_transfer_amount,
            daily_limit,
            daily_volume: match existing {
                Some(c) => c.daily_volume,
                None => 0,
            },
            window_start: match existing {
                Some(c) => c.window_start,
                None => now,
            },
            fee_bps,
            expiry_seconds,
        };
        self.chain_configs.set(chain_to_id(chain) as u128, config);
        assert(self@ =~= (CrossChainBridgeView {
            chain_configs: old(self)@.chain_configs.insert(chain_key(chain), config),
            ..old(self)@
        }));
        Ok(())
    }

    /// Enable or disable a configured chain.
    pub fn set_chain_active(&mut self, admin: Address, chain: ExternalChain, active: bool) -> (r: Result<(), BridgeError>)
        requires
            old(self).wf(),
        ensures
            final(self).wf(),
            r == (if spec_require_admin(old(self)@.admin, admin) is Err {
                spec_require_admin(old(self)@.admin, admin)
            } else if !old(self)@.chain_configs.contains_key(chain_key(chain)) {
                Err(BridgeError::ChainNotSupported)
            } else {
                Ok(())
            }),
            r is Err ==> final(self)@ == old(self)@,
            r is Ok ==> final(self)@ == (CrossChainBridgeView {
                chain_configs: old(self)@.chain_configs.insert(
                    chain_key(chain),
                    ChainConfig { is_active: active, ..old(self)@.chain_configs[chain_key(chain)] },
                ),
                ..old(self)@
            }),
    {
        match self.require_admin(admin) {
            Err(e) => return Err(e),
            Ok(()) => {},
        }
        let mut config = match self.chain_config(chain) {
            None => return Err(BridgeError::ChainNotSupported),
            Some(c) => c,
        };
        config.is_active = active;
        self.chain_configs.set(chain_to_id(chain) as u128, config);
        assert(self@ =~= (CrossChainBridgeView {
            chain_configs: old(self)@.chain_configs.insert(chain_key(chain), config),
            ..old(self)@
        }));
        Ok(())
    }

    /// Cancel a pending request; an outbound request's locked tokens are
    /// returned to the initiator.
    pub fn cancel_request(
        &mut self,
        initiator: Address,
        request_id: u64,
        transfers: &mut Vec<TokenTransfer>,
    ) -> (r: Result<(), BridgeError>)
        requires
            old(self).wf(),
        ensures
            final(self).wf(),
            ({
                let v = old(self)@;
                let req = v.requests[request_key(request_id)];
                &&& r == (if !v.requests.contains_key(request_key(request_id)) {
                    Err(BridgeError::RequestNotFound)
                } else if req.initiator != initiator {
                    Err(BridgeError::Unauthorized)
                } else if req.status != BridgeRequestStatus::Pending {
                    Err(BridgeError::RequestNotPending)
                } else {
                    Ok(())
                })
                &&& r is Err ==> final(self)@ == v && final(transfers)@ == old(transfers)@
                &&& r is Ok ==> final(self)@ == (CrossChainBridgeView {
                    requests: v.requests.insert(request_key(request_id), with_status(req, BridgeRequestStatus::Cancelled)),
                    wrapped_assets: if req.direction == BridgeDirection::OutboundToExternal {
                        spec_unlock(v, req)
                    } else {
                        v.wrapped_assets
                    },
                    ..v
                }) && final(transfers)@ == if req.direction == BridgeDirection::OutboundToExternal {
                    spec_refund(v, req, old(transfers)@)
                } else {
                    old(transfers)@
                }
            }),
    {
        let ghost v = self@;
        let mut req = match self.requests.get(request_id as u128) {
            None => return Err(BridgeError::RequestNotFound),
            Some(r) => copy_request(r),
        };
        if req.initiator != initiator {
            return Err(BridgeError::Unauthorized);
        }
        if req.status != BridgeRequestStatus::Pending {
            return Err(BridgeError::RequestNotPending);
        }
        req.status = BridgeRequestStatus::Cancelled;
        if req.direction == BridgeDirection::OutboundToExternal {
            self.return_locked_tokens(&req, transfers);
        }
        self.store_request(req);
        proof {
            let rv = v.requests[request_key(request_id)];
            crate::bridge::laws::law_status_change_keeps_tally(
                v,
                request_id,
                with_status(rv, BridgeRequestStatus::Cancelled),
                self@,
            );
            assert(self@ =~= (CrossChainBridgeView {
                requests: v.requests.insert(request_key(request_id), with_status(rv, BridgeRequestStatus::Cancelled)),
                wrapped_assets: if rv.direction == BridgeDirection::OutboundToExternal {
                    spec_unlock(v, rv)
                } else {
                    v.wrapped_assets
                },
                ..v
            }));
        }
        Ok(())
    }

    /// Pause or unpause all bridge operations.
    pub fn set_pause(&mut self, admin: Address, paused: bool, reason: String) -> (r: Result<(), BridgeError>)
        requires
            old(self).wf(),
        ensures
            final(self).wf(),
            r == spec_require_admin(old(self)@.admin, admin),
            r is Err ==> final(self)@ == old(self)@,
            r is Ok ==> final(self)@ == (CrossChainBridgeView {
                stats: BridgeStatsView { is_paused: paused, pause_reason: reason@, ..old(self)@.stats },
                ..old(self)@
            }),
    {
        match self.require_admin(admin) {
            Err(e) => return Err(e),
            Ok(()) => {},
        }
        self.stats.is_paused = paused;
        self.stats.pause_reason = reason;
        assert(self@ =~= (CrossChainBridgeView {
            stats: BridgeStatsView { is_paused: paused, pause_reason: reason@, ..old(self)@.stats },
            ..old(self)@
        }));
        Ok(())
    }

    /// Propose replacing the whole validator set; it can be applied once the
    /// 48-hour timelock has passed. Returns the time it becomes applicable.
    pub fn propose_validator_upgrade(
        &mut self,
        admin: Address,
        new_validators: Vec<Address>,
        new_threshold: u32,
        new_pubkeys: Vec<[u8; 32]>,
        now: u64,
    ) -> (r: Result<u64, BridgeError>)
        requires
            old(self).wf(),
            2 * new_validators@.len() <= u32::MAX,
            spec_require_admin(old(self)@.admin, admin) is Ok && spec_validate_threshold(
                new_threshold as int,
                new_validators@.len() as int,
            ) is Ok && new_pubkeys@.len() == new_validators@.len() ==> now + VALIDATOR_UPGRADE_TIMELOCK_SECONDS <= u64::MAX,
        ensures
            final(self).wf(),
            r == (if spec_require_admin(old(self)@.admin, admin) is Err {
                Err(spec_require_admin(old(self)@.admin, admin)->Err_0)
            } else if spec_validate_threshold(new_threshold as int, new_validators@.len() as int) is Err {
                Err(spec_validate_threshold(new_threshold as int, new_validators@.len() as int)->Err_0)
            } else if new_pubkeys@.len() != new_validators@.len() {
                Err(BridgeError::NotValidator)
            } else {
                Ok((now + VALIDATOR_UPGRADE_TIMELOCK_SECONDS) as u64)
            }),
            r is Err ==> final(self)@ == old(self)@,
            r matches Ok(t) ==> final(self)@ == (CrossChainBridgeView {
                pending_upgrade: Some(PendingValidatorUpgradeView {
                    proposed_validators: new_validators@,
                    proposed_threshold: new_threshold,
                    proposed_at: now,
                    effective_at: t,
                    proposer: admin,
                }),
                validator_pubkeys: spec_register_keys(
                    old(self)@.validator_pubkeys,
                    new_validators@,
                    new_pubkeys@,
                    new_validators@.len() as int,
                ),
                ..old(self)@
            }),
    {
        match self.require_admin(admin) {
            Err(e) => return Err(e),
            Ok(()) => {},
        }
        match validate_threshold(new_threshold, new_validators.len() as u32) {
            Err(e) => return Err(e),
            Ok(()) => {},
        }
        if new_pubkeys.len() != new_validators.len() {
            return Err(BridgeError::NotValidator);
        }
        let effective_at = now + VALIDATOR_UPGRADE_TIMELOCK_SECONDS;
        self.register_pubkeys(&new_validators, &new_pubkeys);
        self.pending_upgrade = Some(PendingValidatorUpgrade {
            proposed_validators: new_validators,
            proposed_threshold: new_threshold,
            proposed_at: now,
            effective_at,
            proposer: admin,
        });
        Ok(effective_at)
    }

    /// Apply the pending validator-set upgrade once its timelock has passed.
    /// Returns the new set version.
    pub fn apply_validator_upgrade(&mut self, admin: Address, now: u64) -> (r: Result<u32, BridgeError>)
        requires
            old(self).wf(),
            old(self)@.validator_set matches Some(s) ==> s.version < u32::MAX,
        ensures
            final(self).wf(),
            ({
                let v = old(self)@;
                &&& r == (if spec_require_admin(v.admin, admin) is Err {
                    Err(spec_require_admin(v.admin, admin)->Err_0)
                } else if v.pending_upgrade is None {
                    Err(BridgeError::NoPendingUpgrade)
                } else if now < v.pending_upgrade.unwrap().effective_at {
                    Err(BridgeError::UpgradeTimelockActive)
                } else if v.validator_set is None {
                    Err(BridgeError::NotInitialized)
                } else {
                    Ok((v.validator_set.unwrap().version + 1) as u32)
                })
                &&& r is Err ==> final(self)@ == v
                &&& r matches Ok(ver) ==> final(self)@ == (CrossChainBridgeView {
                    validator_set: Some(ValidatorSetView {
                        validators: v.pending_upgrade.unwrap().proposed_validators,
                        threshold: v.pending_upgrade.unwrap().proposed_threshold,
                        version: ver,
                        updated_at: now,
                    }),
                    pending_upgrade: None,
                    ..v
                })
            }),
    {
        match self.require_admin(admin) {
            Err(e) => return Err(e),
            Ok(()) => {},
        }
        match &self.pending_upgrade {
            None => return Err(BridgeError::NoPendingUpgrade),
            Some(u) => if now < u.effective_at {
                return Err(BridgeError::UpgradeTimelockActive);
            },
        }
        let new_version = match &self.validator_set {
            None => return Err(BridgeError::NotInitialized),
            Some(s) => s.version + 1,
        };
        let upgrade = self.pending_upgrade.take();
        match upgrade {
            Some(u) => {
                self.validator_set = Some(ValidatorSet {
                    validators: u.proposed_validators,
                    threshold: u.proposed_threshold,
                    version: new_version,
                    updated_at: now,
                });
            },
            None => {},
        }
        Ok(new_version)
    }

    /// Add one validator (no timelock) and set the new threshold.
    pub fn add_validator(
        &mut self,
        admin: Address,
        validator: Address,
        pubkey: [u8; 32],
        new_threshold: u32,
        now: u64,
    ) -> (r: Result<(), BridgeError>)
        requires
            old(self).wf(),
            old(self)@.validator_set matches Some(s) ==> s.version < u32::MAX && 2 * (s.validators.len() + 1) <= u32::MAX,
        ensures
            final(self).wf(),
            ({
                let v = old(self)@;
                let s = v.validator_set.unwrap();
                &&& r == (if spec_require_admin(v.admin, admin) is Err {
                    spec_require_admin(v.admin, admin)
                } else if v.validator_set is None {
                    Err(BridgeError::NotInitialized)
                } else if s.validators.contains(validator) {
                    Err(BridgeError::ValidatorAlreadyExists)
                } else {
                    spec_validate_threshold(new_threshold as int, (s.validators.len() + 1) as int)
                })
                &&& r is Err ==> final(self)@ == v
                &&& r is Ok ==> final(self)@ == (CrossChainBridgeView {
                    validator_set: Some(ValidatorSetView {
                        validators: s.validators.push(validator),
                        threshold: new_threshold,
                        version: (s.version + 1) as u32,
                        updated_at: now,
                    }),
                    validator_pubkeys: v.validator_pubkeys.insert(spec_addr_key(validator), pubkey@),
                    ..v
                })
            }),
    {
        match self.require_admin(admin) {
            Err(e) => return Err(e),
            Ok(()) => {},
        }
        let (count, version) = match &self.validator_set {
            None => return Err(BridgeError::NotInitialized),
            Some(s) => {
                if contains_addr(&s.validators, validator) {
                    return Err(BridgeError::ValidatorAlreadyExists);
                }
                (s.validators.len() as u32 + 1, s.version)
            },
        };
        match validate_threshold(new_threshold, count) {
            Err(e) => return Err(e),
            Ok(()) => {},
        }
        let ghost v = self@;
        let set = self.validator_set.take();
        match set {
            Some(mut s) => {
                s.validators.push(validator);
                s.threshold = new_threshold;
                s.version = version + 1;
                s.updated_at = now;
                self.validator_set = Some(s);
            },
            None => {},
        }
        set_validator_pubkey(&mut self.validator_pubkeys, validator, pubkey);
        assert(self@.validator_pubkeys =~= v.validator_pubkeys.insert(spec_addr_key(validator), pubkey@));
        Ok(())
    }

    /// Remove a validator (no timelock) and set the new threshold for the
    /// remaining set.
    pub fn remove_validator(
        &mut self,
        admin: Address,
        validator: Address,
        new_threshold: u32,
        now: u64,
    ) -> (r: Result<(), BridgeError>)
        requires
            old(self).wf(),
            old(self)@.validator_set matches Some(s) ==> s.version < u32::MAX,
        ensures
            final(self).wf(),
            ({
                let v = old(self)@;
                let s = v.validator_set.unwrap();
                let rest = crate::common::without(s.validators, validator);
                &&& r == (if spec_require_admin(v.admin, admin) is Err {
                    spec_require_admin(v.admin, admin)
                } else if v.validator_set is None {
                    Err(BridgeError::NotInitialized)
                } else if rest.len() == s.validators.len() {
                    Err(BridgeError::ValidatorNotFound)
                } else {
                    spec_validate_threshold(new_threshold as int, rest.len() as int)
                })
                &&& r is Err ==> final(self)@ == v
                &&& r is Ok ==> final(self)@ == (CrossChainBridgeView {
                    validator_set: Some(ValidatorSetView {
                        validators: rest,
                        threshold: new_threshold,
                        version: (s.version + 1) as u32,
                        updated_at: now,
                    }),
                    ..v
                })
            }),
    {
        match self.require_admin(admin) {
            Err(e) => return Err(e),
            Ok(()) => {},
        }
        let (rest, before_len, version) = match &self.validator_set {
            None => return Err(BridgeError::NotInitialized),
            Some(s) => (crate::common::remove_addr(&s.validators, validator), s.validators.len(), s.version),
        };
        if rest.len() == before_len {
            return Err(BridgeError::ValidatorNotFound);
        }
        proof {
            let s = self@.validator_set.unwrap();
            broadcast use vstd::seq_lib::group_filter_ensures;
            assert(crate::common::without(s.validators, validator).len() <= s.validators.len());
        }
        match validate_threshold(new_threshold, rest.len() as u32) {
            Err(e) => return Err(e),
            Ok(()) => {},
        }
        self.validator_set = Some(ValidatorSet { validators: rest, threshold: new_threshold, version: version + 1, updated_at: now });
        Ok(())
    }
}
/// Backing ratio in basis points as the query reports it: 100% when nothing
/// is minted, else `locked * 10_000 / minted` on the unsigned readings of the
/// totals, truncated to 32 bits.
pub open spec fn spec_reported_ratio(locked: int, minted: int) -> u32 {
    if minted == 0 {
        10_000
    } else {
        ((((twos_complement_128(locked) * 10_000) as int) / (twos_complement_128(minted) as int)) % 0x1_0000_0000) as u32
    }
}

fn copy_set(s: &ValidatorSet) -> (c: ValidatorSet)
    ensures
        c@ == s@,
{
    ValidatorSet {
        validators: crate::common::copy_addrs(&s.validators),
        threshold: s.threshold,
        version: s.version,
        updated_at: s.updated_at,
    }
}

impl CrossChainBridgeContract {
    /// The request with id `request_id`.
    pub fn get_request(&self, request_id: u64) -> (r: Result<BridgeRequest, BridgeError>)
        requires
            self.wf(),
        ensures
            match r {
                Ok(req) => self@.requests.contains_key(request_key(request_id))
                    && req@ == self@.requests[request_key(request_id)],
                Err(e) => !self@.requests.contains_key(request_key(request_id))
                    && e == BridgeError::RequestNotFound,
            },
    {
        match self.requests.get(request_id as u128) {
            None => Err(BridgeError::RequestNotFound),
            Some(req) => Ok(copy_request(req)),
        }
    }

    /// The wrapped-asset record of `stellar_asset` on `external_chain`.
    pub fn get_wrapped_asset(&self, stellar_asset: Address, external_chain: ExternalChain) -> (r: Result<WrappedAsset, BridgeError>)
        requires
            self.wf(),
        ensures
            match r {
                Ok(a) => self@.wrapped_assets.contains_key(asset_key(stellar_asset, external_chain))
                    && a@ == self@.wrapped_assets[asset_key(stellar_asset, external_chain)],
                Err(e) => !self@.wrapped_assets.contains_key(asset_key(stellar_asset, external_chain))
                    && e == BridgeError::AssetNotRegistered,
            },
    {
        match self.wrapped_assets.get(pair_key(chain_to_id(external_chain) as u64, stellar_asset)) {
            None => Err(BridgeError::AssetNotRegistered),
            Some(a) => Ok(copy_asset(a)),
        }
    }

    /// The configuration of `chain`.
    pub fn get_chain_config(&self, chain: ExternalChain) -> (r: Result<ChainConfig, BridgeError>)
        requires
            self.wf(),
        ensures
            match r {
                Ok(c) => self@.chain_configs.contains_key(chain_key(chain)) && c == self@.chain_configs[chain_key(chain)],
                Err(e) => !self@.chain_configs.contains_key(chain_key(chain)) && e == BridgeError::ChainNotSupported,
            },
    {
        match self.chain_config(chain) {
            None => Err(BridgeError::ChainNotSupported),
            Some(c) => Ok(c),
        }
    }

    /// The current validator set.
    pub fn get_validator_set(&self) -> (r: Result<ValidatorSet, BridgeError>)
        ensures
            match r {
                Ok(s) => self@.validator_set == Some(s@),
                Err(e) => self@.validator_set is None && e == BridgeError::NotInitialized,
            },
    {
        match &self.validator_set {
            None => Err(BridgeError::NotInitialized),
            Some(s) => Ok(copy_set(s)),
        }
    }

    /// Running bridge statistics.
    pub fn get_stats(&self) -> (r: BridgeStats)
        ensures
            r@ == self@.stats,
    {
        BridgeStats {
            total_requests: self.stats.total_requests,
            total_completed: self.stats.total_completed,
            total_rejected: self.stats.total_rejected,
            total_volume: self.stats.total_volume,
            total_fees_collected: self.stats.total_fees_collected,
            is_paused: self.stats.is_paused,
            pause_reason: self.stats.pause_reason.clone(),
        }
    }

    /// `user`'s request nonce (0 before the first request).
    pub fn get_nonce(&self, user: Address) -> (n: u64)
        requires
            self.wf(),
        ensures
            n == (if self@.nonces.contains_key(spec_addr_key(user)) { self@.nonces[spec_addr_key(user)] } else { 0 }),
    {
        match self.nonces.get(addr_key(user)) {
            None => 0,
            Some(n) => *n,
        }
    }

    /// How many times `validator` has been slashed (0 if never).
    pub fn get_validator_slash_count(&self, validator: Address) -> (n: u32)
        requires
            self.wf(),
        ensures
            n == (if self@.slash_counts.contains_key(spec_addr_key(validator)) {
                self@.slash_counts[spec_addr_key(validator)]
            } else {
                0
            }),
    {
        match self.slash_counts.get(addr_key(validator)) {
            None => 0,
            Some(n) => *n,
        }
    }

    /// Whether `validator` has voted on request `request_id`.
    pub fn has_validator_voted(&self, request_id: u64, validator: Address) -> (b: bool)
        requires
            self.wf(),
        ensures
            b == self@.votes.contains_key(vote_key(request_id, validator)),
    {
        self.votes.contains(pair_key(request_id, validator))
    }

    /// Whether the bridge is paused.
    pub fn is_paused(&self) -> (b: bool)
        ensures
            b == self@.stats.is_paused,
    {
        self.stats.is_paused
    }

    /// Backing ratio of a wrapped asset in basis points.
    pub fn check_backing_ratio(&self, stellar_asset: Address, external_chain: ExternalChain) -> (r: Result<u32, BridgeError>)
        requires
            self.wf(),
            self@.wrapped_assets.contains_key(asset_key(stellar_asset, external_chain)) ==> twos_complement_128(
                self@.wrapped_assets[asset_key(stellar_asset, external_chain)].total_locked as int,
            ) * 10_000 <= u128::MAX,
        ensures
            ({
                let k = asset_key(stellar_asset, external_chain);
                r == if self@.wrapped_assets.contains_key(k) {
                    Ok(spec_reported_ratio(
                        self@.wrapped_assets[k].total_locked as int,
                        self@.wrapped_assets[k].total_minted as int,
                    ))
                } else {
                    Err(BridgeError::AssetNotRegistered)
                }
            }),
    {
        let (locked, minted) = match self.wrapped_assets.get(pair_key(chain_to_id(external_chain) as u64, stellar_asset)) {
            None => return Err(BridgeError::AssetNotRegistered),
            Some(a) => (a.total_locked, a.total_minted),
        };
        if minted == 0 {
            return Ok(10_000);
        }
        let l = to_u128(locked);
        let m = to_u128(minted);
        let v: u128 = (l * 10_000) / m;
        Ok((v % 0x1_0000_0000) as u32)
    }
}

} // verus!
