use sha2::Digest;
use ed25519_dalek::{Signer, SigningKey};
use stellara::bridge::contract::CrossChainBridgeContract;
use stellara::bridge::security::{
    calculate_fee, canonical_payload, signed_message, minimum_threshold, normalise_to_external, normalise_to_stellar, requires_supermajority,
    validate_threshold,
};
use stellara::bridge::types::{BridgeError, BridgeRequestStatus, ExternalChain};
use stellara::common::{Address, TokenTransfer};

const SELF: Address = Address(900);
const ADMIN: Address = Address(1);
const FEES: Address = Address(2);
const ASSET: Address = Address(300);
const USER: Address = Address(5);
const NOW: u64 = 1_000;
/// The 32-byte hash of the asset's Stellar address, given at registration.
const ASSET_HASH: [u8; 32] = [0x5a; 32];

fn signing_keys() -> Vec<SigningKey> {
    (1u8..=3).map(|i| SigningKey::from_bytes(&[i; 32])).collect()
}

fn validators() -> Vec<Address> {
    vec![Address(10), Address(11), Address(12)]
}

fn bridge() -> CrossChainBridgeContract {
    let mut b = CrossChainBridgeContract::new(SELF);
    let pks: Vec<[u8; 32]> = signing_keys().iter().map(|k| k.verifying_key().to_bytes()).collect();
    b.initialize(ADMIN, FEES, validators(), 3, pks, NOW).unwrap();
    b.configure_chain(ADMIN, ExternalChain::Ethereum, 12, 1_000_000, 10_000_000, 30, 3_600, NOW).unwrap();
    b.register_asset(ADMIN, ASSET, ExternalChain::Ethereum, ASSET_HASH, vec![0xde, 0xad], 7, 18, NOW).unwrap();
    b
}

#[test]
fn bridge_formulas() {
    assert_eq!(minimum_threshold(3), 3);
    assert_eq!(minimum_threshold(4), 3);
    assert_eq!(minimum_threshold(7), 5);
    assert_eq!(validate_threshold(2, 3), Err(BridgeError::ThresholdTooLow));
    assert_eq!(validate_threshold(4, 3), Err(BridgeError::ThresholdExceedsSet));
    assert_eq!(validate_threshold(2, 2), Err(BridgeError::ValidatorSetTooSmall));
    assert_eq!(validate_threshold(5, 7), Ok(()));
    assert_eq!(calculate_fee(10_000, 30), (30, 9_970));
    assert_eq!(calculate_fee(333, 30), (0, 333));
    // A negative amount is read as its unsigned 128-bit value.
    assert_eq!(calculate_fee(-1, 0), (0, -1));
    assert_eq!(
        calculate_fee(-10_000, 1),
        (34028236692093846346337460743176820, -34028236692093846346337460743186820)
    );
    assert_eq!(normalise_to_stellar(1_000_000_000_000_000_000, 18, 7), 10_000_000);
    assert_eq!(normalise_to_stellar(-15, 1, 0), -1);
    assert_eq!(normalise_to_external(10_000_000, 7, 18), 1_000_000_000_000_000_000);
    assert!(requires_supermajority(101, 10));
    assert!(!requires_supermajority(100, 10));
}

#[test]
fn bridge_initialize_refusals() {
    let mut b = CrossChainBridgeContract::new(SELF);
    assert_eq!(b.initialize(ADMIN, FEES, validators(), 2, vec![[0; 32]; 3], NOW), Err(BridgeError::ThresholdTooLow));
    assert_eq!(b.initialize(ADMIN, FEES, validators(), 3, vec![[0; 32]; 2], NOW), Err(BridgeError::NotValidator));
    let mut b = bridge();
    assert_eq!(b.initialize(ADMIN, FEES, validators(), 3, vec![[0; 32]; 3], NOW), Err(BridgeError::AlreadyInitialized));
}

#[test]
fn bridge_outbound_locks_and_completes_with_all_votes() {
    let mut b = bridge();
    let mut transfers: Vec<TokenTransfer> = Vec::new();
    let id = b.initiate_outbound(USER, ASSET, 10_000, ExternalChain::Ethereum, vec![0xab; 20], NOW, 20_000, &mut transfers).unwrap();
    assert_eq!(id, 1);
    assert_eq!(transfers[0], TokenTransfer { token: ASSET, from: USER, to: SELF, amount: 10_000 });
    let req = b.get_request(id).unwrap();
    assert_eq!((req.fee_amount, req.net_amount, req.status), (30, 9_970, BridgeRequestStatus::Pending));
    assert_eq!(b.get_wrapped_asset(ASSET, ExternalChain::Ethereum).unwrap().total_locked, 10_000);

    let payload = signed_message(&req, &ASSET_HASH);
    let keys = signing_keys();
    // A signature by another validator's key is refused.
    let forged = keys[1].sign(&payload).to_bytes();
    assert_eq!(b.submit_validator_vote(Address(10), id, true, forged, NOW, &mut transfers), Err(BridgeError::InvalidSignature));
    let s0 = keys[0].sign(&payload).to_bytes();
    assert_eq!(b.submit_validator_vote(Address(10), id, true, s0, NOW, &mut transfers), Ok(BridgeRequestStatus::Pending));
    assert_eq!(b.submit_validator_vote(Address(10), id, true, s0, NOW, &mut transfers), Err(BridgeError::AlreadyVoted));
    assert!(b.has_validator_voted(id, Address(10)));
    assert_eq!(b.submit_validator_vote(Address(99), id, true, s0, NOW, &mut transfers), Err(BridgeError::NotValidator));
    let s1 = keys[1].sign(&payload).to_bytes();
    assert_eq!(b.submit_validator_vote(Address(11), id, true, s1, NOW, &mut transfers), Ok(BridgeRequestStatus::Pending));
    let s2 = keys[2].sign(&payload).to_bytes();
    assert_eq!(b.submit_validator_vote(Address(12), id, true, s2, NOW, &mut transfers), Ok(BridgeRequestStatus::Completed));
    assert_eq!(b.get_request(id).unwrap().status, BridgeRequestStatus::Completed);
    assert_eq!(b.get_stats().total_completed, 1);
}

#[test]
fn bridge_outbound_rejected_when_quorum_unreachable() {
    let mut b = bridge();
    let mut transfers: Vec<TokenTransfer> = Vec::new();
    let id = b.initiate_outbound(USER, ASSET, 10_000, ExternalChain::Ethereum, vec![0xab; 20], NOW, 20_000, &mut transfers).unwrap();
    let req = b.get_request(id).unwrap();
    let payload = signed_message(&req, &ASSET_HASH);
    let sig = signing_keys()[0].sign(&payload).to_bytes();
    // With three validators and three approvals required, one rejection decides.
    assert_eq!(b.submit_validator_vote(Address(10), id, false, sig, NOW, &mut transfers), Ok(BridgeRequestStatus::Rejected));
    assert_eq!(b.get_wrapped_asset(ASSET, ExternalChain::Ethereum).unwrap().total_locked, 0);
    assert_eq!(b.get_stats().total_rejected, 1);
}

#[test]
fn bridge_outbound_refusals() {
    let mut b = bridge();
    let mut t: Vec<TokenTransfer> = Vec::new();
    let mut go = |b: &mut CrossChainBridgeContract, amount: i128, chain: ExternalChain, balance: i128| {
        b.initiate_outbound(USER, ASSET, amount, chain, vec![1], NOW, balance, &mut t)
    };
    assert_eq!(go(&mut b, 0, ExternalChain::Ethereum, 10), Err(BridgeError::AmountTooSmall));
    assert_eq!(go(&mut b, 10, ExternalChain::Polygon, 10), Err(BridgeError::ChainNotSupported));
    assert_eq!(go(&mut b, 2_000_000, ExternalChain::Ethereum, 10_000_000), Err(BridgeError::AmountExceedsMax));
    assert_eq!(go(&mut b, 10, ExternalChain::Ethereum, 9), Err(BridgeError::InsufficientBalance));
    b.set_pause(ADMIN, true, "maintenance".to_string()).unwrap();
    assert!(b.is_paused());
    assert_eq!(go(&mut b, 10, ExternalChain::Ethereum, 10), Err(BridgeError::BridgePaused));
    assert_eq!(b.set_pause(USER, false, "x".to_string()).err().is_some(), true);
}

#[test]
fn bridge_inbound_rejects_replayed_tx() {
    let mut b = bridge();
    let mut transfers: Vec<TokenTransfer> = Vec::new();
    // Tokens locked by an outbound transfer back the wrapped tokens minted inbound.
    b.initiate_outbound(USER, ASSET, 10_000, ExternalChain::Ethereum, vec![0xab; 20], NOW, 20_000, &mut transfers).unwrap();
    let id = b.initiate_inbound(USER, ASSET, 5_000, ExternalChain::Ethereum, vec![0xab; 20], vec![7; 32], NOW).unwrap();
    let req = b.get_request(id).unwrap();
    let payload = signed_message(&req, &ASSET_HASH);
    for (i, k) in signing_keys().iter().enumerate() {
        let sig = k.sign(&payload).to_bytes();
        let status = b.submit_validator_vote(validators()[i], id, true, sig, NOW, &mut transfers);
        assert!(status.is_ok());
    }
    assert_eq!(b.get_request(id).unwrap().status, BridgeRequestStatus::Completed);
    assert!(b.is_external_tx_processed(&vec![7; 32]));
    assert_eq!(
        b.initiate_inbound(USER, ASSET, 5_000, ExternalChain::Ethereum, vec![0xab; 20], vec![7; 32], NOW),
        Err(BridgeError::DuplicateExternalTx)
    );
}

#[test]
fn bridge_signed_message_layout() {
    let mut b = bridge();
    let mut transfers: Vec<TokenTransfer> = Vec::new();
    let id = b.initiate_outbound(USER, ASSET, 10_000, ExternalChain::Ethereum, vec![0xab, 0xcd], NOW, 20_000, &mut transfers).unwrap();
    let req = b.get_request(id).unwrap();
    let payload = canonical_payload(&req, &ASSET_HASH);
    let mut expected: Vec<u8> = Vec::new();
    expected.extend_from_slice(&1u64.to_be_bytes());
    expected.extend_from_slice(&9_970i128.to_be_bytes());
    expected.extend_from_slice(&1u32.to_be_bytes());
    expected.extend_from_slice(&ASSET_HASH);
    expected.extend_from_slice(&[0xab, 0xcd]);
    assert_eq!(payload, expected);
    let mut pre = b"stellara_bridge_v1".to_vec();
    pre.extend_from_slice(&payload);
    assert_eq!(signed_message(&req, &ASSET_HASH), sha2::Sha256::digest(&pre).to_vec());
    // A signature made for another asset hash is refused.
    let other = signed_message(&req, &[0x11; 32]);
    let sig = signing_keys()[0].sign(&other).to_bytes();
    assert_eq!(b.submit_validator_vote(Address(10), id, true, sig, NOW, &mut transfers), Err(BridgeError::InvalidSignature));
}

#[test]
fn bridge_tally_matches_recorded_votes() {
    let mut b = bridge();
    let mut transfers: Vec<TokenTransfer> = Vec::new();
    let id = b.initiate_outbound(USER, ASSET, 10_000, ExternalChain::Ethereum, vec![0xab; 20], NOW, 20_000, &mut transfers).unwrap();
    let req = b.get_request(id).unwrap();
    assert_eq!((req.approval_count, req.rejection_count), (0, 0));
    let msg = signed_message(&req, &ASSET_HASH);
    let keys = signing_keys();
    for i in 0..2 {
        let sig = keys[i].sign(&msg).to_bytes();
        b.submit_validator_vote(validators()[i], id, true, sig, NOW, &mut transfers).unwrap();
    }
    let req = b.get_request(id).unwrap();
    let voted = validators().iter().filter(|v| b.has_validator_voted(id, **v)).count() as u32;
    assert_eq!(req.approval_count + req.rejection_count, voted);
    assert_eq!(voted, 2);
    // A repeated vote is refused and counts nothing.
    let sig = keys[0].sign(&msg).to_bytes();
    assert_eq!(b.submit_validator_vote(validators()[0], id, true, sig, NOW, &mut transfers), Err(BridgeError::AlreadyVoted));
    assert_eq!(b.get_request(id).unwrap().approval_count, 2);
}
