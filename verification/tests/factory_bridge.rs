use ed25519_dalek::{Signer, SigningKey};
use sha2::Digest;
use stellara::common::{Address, Symbol, TokenTransfer};
use stellara::contract_factory::contract::ContractFactory;
use stellara::contract_factory::deployer::compute_salt;
use stellara::contract_factory::types::{FactoryEnv, FactoryError};
use stellara::identity::storage::{self as identity, IdentityEnv};
use stellara::identity::types::{Credential, CredentialType, IdentityMetadata};
use stellara::message_bridge::contract::CrossChainBridgeContract;
use stellara::message_bridge::types::{BridgeError, BridgeMessage, MessageBridgeEnv, MessageStatus, ProposalType, Validator};
use stellara::message_bridge::verification::{compute_signing_hash, verify_multi_sig};

// ─── factory ─────────────────────────────────────────────────────────────────

const ADMIN: Address = Address(1);
const OWNER: Address = Address(7);
const TOKEN_T: Symbol = Symbol(0x746f6b656e);

fn factory() -> FactoryEnv {
    let mut env = FactoryEnv::new(42);
    ContractFactory::initialize(&mut env, ADMIN).unwrap();
    env
}

#[test]
fn factory_salt_is_sha256_of_owner_and_nonce() {
    let owner_bytes: Vec<u8> = vec![0, 0, 0, 18, 0, 0, 0, 0, 7, 9, 250];
    let salt = compute_salt(&owner_bytes, 3);
    let mut pre = owner_bytes.clone();
    pre.extend_from_slice(&3u64.to_be_bytes());
    assert_eq!(salt, sha2::Sha256::digest(&pre).to_vec());
    assert_eq!(salt.len(), 32);
    assert_ne!(compute_salt(&owner_bytes, 3), compute_salt(&owner_bytes, 4));
    assert_ne!(compute_salt(&owner_bytes, 3), compute_salt(&vec![1, 2, 3], 3));
}

#[test]
fn factory_register_deploy_upgrade() {
    let mut env = factory();
    assert_eq!(ContractFactory::initialize(&mut env, ADMIN), Err(FactoryError::AlreadyInitialized));
    assert_eq!(ContractFactory::register_template(&mut env, OWNER, TOKEN_T, [1; 32]), Err(FactoryError::Unauthorized));
    ContractFactory::register_template(&mut env, ADMIN, TOKEN_T, [1; 32]).unwrap();
    assert_eq!(ContractFactory::register_template(&mut env, ADMIN, TOKEN_T, [2; 32]), Err(FactoryError::TemplateAlreadyExists));

    let owner_bytes: Vec<u8> = vec![0, 0, 0, 18, 0, 0, 0, 0, 7];
    let plan = ContractFactory::prepare_deploy(&env, TOKEN_T, &owner_bytes).unwrap();
    assert_eq!(plan.wasm_hash, [1; 32]);
    assert_eq!(plan.salt, compute_salt(&owner_bytes, 0));
    let deployed = Address(500);
    assert_eq!(ContractFactory::deploy(&mut env, TOKEN_T, OWNER, deployed), Ok(deployed));
    let inst = ContractFactory::get_instance(&env, deployed).unwrap();
    assert_eq!((inst.owner, inst.template_version, inst.deployed_at, inst.active), (OWNER, 1, 42, true));
    assert_eq!(ContractFactory::get_owner_instances(&env, OWNER), vec![deployed]);
    assert_eq!(ContractFactory::get_stats(&env).total_deployed, 1);
    assert_eq!(ContractFactory::get_stats(&env).total_templates, 1);

    // A new version: the instance is upgraded to the template's new code.
    ContractFactory::update_template(&mut env, ADMIN, TOKEN_T, [3; 32]).unwrap();
    assert_eq!(ContractFactory::get_template(&env, TOKEN_T).unwrap().version, 2);
    assert_eq!(ContractFactory::upgrade_instance(&env, OWNER, deployed), Ok([3; 32]));
    assert_eq!(ContractFactory::upgrade_instance(&env, Address(99), deployed), Err(FactoryError::Unauthorized));

    // Deactivated instances cannot be upgraded or deactivated again.
    ContractFactory::deactivate_instance(&mut env, OWNER, deployed).unwrap();
    assert_eq!(ContractFactory::upgrade_instance(&env, OWNER, deployed), Err(FactoryError::InstanceInactive));
    assert_eq!(ContractFactory::deactivate_instance(&mut env, ADMIN, deployed), Err(FactoryError::InstanceAlreadyInactive));
}

#[test]
fn factory_refuses_paused_and_inactive() {
    let mut env = factory();
    assert_eq!(ContractFactory::prepare_deploy(&env, TOKEN_T, &vec![7]).err(), Some(FactoryError::TemplateNotFound));
    ContractFactory::register_template(&mut env, ADMIN, TOKEN_T, [1; 32]).unwrap();
    ContractFactory::deactivate_template(&mut env, ADMIN, TOKEN_T).unwrap();
    assert_eq!(ContractFactory::deploy(&mut env, TOKEN_T, OWNER, Address(500)), Err(FactoryError::TemplateInactive));
    ContractFactory::reactivate_template(&mut env, ADMIN, TOKEN_T).unwrap();
    ContractFactory::pause(&mut env, ADMIN).unwrap();
    assert!(ContractFactory::is_paused(&env));
    assert_eq!(ContractFactory::deploy(&mut env, TOKEN_T, OWNER, Address(500)), Err(FactoryError::Paused));
    assert_eq!(ContractFactory::get_stats(&env).total_deployed, 0);
    ContractFactory::unpause(&mut env, ADMIN).unwrap();
    assert!(ContractFactory::deploy(&mut env, TOKEN_T, OWNER, Address(500)).is_ok());
    ContractFactory::transfer_admin(&mut env, ADMIN, Address(2)).unwrap();
    assert_eq!(ContractFactory::pause(&mut env, ADMIN), Err(FactoryError::Unauthorized));
    let listed = ContractFactory::list_templates(&env);
    assert_eq!(listed.len(), 1);
    assert_eq!(listed[0].name, TOKEN_T);
    assert_eq!(FactoryError::InvalidWasmHash.code(), 11);
}

// ─── message bridge ──────────────────────────────────────────────────────────

const BRIDGE: Address = Address(900);
const CHAIN_ID: u32 = 7;

fn keys(n: u8) -> Vec<SigningKey> {
    (0..n).map(|i| SigningKey::from_bytes(&[i + 1; 32])).collect()
}

fn bridge_with(keys: &[SigningKey], threshold: u32) -> MessageBridgeEnv {
    let mut env = MessageBridgeEnv::new(BRIDGE, 100);
    let validators: Vec<Validator> = keys
        .iter()
        .enumerate()
        .map(|(i, k)| Validator { address: Address(10 + i as u64), signing_key: k.verifying_key().to_bytes() })
        .collect();
    CrossChainBridgeContract::initialize(&mut env, ADMIN, validators, threshold, CHAIN_ID).unwrap();
    env
}

fn message(id: u8) -> BridgeMessage {
    BridgeMessage { id: [id; 32], source_chain: 1, sender: vec![1, 2], receiver: Address(77), payload: vec![], nonce: 0, timestamp: 0 }
}

fn sign(keys: &[SigningKey], who: &[usize], msg: &BridgeMessage) -> (Vec<u32>, Vec<[u8; 64]>) {
    let digest = compute_signing_hash(&msg.id, CHAIN_ID);
    let idx = who.iter().map(|&i| i as u32).collect();
    let sigs = who.iter().map(|&i| keys[i].sign(&digest).to_bytes()).collect();
    (idx, sigs)
}

#[test]
fn bridge_signing_hash_matches_domain_layout() {
    let id = [9u8; 32];
    let mut pre = b"stellar_bridge:v1:".to_vec();
    pre.extend_from_slice(&id);
    pre.extend_from_slice(&CHAIN_ID.to_be_bytes());
    assert_eq!(compute_signing_hash(&id, CHAIN_ID), sha2::Sha256::digest(&pre).to_vec());
}

#[test]
fn bridge_receive_message_with_quorum() {
    let ks = keys(3);
    let mut env = bridge_with(&ks, 2);
    CrossChainBridgeContract::register_wrapped_asset(&mut env, ADMIN, 1, vec![0xaa], Address(300)).unwrap();
    let msg = message(1);
    let (idx, sigs) = sign(&ks, &[0, 2], &msg);
    let mint = CrossChainBridgeContract::receive_message(&mut env, &msg, &vec![0xaa], 250, &idx, &sigs).unwrap();
    assert_eq!((mint.token, mint.to, mint.amount), (Address(300), Address(77), 250));
    assert_eq!(CrossChainBridgeContract::get_message_status(&env, msg.id), Some(MessageStatus::Processed));
    // Replay is refused.
    assert_eq!(
        CrossChainBridgeContract::receive_message(&mut env, &msg, &vec![0xaa], 250, &idx, &sigs).err(),
        Some(BridgeError::MessageAlreadyProcessed)
    );
}

#[test]
fn bridge_receive_message_refusals() {
    let ks = keys(3);
    let mut env = bridge_with(&ks, 2);
    CrossChainBridgeContract::register_wrapped_asset(&mut env, ADMIN, 1, vec![0xaa], Address(300)).unwrap();
    let msg = message(2);
    let (idx, sigs) = sign(&ks, &[1], &msg);
    let err = |env: &mut MessageBridgeEnv, idx: &Vec<u32>, sigs: &Vec<[u8; 64]>| {
        CrossChainBridgeContract::receive_message(env, &msg, &vec![0xaa], 1, idx, sigs).err()
    };
    assert_eq!(err(&mut env, &idx, &sigs), Some(BridgeError::ThresholdNotMet));
    let (idx2, sigs2) = sign(&ks, &[1, 1], &msg);
    assert_eq!(err(&mut env, &idx2, &sigs2), Some(BridgeError::DuplicateSigner));
    let (_, sigs3) = sign(&ks, &[0, 1], &msg);
    assert_eq!(err(&mut env, &vec![0, 5], &sigs3), Some(BridgeError::InvalidSignerIndex));
    assert_eq!(err(&mut env, &vec![0], &sigs3), Some(BridgeError::InvalidSignatureCount));
    // Signatures swapped between signers do not verify.
    assert_eq!(err(&mut env, &vec![1, 0], &sigs3), Some(BridgeError::InvalidSignature));
    let other = message(3);
    let (i4, s4) = sign(&ks, &[0, 1], &other);
    assert_eq!(
        CrossChainBridgeContract::receive_message(&mut env, &other, &vec![0xbb], 1, &i4, &s4).err(),
        Some(BridgeError::WrappedAssetNotFound)
    );
    assert_eq!(CrossChainBridgeContract::get_message_status(&env, other.id), None);
    CrossChainBridgeContract::pause(&mut env, ADMIN).unwrap();
    assert_eq!(err(&mut env, &vec![0, 1], &sigs3), Some(BridgeError::Paused));
}

#[test]
fn bridge_verify_multi_sig_accepts_valid_set() {
    let ks = keys(2);
    let digest = vec![5u8; 32];
    let pks: Vec<[u8; 32]> = ks.iter().map(|k| k.verifying_key().to_bytes()).collect();
    let sigs: Vec<[u8; 64]> = ks.iter().map(|k| k.sign(&digest).to_bytes()).collect();
    assert_eq!(verify_multi_sig(&digest, &pks, &vec![0, 1], &sigs, 2), Ok(()));
    assert_eq!(verify_multi_sig(&digest, &pks, &vec![0, 1], &sigs, 3), Err(BridgeError::ThresholdNotMet));
}

#[test]
fn bridge_out_collects_and_burns() {
    let ks = keys(1);
    let env = bridge_with(&ks, 1);
    let out = CrossChainBridgeContract::initiate_bridge_out(&env, Address(5), Address(300), 42, 2, vec![1, 2, 3]).unwrap();
    assert_eq!(out.collect, TokenTransfer { token: Address(300), from: Address(5), to: BRIDGE, amount: 42 });
    assert_eq!(out.burn_amount, 42);
    let mut pre = b"bridge_out:".to_vec();
    pre.extend_from_slice(&300u64.to_be_bytes());
    pre.extend_from_slice(&42i128.to_be_bytes());
    pre.extend_from_slice(&100u32.to_be_bytes());
    assert_eq!(out.message_id, sha2::Sha256::digest(&pre).to_vec());
}

#[test]
fn bridge_governance_votes_and_executes_once() {
    let ks = keys(3);
    let mut env = bridge_with(&ks, 2);
    let newcomer = Validator { address: Address(40), signing_key: [4; 32] };
    assert_eq!(
        CrossChainBridgeContract::create_proposal(&mut env, Address(99), ProposalType::AddValidator(newcomer), 10).err(),
        Some(BridgeError::Unauthorized)
    );
    let id = CrossChainBridgeContract::create_proposal(&mut env, Address(10), ProposalType::AddValidator(newcomer), 10).unwrap();
    assert_eq!(id, 1);
    CrossChainBridgeContract::vote_proposal(&mut env, Address(10), id).unwrap();
    assert_eq!(CrossChainBridgeContract::vote_proposal(&mut env, Address(10), id), Err(BridgeError::AlreadyVoted));
    assert_eq!(CrossChainBridgeContract::execute_proposal(&mut env, id), Err(BridgeError::VotingStillActive));
    CrossChainBridgeContract::vote_proposal(&mut env, Address(11), id).unwrap();
    env.ledger_sequence = 111;
    assert_eq!(CrossChainBridgeContract::vote_proposal(&mut env, Address(12), id), Err(BridgeError::ProposalExpired));
    CrossChainBridgeContract::execute_proposal(&mut env, id).unwrap();
    assert_eq!(CrossChainBridgeContract::get_validators(&env).len(), 4);
    assert_eq!(CrossChainBridgeContract::execute_proposal(&mut env, id), Err(BridgeError::ProposalAlreadyExecuted));
    assert!(CrossChainBridgeContract::get_proposal(&env, id).unwrap().executed);
}

#[test]
fn bridge_validator_admin() {
    let ks = keys(2);
    let mut env = bridge_with(&ks, 2);
    let key0 = ks[0].verifying_key().to_bytes();
    assert_eq!(CrossChainBridgeContract::remove_validator(&mut env, ADMIN, key0), Err(BridgeError::InvalidThreshold));
    assert_eq!(CrossChainBridgeContract::remove_validator(&mut env, ADMIN, [0; 32]), Err(BridgeError::ValidatorNotFound));
    CrossChainBridgeContract::update_threshold(&mut env, ADMIN, 1).unwrap();
    CrossChainBridgeContract::remove_validator(&mut env, ADMIN, key0).unwrap();
    assert_eq!(CrossChainBridgeContract::get_validators(&env).len(), 1);
    assert_eq!(CrossChainBridgeContract::update_threshold(&mut env, ADMIN, 2), Err(BridgeError::InvalidThreshold));
    assert_eq!(CrossChainBridgeContract::get_threshold(&env), 1);
    assert_eq!(CrossChainBridgeContract::add_validator(&mut env, Address(3), Validator { address: Address(3), signing_key: [3; 32] }), Err(BridgeError::Unauthorized));
    assert_eq!(BridgeError::InvalidSignature.code(), 20);
    let mut fresh = MessageBridgeEnv::new(BRIDGE, 0);
    assert_eq!(CrossChainBridgeContract::initialize(&mut fresh, ADMIN, vec![], 1, CHAIN_ID), Err(BridgeError::InvalidThreshold));
}

// ─── identity storage ────────────────────────────────────────────────────────

#[test]
fn identity_storage_reads_back_writes() {
    let mut env = IdentityEnv::new();
    assert!(!identity::has_admin(&env));
    identity::set_admin(&mut env, ADMIN);
    assert_eq!(identity::get_admin(&env), Some(ADMIN));
    let user = Address(8);
    assert!(identity::get_identity(&env, user).is_none());
    identity::set_identity(&mut env, user, IdentityMetadata { did_uri: b"did:stellara:123".to_vec(), public_key: [1; 32], created_at: 5, updated_at: 5 });
    let id = identity::get_identity(&env, user).unwrap();
    assert_eq!(id.did_uri, b"did:stellara:123".to_vec());
    assert_eq!(id.public_key, [1; 32]);
    let hash = [3u8; 32];
    let cred = |is_revoked: bool| Credential {
        issuer: Address(2),
        subject: user,
        credential_type: CredentialType::AcademyGraduation,
        claim_hash: hash,
        signature: vec![],
        issued_at: 9,
        expires_at: None,
        is_revoked,
    };
    identity::set_credential(&mut env, hash, cred(false));
    identity::set_credential(&mut env, hash, cred(true));
    let got = identity::get_credential(&env, hash).unwrap();
    assert!(got.is_revoked);
    assert_eq!(got.subject, user);
    assert_eq!(env.credentials.len(), 1);
    assert!(identity::get_credential(&env, [4; 32]).is_none());
    assert!(!identity::is_verifier(&env, Address(2)));
    identity::set_verifier(&mut env, Address(2), true);
    assert!(identity::is_verifier(&env, Address(2)));
}
