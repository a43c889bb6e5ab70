use stellara::common::Address;
use stellara::privacy_token::contract::{PoolFailure, PrivateTokenContract, PrivateTokenEnv, PrivateTokenError};
use stellara::privacy_trading::contract::{OrderSide, OrderStatus, PrivateTradingContract, PtEnv};
use stellara::trading::contract::{TradingEnv, UpgradeableTradingContract};

// ─── trading ─────────────────────────────────────────────────────────────────

#[test]
fn test_contract_initialization() {
    let mut env = TradingEnv::new(1000);
    let admin = Address(1);
    let approvers = vec![Address(2), Address(3)];
    let executor = Address(4);
    let result = UpgradeableTradingContract::init(&mut env, admin, approvers, executor);
    assert!(result.is_ok());
    assert_eq!(UpgradeableTradingContract::get_version(&env), 1);
}

#[test]
fn test_contract_cannot_be_initialized_twice() {
    let mut env = TradingEnv::new(1000);
    let admin = Address(1);
    let approvers = vec![Address(2)];
    let executor = Address(4);
    assert!(UpgradeableTradingContract::init(&mut env, admin, approvers.clone(), executor).is_ok());
    assert!(UpgradeableTradingContract::init(&mut env, admin, approvers, executor).is_err());
}

// ─── private trading ─────────────────────────────────────────────────────────

fn pt_setup() -> (PtEnv, Address, Address, Address) {
    (PtEnv::new(Address(900), 0), Address(1), Address(2), Address(3))
}

/// Initialization of the private trading contract and of the privacy token.
#[test]
fn lib_test_initialize() {
    let (mut env, admin, base_token, quote_token) = pt_setup();
    PrivateTradingContract::initialize(&mut env, admin, base_token, quote_token).unwrap();
    let pair = PrivateTradingContract::token_pair(&env);
    assert_eq!(pair.base_token, base_token);
    assert_eq!(pair.quote_token, quote_token);

    let mut token = PrivateTokenEnv::new();
    PrivateTokenContract::initialize(&mut token, admin, "PrivateToken".to_string(), "PRIV".to_string(), 18).unwrap();
    let metadata = PrivateTokenContract::metadata(&token);
    assert_eq!(metadata.name, "PrivateToken");
    assert_eq!(metadata.symbol, "PRIV");
    assert_eq!(metadata.decimals, 18);
}

#[test]
fn test_create_order() {
    let (mut env, admin, base_token, quote_token) = pt_setup();
    let trader = Address(10);
    PrivateTradingContract::initialize(&mut env, admin, base_token, quote_token).unwrap();
    let commitment = [7u8; 32];
    let nullifier_hash = [9u8; 32];
    let expires = env.timestamp + 3600;
    let order_id = PrivateTradingContract::create_order(&mut env, trader, OrderSide::Buy, 100, commitment, nullifier_hash, expires).unwrap();
    assert_eq!(order_id, 1);
    let order = PrivateTradingContract::get_order(&env, order_id).unwrap();
    assert_eq!(order.trader, trader);
    assert_eq!(order.side, OrderSide::Buy);
    assert_eq!(order.price, 100);
    assert_eq!(order.status, OrderStatus::Open);
    assert!(PrivateTradingContract::is_nullifier_used(&env, &nullifier_hash));
}

#[test]
fn test_cancel_order() {
    let (mut env, admin, base_token, quote_token) = pt_setup();
    let trader = Address(10);
    PrivateTradingContract::initialize(&mut env, admin, base_token, quote_token).unwrap();
    let expires = env.timestamp + 3600;
    let order_id = PrivateTradingContract::create_order(&mut env, trader, OrderSide::Buy, 100, [7u8; 32], [9u8; 32], expires).unwrap();
    PrivateTradingContract::cancel_order(&mut env, trader, order_id).unwrap();
    let order = PrivateTradingContract::get_order(&env, order_id).unwrap();
    assert_eq!(order.status, OrderStatus::Cancelled);
}

/// Pausing and unpausing the private trading contract and the privacy token.
#[test]
fn lib_test_pause_unpause() {
    let (mut env, admin, base_token, quote_token) = pt_setup();
    PrivateTradingContract::initialize(&mut env, admin, base_token, quote_token).unwrap();
    assert!(!PrivateTradingContract::is_paused(&env));
    PrivateTradingContract::pause(&mut env, admin).unwrap();
    assert!(PrivateTradingContract::is_paused(&env));
    PrivateTradingContract::unpause(&mut env, admin).unwrap();
    assert!(!PrivateTradingContract::is_paused(&env));

    let mut token = PrivateTokenEnv::new();
    PrivateTokenContract::initialize(&mut token, admin, "PrivateToken".to_string(), "PRIV".to_string(), 18).unwrap();
    assert!(!PrivateTokenContract::is_paused(&token));
    PrivateTokenContract::pause(&mut token, admin).unwrap();
    assert!(PrivateTokenContract::is_paused(&token));
    PrivateTokenContract::unpause(&mut token, admin).unwrap();
    assert!(!PrivateTokenContract::is_paused(&token));
}

// ─── privacy token ───────────────────────────────────────────────────────────

fn token_setup() -> (PrivateTokenEnv, Address) {
    let mut env = PrivateTokenEnv::new();
    let admin = Address(1);
    PrivateTokenContract::initialize(&mut env, admin, "PrivateToken".to_string(), "PRIV".to_string(), 18).unwrap();
    (env, admin)
}

#[test]
fn test_mint_and_public_balance() {
    let (mut env, admin) = token_setup();
    let user = Address(10);
    PrivateTokenContract::mint(&mut env, admin, user, 1000).unwrap();
    assert_eq!(PrivateTokenContract::public_balance(&env, user), 1000);
    assert_eq!(PrivateTokenContract::total_supply(&env), 1000);
}

#[test]
fn test_transfer() {
    let (mut env, admin) = token_setup();
    let from = Address(10);
    let to = Address(11);
    PrivateTokenContract::mint(&mut env, admin, from, 1000).unwrap();
    PrivateTokenContract::transfer(&mut env, from, to, 400).unwrap();
    assert_eq!(PrivateTokenContract::public_balance(&env, from), 600);
    assert_eq!(PrivateTokenContract::public_balance(&env, to), 400);
}

/// The pool takes the commitment at leaf 0 and later accepts the nullifier.
#[test]
fn test_deposit_and_withdraw() {
    let (mut env, admin) = token_setup();
    let user = Address(10);
    PrivateTokenContract::mint(&mut env, admin, user, 1000).unwrap();
    assert_eq!(PrivateTokenContract::public_balance(&env, user), 1000);
    let commitment = [5u8; 32];
    let leaf_index = PrivateTokenContract::deposit(&mut env, user, 500, commitment, true, Ok(0)).unwrap();
    assert_eq!(leaf_index, 0);
    assert_eq!(PrivateTokenContract::public_balance(&env, user), 500);
    let nullifier_hash = [6u8; 32];
    PrivateTokenContract::withdraw(&mut env, user, 500, nullifier_hash, false, Ok(())).unwrap();
    assert_eq!(PrivateTokenContract::public_balance(&env, user), 1000);
    // A second withdrawal against the same nullifier is refused once the pool
    // has it recorded as spent.
    let again = PrivateTokenContract::withdraw(&mut env, user, 500, nullifier_hash, true, Ok(()));
    assert_eq!(again, Err(PrivateTokenError::AlreadySpent));
}

#[test]
fn privacy_token_errors() {
    let (mut env, admin) = token_setup();
    let user = Address(10);
    let stranger = Address(11);
    assert_eq!(PrivateTokenContract::mint(&mut env, stranger, user, 10), Err(PrivateTokenError::Unauthorized));
    assert_eq!(PrivateTokenContract::mint(&mut env, admin, user, 0), Err(PrivateTokenError::InvalidAmount));
    PrivateTokenContract::mint(&mut env, admin, user, 100).unwrap();
    assert_eq!(PrivateTokenContract::transfer(&mut env, user, stranger, 101), Err(PrivateTokenError::InsufficientBalance));
    assert_eq!(PrivateTokenContract::burn(&mut env, user, 101), Err(PrivateTokenError::InsufficientBalance));
    assert_eq!(
        PrivateTokenContract::deposit(&mut env, user, 50, [1u8; 32], true, Err(PoolFailure::MerkleTreeFull)),
        Err(PrivateTokenError::MerkleTreeFull)
    );
    assert_eq!(
        PrivateTokenContract::deposit(&mut env, user, 50, [1u8; 32], true, Err(PoolFailure::Other)),
        Err(PrivateTokenError::InvalidCommitment)
    );
    assert_eq!(PrivateTokenContract::deposit(&mut env, user, 50, [1u8; 32], false, Ok(3)), Err(PrivateTokenError::InvalidAmount));
    // A refused deposit leaves the balance as it was.
    assert_eq!(PrivateTokenContract::public_balance(&env, user), 100);
    PrivateTokenContract::burn(&mut env, user, 40).unwrap();
    assert_eq!(PrivateTokenContract::total_supply(&env), 60);
    PrivateTokenContract::pause(&mut env, admin).unwrap();
    assert_eq!(PrivateTokenContract::transfer(&mut env, user, stranger, 1), Err(PrivateTokenError::Paused));
    assert_eq!(PrivateTokenError::Paused.code(), 8);
    let fresh = PrivateTokenEnv::new();
    let md = PrivateTokenContract::metadata(&fresh);
    assert_eq!((md.name.as_str(), md.symbol.as_str(), md.decimals), ("Unknown", "UNK", 0));
}

#[test]
fn privacy_token_burn_undoes_mint() {
    let (mut env, admin) = token_setup();
    let user = Address(10);
    let other = Address(11);
    PrivateTokenContract::mint(&mut env, admin, user, 300).unwrap();
    PrivateTokenContract::mint(&mut env, admin, other, 50).unwrap();
    PrivateTokenContract::mint(&mut env, admin, user, 200).unwrap();
    PrivateTokenContract::burn(&mut env, user, 200).unwrap();
    assert_eq!(PrivateTokenContract::public_balance(&env, user), 300);
    assert_eq!(PrivateTokenContract::public_balance(&env, other), 50);
    assert_eq!(PrivateTokenContract::total_supply(&env), 350);
}

/// The pool takes the output commitment against the input nullifier; the
/// public balances and supply do not move.
#[test]
fn test_private_transfer() {
    let (mut env, admin) = token_setup();
    let user = Address(10);
    PrivateTokenContract::mint(&mut env, admin, user, 1000).unwrap();
    PrivateTokenContract::deposit(&mut env, user, 500, [5u8; 32], true, Ok(0)).unwrap();
    let nullifier_hash = [6u8; 32];
    let output = [7u8; 32];
    PrivateTokenContract::private_transfer(&mut env, nullifier_hash, output, 300, false, Ok(1)).unwrap();
    assert_eq!(PrivateTokenContract::public_balance(&env, user), 500);
    assert_eq!(PrivateTokenContract::total_supply(&env), 1500);
    // Once the pool has the input nullifier spent, it cannot be spent again.
    assert_eq!(
        PrivateTokenContract::private_transfer(&mut env, nullifier_hash, output, 300, true, Ok(2)),
        Err(PrivateTokenError::AlreadySpent)
    );
}

#[test]
fn privacy_token_private_transfer_errors() {
    let (mut env, admin) = token_setup();
    let n = [1u8; 32];
    let c = [2u8; 32];
    assert_eq!(PrivateTokenContract::private_transfer(&mut env, n, c, 0, false, Ok(0)), Err(PrivateTokenError::InvalidAmount));
    assert_eq!(
        PrivateTokenContract::private_transfer(&mut env, n, c, 5, false, Err(PoolFailure::MerkleTreeFull)),
        Err(PrivateTokenError::MerkleTreeFull)
    );
    assert_eq!(
        PrivateTokenContract::private_transfer(&mut env, n, c, 5, false, Err(PoolFailure::Other)),
        Err(PrivateTokenError::InvalidCommitment)
    );
    PrivateTokenContract::pause(&mut env, admin).unwrap();
    assert_eq!(PrivateTokenContract::private_transfer(&mut env, n, c, 5, true, Ok(0)), Err(PrivateTokenError::Paused));
}
