use stellara::academy::storage::AcademyEnv;
use stellara::academy::vesting::AcademyVestingContract;
use stellara::common::{Address, TokenTransfer};
use stellara::store::Store;
use stellara::token::contract::TokenContract;
use stellara::token::storage::TokenEnv;

fn setup_token_contract() -> (TokenEnv, Address) {
    let mut env = TokenEnv::new(0);
    let admin = Address(1);
    TokenContract::initialize(&mut env, admin, "TestToken".to_string(), "TEST".to_string(), 18);
    (env, admin)
}

fn setup_vesting_contract() -> (AcademyEnv, Address, Address, Address) {
    let contract = Address(100);
    let mut env = AcademyEnv::new(contract, 0);
    let admin = Address(1);
    let reward_token = Address(50);
    let governance = Address(2);
    AcademyVestingContract::init(&mut env, admin, reward_token, governance).unwrap();
    (env, admin, reward_token, governance)
}

#[test]
fn bench_token_transfer_optimized() {
    let (mut env, _admin) = setup_token_contract();
    let alice = Address(10);
    let bob = Address(11);
    let amount = 1000i128;
    TokenContract::mint(&mut env, alice, amount);
    TokenContract::transfer(&mut env, alice, bob, amount);
    assert_eq!(TokenContract::balance(&env, alice), 0);
    assert_eq!(TokenContract::balance(&env, bob), amount);
    assert_eq!(TokenContract::total_supply(&env), amount);
}

#[test]
fn bench_token_transfer_from_optimized() {
    let (mut env, _admin) = setup_token_contract();
    let alice = Address(10);
    let bob = Address(11);
    let spender = Address(12);
    let amount = 500i128;
    let allowance_amount = 1000i128;
    TokenContract::mint(&mut env, alice, allowance_amount);
    TokenContract::approve(&mut env, alice, spender, allowance_amount, 999999u32);
    TokenContract::transfer_from(&mut env, spender, alice, bob, amount);
    assert_eq!(TokenContract::balance(&env, alice), 500);
    assert_eq!(TokenContract::balance(&env, bob), 500);
    assert_eq!(TokenContract::allowance(&env, alice, spender), 500);
}

#[test]
fn bench_token_mint_optimized() {
    let (mut env, _admin) = setup_token_contract();
    let recipient = Address(13);
    let amount = 1000i128;
    TokenContract::mint(&mut env, recipient, amount);
    assert_eq!(TokenContract::balance(&env, recipient), amount);
    assert_eq!(TokenContract::total_supply(&env), amount);
}

#[test]
fn bench_vesting_grant_optimized() {
    let (mut env, admin, _reward_token, _governance) = setup_vesting_contract();
    let beneficiary = Address(20);
    let start_time = 1000u64;
    let cliff = 100u64;
    let duration = 1000u64;
    let amount = 1000i128;
    let id = AcademyVestingContract::grant_vesting(&mut env, admin, beneficiary, amount, start_time, cliff, duration).unwrap();
    assert_eq!(id, 1);
    let schedule = AcademyVestingContract::get_vesting(&env, id).unwrap();
    assert_eq!(schedule.amount, amount);
    assert_eq!(schedule.beneficiary, beneficiary);
}

#[test]
fn bench_vesting_claim_optimized() {
    let (mut env, admin, reward_token, _governance) = setup_vesting_contract();
    let beneficiary = Address(20);
    let start_time = 0u64;
    let cliff = 100u64;
    let duration = 1000u64;
    let amount = 1000i128;
    AcademyVestingContract::grant_vesting(&mut env, admin, beneficiary, amount, start_time, cliff, duration).unwrap();

    // The contract holds the whole grant in the reward token.
    let contract_balance = amount;
    env.timestamp = start_time + cliff + 500;

    let mut transfers: Vec<TokenTransfer> = Vec::new();
    let claimed = AcademyVestingContract::claim(&mut env, 1, beneficiary, contract_balance, &mut transfers).unwrap();
    // 500 of the 900 seconds after the cliff have passed.
    assert_eq!(claimed, 1000 * 500 / 900);
    assert_eq!(transfers.len(), 1);
    assert_eq!(transfers[0].token, reward_token);
    assert_eq!(transfers[0].to, beneficiary);
    assert_eq!(transfers[0].amount, claimed);
    assert!(AcademyVestingContract::get_vesting(&env, 1).unwrap().claimed);
}

#[test]
fn bench_vesting_revoke_optimized() {
    let (mut env, admin, _reward_token, _governance) = setup_vesting_contract();
    let beneficiary = Address(20);
    let start_time = 0u64;
    let cliff = 100u64;
    let duration = 1000u64;
    let amount = 1000i128;
    let revoke_delay = 3600u64;
    AcademyVestingContract::grant_vesting(&mut env, admin, beneficiary, amount, start_time, cliff, duration).unwrap();
    env.timestamp = start_time + revoke_delay + 100;
    AcademyVestingContract::revoke(&mut env, 1, admin, revoke_delay).unwrap();
    let schedule = AcademyVestingContract::get_vesting(&env, 1).unwrap();
    assert!(schedule.revoked);
    assert_eq!(schedule.revoke_time, start_time + revoke_delay + 100);
}

#[test]
fn bench_storage_read_write_patterns() {
    let mut individual: Store<i128> = Store::new();
    let test_key = 7u128;
    let test_value = 42i128;
    individual.set(test_key, test_value);
    assert_eq!(individual.get(test_key), Some(&test_value));

    let mut map: Store<i128> = Store::new();
    map.set(1, 1);
    map.set(2, 2);
    assert_eq!(map.len(), 2);
    assert_eq!(map.get(2), Some(&2));
    println!("Individual and map storage patterns read back what was written");
}

#[test]
fn comprehensive_gas_analysis() {
    println!("\n=== Comprehensive Gas Analysis ===");

    println!("\n--- Token Contract Operations ---");
    bench_token_transfer_optimized();
    bench_token_transfer_from_optimized();
    bench_token_mint_optimized();

    println!("\n--- Vesting Contract Operations ---");
    bench_vesting_grant_optimized();
    bench_vesting_claim_optimized();
    bench_vesting_revoke_optimized();

    println!("\n--- Storage Pattern Analysis ---");
    bench_storage_read_write_patterns();

    println!("\n=== Gas Analysis Complete ===");
}

#[test]
fn bench_grant_vesting() {
    let (mut env, admin, _reward_token, _governance) = setup_vesting_contract();
    let beneficiary = Address(20);
    let before = env.timestamp;
    let id = AcademyVestingContract::grant_vesting(&mut env, admin, beneficiary, 1000, 1000, 100, 1000).unwrap();
    let after = env.timestamp;
    println!("grant_vesting ledger time: {}", after - before);
    assert_eq!(AcademyVestingContract::get_vesting(&env, id).unwrap().amount, 1000);
}

#[test]
fn bench_claim() {
    let (mut env, admin, _reward_token, _governance) = setup_vesting_contract();
    let beneficiary = Address(20);
    let start_time = 0u64;
    let cliff = 100u64;
    let amount = 1000i128;
    let _ = AcademyVestingContract::grant_vesting(&mut env, admin, beneficiary, amount, start_time, cliff, 1000);
    env.timestamp = start_time + cliff + 500;
    let before = env.timestamp;
    let mut transfers: Vec<TokenTransfer> = Vec::new();
    let _ = AcademyVestingContract::claim(&mut env, 1, beneficiary, amount, &mut transfers);
    let after = env.timestamp;
    println!("claim ledger time: {}", after - before);
    assert!(AcademyVestingContract::get_vesting(&env, 1).unwrap().claimed);
}
