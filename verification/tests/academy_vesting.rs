use stellara::academy::storage::{AcademyDataKey, AcademyEnv};
use stellara::social_rewards::storage::SocialRewardsDataKey;
use stellara::trading::storage::TradingDataKey;
use stellara::academy::vesting::{AcademyVestingContract, BatchClaimRequest, BatchVestingRequest, VestingError};
use stellara::common::{Address, TokenTransfer};

const CONTRACT: Address = Address(100);
const TOKEN: Address = Address(50);

fn setup_env() -> (AcademyEnv, Address, Address, Address) {
    let env = AcademyEnv::new(CONTRACT, 1000);
    (env, Address(1), Address(20), Address(2))
}

fn paid_to(transfers: &[TokenTransfer], who: Address) -> i128 {
    transfers.iter().filter(|t| t.to == who).map(|t| t.amount).sum()
}

#[test]
fn tests_test_init_and_get_info() {
    let (mut env, admin, _beneficiary, governance) = setup_env();
    AcademyVestingContract::init(&mut env, admin, TOKEN, governance).unwrap();
    let (stored_admin, stored_token, stored_gov) = AcademyVestingContract::get_info(&env).unwrap();
    assert_eq!(stored_admin, admin);
    assert_eq!(stored_token, TOKEN);
    assert_eq!(stored_gov, governance);
}

#[test]
fn tests_test_init_twice_fails() {
    let (mut env, admin, _beneficiary, governance) = setup_env();
    AcademyVestingContract::init(&mut env, admin, TOKEN, governance).unwrap();
    let result = AcademyVestingContract::init(&mut env, admin, TOKEN, governance);
    assert_eq!(result, Err(VestingError::Unauthorized));
}

#[test]
fn test_get_info_before_init_fails() {
    let (env, _admin, _beneficiary, _governance) = setup_env();
    assert_eq!(AcademyVestingContract::get_info(&env), Err(VestingError::Unauthorized));
}

#[test]
fn test_grant_vesting_happy_path() {
    let (mut env, admin, beneficiary, governance) = setup_env();
    AcademyVestingContract::init(&mut env, admin, TOKEN, governance).unwrap();
    let grant_id = AcademyVestingContract::grant_vesting(&mut env, admin, beneficiary, 1000, 0, 100, 1000).unwrap();
    assert_eq!(grant_id, 1);
    let schedule = AcademyVestingContract::get_vesting(&env, grant_id).unwrap();
    assert_eq!(schedule.beneficiary, beneficiary);
    assert_eq!(schedule.amount, 1000);
    assert_eq!(schedule.cliff, 100);
    assert_eq!(schedule.duration, 1000);
    assert!(!schedule.claimed);
    assert!(!schedule.revoked);
}

#[test]
fn test_grant_vesting_invalid_schedule() {
    let (mut env, admin, beneficiary, governance) = setup_env();
    AcademyVestingContract::init(&mut env, admin, TOKEN, governance).unwrap();
    let negative = AcademyVestingContract::grant_vesting(&mut env, admin, beneficiary, -1, 0, 10, 100);
    assert_eq!(negative, Err(VestingError::InvalidSchedule));
    let bad_cliff = AcademyVestingContract::grant_vesting(&mut env, admin, beneficiary, 1000, 0, 200, 100);
    assert_eq!(bad_cliff, Err(VestingError::InvalidSchedule));
}

#[test]
fn test_grant_vesting_non_admin_fails() {
    let (mut env, admin, beneficiary, governance) = setup_env();
    AcademyVestingContract::init(&mut env, admin, TOKEN, governance).unwrap();
    let non_admin = Address(30);
    let result = AcademyVestingContract::grant_vesting(&mut env, non_admin, beneficiary, 1000, 0, 10, 100);
    assert_eq!(result, Err(VestingError::Unauthorized));
}

#[test]
fn test_claim_success_transfers_tokens() {
    let (mut env, admin, beneficiary, governance) = setup_env();
    AcademyVestingContract::init(&mut env, admin, TOKEN, governance).unwrap();
    let grant_id = AcademyVestingContract::grant_vesting(&mut env, admin, beneficiary, 500, 0, 0, 100).unwrap();
    // The contract holds 500 of the reward token.
    let contract_balance = 500i128;
    env.timestamp = 200;
    let mut transfers = Vec::new();
    let claimed = AcademyVestingContract::claim(&mut env, grant_id, beneficiary, contract_balance, &mut transfers).unwrap();
    assert_eq!(claimed, 500);
    assert_eq!(contract_balance - paid_to(&transfers, beneficiary), 0);
    assert_eq!(paid_to(&transfers, beneficiary), 500);
    assert!(transfers.iter().all(|t| t.from == CONTRACT && t.token == TOKEN));
    let schedule = AcademyVestingContract::get_vesting(&env, grant_id).unwrap();
    assert!(schedule.claimed);
}

#[test]
fn test_claim_insufficient_balance() {
    let (mut env, admin, beneficiary, governance) = setup_env();
    AcademyVestingContract::init(&mut env, admin, TOKEN, governance).unwrap();
    let grant_id = AcademyVestingContract::grant_vesting(&mut env, admin, beneficiary, 500, 0, 0, 100).unwrap();
    env.timestamp = 200;
    let mut transfers = Vec::new();
    let result = AcademyVestingContract::claim(&mut env, grant_id, beneficiary, 0, &mut transfers);
    assert_eq!(result, Err(VestingError::InsufficientBalance));
    assert!(transfers.is_empty());
}

#[test]
fn test_claim_wrong_beneficiary_fails() {
    let (mut env, admin, beneficiary, governance) = setup_env();
    AcademyVestingContract::init(&mut env, admin, TOKEN, governance).unwrap();
    let other = Address(31);
    let grant_id = AcademyVestingContract::grant_vesting(&mut env, admin, beneficiary, 500, 0, 0, 100).unwrap();
    env.timestamp = 200;
    let mut transfers = Vec::new();
    let result = AcademyVestingContract::claim(&mut env, grant_id, other, 0, &mut transfers);
    assert_eq!(result, Err(VestingError::Unauthorized));
}

#[test]
fn test_claim_already_claimed_fails() {
    let (mut env, admin, beneficiary, governance) = setup_env();
    AcademyVestingContract::init(&mut env, admin, TOKEN, governance).unwrap();
    let grant_id = AcademyVestingContract::grant_vesting(&mut env, admin, beneficiary, 500, 0, 0, 100).unwrap();
    env.timestamp = 200;
    let mut transfers = Vec::new();
    let _ = AcademyVestingContract::claim(&mut env, grant_id, beneficiary, 500, &mut transfers);
    let result = AcademyVestingContract::claim(&mut env, grant_id, beneficiary, 0, &mut transfers);
    assert_eq!(result, Err(VestingError::AlreadyClaimed));
}

#[test]
fn test_claim_not_vested_fails() {
    let (mut env, admin, beneficiary, governance) = setup_env();
    AcademyVestingContract::init(&mut env, admin, TOKEN, governance).unwrap();
    let grant_id = AcademyVestingContract::grant_vesting(&mut env, admin, beneficiary, 500, 1000, 500, 2000).unwrap();
    env.timestamp = 1200;
    let mut transfers = Vec::new();
    let result = AcademyVestingContract::claim(&mut env, grant_id, beneficiary, 500, &mut transfers);
    assert_eq!(result, Err(VestingError::NotVested));
}

#[test]
fn test_revoke_success_and_failure_paths() {
    let (mut env, admin, beneficiary, governance) = setup_env();
    AcademyVestingContract::init(&mut env, admin, TOKEN, governance).unwrap();
    let non_admin = Address(32);
    let grant_id = AcademyVestingContract::grant_vesting(&mut env, admin, beneficiary, 500, 0, 0, 100).unwrap();
    let invalid_timelock = AcademyVestingContract::revoke(&mut env, grant_id, admin, 100);
    assert_eq!(invalid_timelock, Err(VestingError::InvalidTimelock));
    env.timestamp = 100;
    let too_early = AcademyVestingContract::revoke(&mut env, grant_id, admin, 3600);
    assert_eq!(too_early, Err(VestingError::NotEnoughTimeForRevoke));
    let unauthorized = AcademyVestingContract::revoke(&mut env, grant_id, non_admin, 3600);
    assert_eq!(unauthorized, Err(VestingError::Unauthorized));
    env.timestamp = 4000;
    let _ = AcademyVestingContract::revoke(&mut env, grant_id, admin, 3600);
    let revoked_again = AcademyVestingContract::revoke(&mut env, grant_id, admin, 3600);
    assert_eq!(revoked_again, Err(VestingError::Revoked));
}

#[test]
fn test_get_vesting_and_vested_amount_errors() {
    let (mut env, admin, _beneficiary, governance) = setup_env();
    AcademyVestingContract::init(&mut env, admin, TOKEN, governance).unwrap();
    assert!(matches!(AcademyVestingContract::get_vesting(&env, 999), Err(VestingError::GrantNotFound)));
    assert!(matches!(AcademyVestingContract::get_vested_amount(&env, 999), Err(VestingError::GrantNotFound)));
}

#[test]
fn test_batch_grant_vesting_happy_path() {
    let (mut env, admin, beneficiary1, governance) = setup_env();
    let beneficiary2 = Address(21);
    AcademyVestingContract::init(&mut env, admin, TOKEN, governance).unwrap();
    let requests = vec![
        BatchVestingRequest { beneficiary: beneficiary1, amount: 1000, start_time: 0, cliff: 100, duration: 1000 },
        BatchVestingRequest { beneficiary: beneficiary2, amount: 2000, start_time: 0, cliff: 200, duration: 2000 },
    ];
    let result = AcademyVestingContract::batch_grant_vesting(&mut env, admin, requests).unwrap();
    assert_eq!(result.successful_grants.len(), 2);
    assert_eq!(result.failed_grants.len(), 2);
    assert_eq!(result.total_amount_granted, 3000);
    let schedule1 = AcademyVestingContract::get_vesting(&env, 1).unwrap();
    assert_eq!(schedule1.beneficiary, beneficiary1);
    assert_eq!(schedule1.amount, 1000);
    let schedule2 = AcademyVestingContract::get_vesting(&env, 2).unwrap();
    assert_eq!(schedule2.beneficiary, beneficiary2);
    assert_eq!(schedule2.amount, 2000);
}

#[test]
fn test_batch_grant_vesting_size_limit() {
    let (mut env, admin, beneficiary, governance) = setup_env();
    AcademyVestingContract::init(&mut env, admin, TOKEN, governance).unwrap();
    let requests: Vec<BatchVestingRequest> = (0..26)
        .map(|_| BatchVestingRequest { beneficiary, amount: 100, start_time: 0, cliff: 10, duration: 100 })
        .collect();
    let result = AcademyVestingContract::batch_grant_vesting(&mut env, admin, requests);
    assert!(result.is_err());
}

#[test]
fn test_batch_grant_vesting_partial_failures() {
    let (mut env, admin, beneficiary1, governance) = setup_env();
    let beneficiary2 = Address(21);
    AcademyVestingContract::init(&mut env, admin, TOKEN, governance).unwrap();
    let requests = vec![
        BatchVestingRequest { beneficiary: beneficiary1, amount: 1000, start_time: 0, cliff: 100, duration: 1000 },
        BatchVestingRequest { beneficiary: beneficiary2, amount: 2000, start_time: 0, cliff: 200, duration: 100 },
    ];
    let result = AcademyVestingContract::batch_grant_vesting(&mut env, admin, requests).unwrap();
    assert_eq!(result.successful_grants.len(), 1);
    assert_eq!(result.failed_grants.len(), 2);
    assert_eq!(result.total_amount_granted, 1000);
    let schedule1 = AcademyVestingContract::get_vesting(&env, 1).unwrap();
    assert_eq!(schedule1.beneficiary, beneficiary1);
    assert_eq!(schedule1.amount, 1000);
    assert!(AcademyVestingContract::get_vesting(&env, 2).is_err());
}

#[test]
fn test_batch_claim_happy_path() {
    let (mut env, admin, beneficiary1, governance) = setup_env();
    let beneficiary2 = Address(21);
    AcademyVestingContract::init(&mut env, admin, TOKEN, governance).unwrap();
    let contract_balance = 5000i128;
    let grant_id1 = AcademyVestingContract::grant_vesting(&mut env, admin, beneficiary1, 1000, 0, 0, 1000).unwrap();
    let grant_id2 = AcademyVestingContract::grant_vesting(&mut env, admin, beneficiary2, 2000, 0, 0, 2000).unwrap();
    env.timestamp = 3000;
    let requests = vec![
        BatchClaimRequest { grant_id: grant_id1, beneficiary: beneficiary1 },
        BatchClaimRequest { grant_id: grant_id2, beneficiary: beneficiary2 },
    ];
    let mut transfers = Vec::new();
    let results = AcademyVestingContract::batch_claim(&mut env, requests, contract_balance, &mut transfers).unwrap();
    assert_eq!(results.len(), 2);
    assert!(results[0].success);
    assert!(results[1].success);
    assert_eq!(results[0].amount_claimed, Some(1000));
    assert_eq!(results[1].amount_claimed, Some(2000));
    assert_eq!(paid_to(&transfers, beneficiary1), 1000);
    assert_eq!(paid_to(&transfers, beneficiary2), 2000);
}

#[test]
fn test_batch_claim_size_limit() {
    let (mut env, admin, beneficiary, governance) = setup_env();
    AcademyVestingContract::init(&mut env, admin, TOKEN, governance).unwrap();
    for _ in 1..=21 {
        AcademyVestingContract::grant_vesting(&mut env, admin, beneficiary, 100, 0, 0, 100).unwrap();
    }
    env.timestamp = 1000;
    let requests: Vec<BatchClaimRequest> = (1..=21).map(|i| BatchClaimRequest { grant_id: i, beneficiary }).collect();
    let mut transfers = Vec::new();
    let result = AcademyVestingContract::batch_claim(&mut env, requests, 50000, &mut transfers);
    assert!(result.is_err());
}

#[test]
fn test_batch_claim_partial_failures() {
    let (mut env, admin, beneficiary1, governance) = setup_env();
    let beneficiary2 = Address(21);
    AcademyVestingContract::init(&mut env, admin, TOKEN, governance).unwrap();
    let contract_balance = 1500i128;
    let grant_id1 = AcademyVestingContract::grant_vesting(&mut env, admin, beneficiary1, 1000, 0, 0, 1000).unwrap();
    let grant_id2 = AcademyVestingContract::grant_vesting(&mut env, admin, beneficiary2, 2000, 0, 0, 2000).unwrap();
    env.timestamp = 3000;
    let requests = vec![
        BatchClaimRequest { grant_id: grant_id1, beneficiary: beneficiary1 },
        BatchClaimRequest { grant_id: grant_id2, beneficiary: beneficiary2 },
    ];
    let mut transfers = Vec::new();
    let results = AcademyVestingContract::batch_claim(&mut env, requests, contract_balance, &mut transfers).unwrap();
    assert_eq!(results.len(), 2);
    assert!(results[0].success);
    assert!(!results[1].success);
    assert_eq!(results[0].amount_claimed, Some(1000));
    assert_eq!(results[1].amount_claimed, None);
    assert_eq!(paid_to(&transfers, beneficiary1), 1000);
    assert_eq!(paid_to(&transfers, beneficiary2), 0);
}

#[test]
fn test_grant_and_claim_regression() {
    let (mut env, admin, beneficiary, governance) = setup_env();
    AcademyVestingContract::init(&mut env, admin, TOKEN, governance).unwrap();
    let grant_id = AcademyVestingContract::grant_vesting(&mut env, admin, beneficiary, 1000, 0, 0, 1000).unwrap();
    let contract_balance = 1000i128;
    env.timestamp = 1000;
    let mut transfers = Vec::new();
    let _ = AcademyVestingContract::claim(&mut env, grant_id, beneficiary, contract_balance, &mut transfers);
    let schedule = AcademyVestingContract::get_vesting(&env, grant_id).unwrap();
    assert!(schedule.claimed);
}

#[test]
fn storage_test_data_key_variants() {
    match AcademyDataKey::Init {
        AcademyDataKey::Init => (),
        _ => panic!("Expected Init"),
    }
    match AcademyDataKey::Counter {
        AcademyDataKey::Counter => (),
        _ => panic!("Expected Counter"),
    }
    match AcademyDataKey::Schedule(1) {
        AcademyDataKey::Schedule(id) => assert_eq!(id, 1),
        _ => panic!("Expected Schedule"),
    }
    match AcademyDataKey::ScheduleV2(42) {
        AcademyDataKey::ScheduleV2(id) => assert_eq!(id, 42),
        _ => panic!("Expected ScheduleV2"),
    }
    match SocialRewardsDataKey::Init {
        SocialRewardsDataKey::Init => (),
        _ => panic!("Expected Init"),
    }
    match SocialRewardsDataKey::Stats {
        SocialRewardsDataKey::Stats => (),
        _ => panic!("Expected Stats"),
    }
    match SocialRewardsDataKey::Reward(1) {
        SocialRewardsDataKey::Reward(id) => assert_eq!(id, 1),
        _ => panic!("Expected Reward"),
    }
    match TradingDataKey::Init {
        TradingDataKey::Init => (),
        _ => panic!("Expected Init"),
    }
    match TradingDataKey::Stats {
        TradingDataKey::Stats => (),
        _ => panic!("Expected Stats"),
    }
    match TradingDataKey::Trade(1) {
        TradingDataKey::Trade(id) => assert_eq!(id, 1),
        _ => panic!("Expected Trade"),
    }
}
