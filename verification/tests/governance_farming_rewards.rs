use stellara::common::{Address, TokenTransfer};
use stellara::governance::contract::{div_toward_zero, GovEnv, GovernanceConfig, GovernanceContract, ProposalState};
use stellara::reward_distributor::distributor::{ConditionType, DistEnv, DistributionError, RewardDistributor};
use stellara::yield_farming::farming::{FarmEnv, FarmingError, YieldFarmingContract};

// ─── governance ──────────────────────────────────────────────────────────────

const GOV_ADMIN: Address = Address(1);

fn gov() -> GovEnv {
    let mut env = GovEnv::new(100);
    let config = GovernanceConfig { voting_delay: 10, voting_period: 100, timelock_delay: 50, quorum_bps: 400, threshold_bps: 5_000, proposal_threshold: 100 };
    GovernanceContract::initialize(&mut env, GOV_ADMIN, config, 10_000);
    env
}

#[test]
fn governance_div_toward_zero() {
    assert_eq!(div_toward_zero(7, 2), 3);
    assert_eq!(div_toward_zero(-7, 2), -3);
    assert_eq!(div_toward_zero(7, -2), -3);
    assert_eq!(div_toward_zero(-7, -2), 3);
}

#[test]
fn governance_proposal_lifecycle() {
    let mut env = gov();
    let alice = Address(10);
    let bob = Address(11);
    GovernanceContract::set_voting_power(&mut env, alice, 600);
    GovernanceContract::set_voting_power(&mut env, bob, 300);
    assert_eq!(GovernanceContract::get_votes(&env, alice), 600);
    let id = GovernanceContract::propose(&mut env, alice, "Raise fees".to_string(), "d".to_string(), vec![]);
    assert_eq!(id, 1);
    assert_eq!(GovernanceContract::proposal_count(&env), 1);
    assert_eq!(GovernanceContract::get_proposal_state(&env, id), ProposalState::Pending);
    env.ledger = 110;
    assert_eq!(GovernanceContract::get_proposal_state(&env, id), ProposalState::Active);
    GovernanceContract::cast_vote(&mut env, alice, id, 1);
    GovernanceContract::cast_vote(&mut env, bob, id, 0);
    let receipt = GovernanceContract::get_vote_receipt(&env, id, bob);
    assert!(receipt.has_voted);
    assert_eq!((receipt.support, receipt.votes), (0, 300));
    let p = GovernanceContract::get_proposal(&env, id);
    assert_eq!((p.for_votes, p.against_votes), (600, 300));
    env.ledger = 211;
    // 900 of 10 000 votes clear the 4% quorum; 600 of 900 decisive votes clear 50%.
    assert_eq!(GovernanceContract::get_proposal_state(&env, id), ProposalState::Succeeded);
    GovernanceContract::queue(&mut env, alice, id);
    let queued = GovernanceContract::get_proposal(&env, id);
    assert_eq!(queued.eta_ledger, 261);
    env.ledger = 261;
    GovernanceContract::execute(&mut env, alice, id);
    assert_eq!(GovernanceContract::get_proposal_state(&env, id), ProposalState::Executed);
}

#[test]
fn governance_defeat_and_delegation() {
    let mut env = gov();
    let alice = Address(10);
    let carol = Address(12);
    GovernanceContract::set_voting_power(&mut env, alice, 200);
    GovernanceContract::delegate(&mut env, carol, alice);
    assert_eq!(GovernanceContract::get_delegate(&env, carol), alice);
    let id = GovernanceContract::propose(&mut env, alice, "t".to_string(), "d".to_string(), vec![]);
    env.ledger = 110;
    GovernanceContract::cast_vote(&mut env, alice, id, 1);
    env.ledger = 300;
    // 200 votes are below the 400-vote quorum.
    assert_eq!(GovernanceContract::get_proposal_state(&env, id), ProposalState::Defeated);
    let id2 = GovernanceContract::propose(&mut env, alice, "t2".to_string(), "d".to_string(), vec![]);
    GovernanceContract::cancel_proposal(&mut env, alice, id2);
    assert_eq!(GovernanceContract::get_proposal_state(&env, id2), ProposalState::Cancelled);
    GovernanceContract::transfer_admin(&mut env, Address(2));
    assert_eq!(GovernanceContract::get_admin(&env), Address(2));
}

// ─── yield farming ───────────────────────────────────────────────────────────

const FARM: Address = Address(700);
const LP: Address = Address(701);
const REWARD: Address = Address(702);

fn farm() -> (FarmEnv, u32) {
    let mut env = FarmEnv::new(FARM, 0);
    let pool = YieldFarmingContract::initialize(&mut env, GOV_ADMIN, LP, REWARD, 1_000_000_000, 0, 1, 3, 1_000_000_000).unwrap();
    (env, pool)
}

#[test]
fn farming_bonus_multiplier_values() {
    let (mut env, pool_id) = farm();
    assert_eq!(
        YieldFarmingContract::add_pool(&mut env, GOV_ADMIN, LP, REWARD, -1, 0, 1, 3, 1),
        Err(FarmingError::InvalidPoolConfig)
    );
    let mut pool = YieldFarmingContract::get_pool_info(&env, pool_id).unwrap();
    pool.max_multiplier = 300;
    assert_eq!(YieldFarmingContract::calculate_bonus_multiplier(&pool, 0, 0), Ok(10_000));
    assert_eq!(YieldFarmingContract::calculate_bonus_multiplier(&pool, 2_592_000, 0), Ok(12_000));
    assert_eq!(YieldFarmingContract::calculate_bonus_multiplier(&pool, 7_776_000, 0), Ok(15_000));
    assert_eq!(YieldFarmingContract::calculate_bonus_multiplier(&pool, 15_552_000, 0), Ok(20_000));
    assert_eq!(YieldFarmingContract::calculate_bonus_multiplier(&pool, 31_536_000, 0), Ok(30_000));
    pool.decay_period = 100;
    // Three decay periods take 30% off.
    assert_eq!(YieldFarmingContract::calculate_bonus_multiplier(&pool, 31_536_000, 300), Ok(21_000));
    pool.max_multiplier = 150;
    assert_eq!(YieldFarmingContract::calculate_bonus_multiplier(&pool, 31_536_000, 0), Ok(15_000));
}

#[test]
fn farming_start_and_end() {
    let (mut env, pool_id) = farm();
    let user = Address(20);
    let mut transfers: Vec<TokenTransfer> = Vec::new();
    assert_eq!(
        YieldFarmingContract::start_farming(&mut env, user, pool_id, 100, None, 50, &mut transfers),
        Err(FarmingError::InsufficientBalance)
    );
    assert_eq!(YieldFarmingContract::start_farming(&mut env, user, pool_id, 0, None, 50, &mut transfers), Err(FarmingError::InvalidAmount));
    YieldFarmingContract::start_farming(&mut env, user, pool_id, 100, None, 100, &mut transfers).unwrap();
    assert_eq!(transfers, vec![TokenTransfer { token: LP, from: user, to: FARM, amount: 100 }]);
    assert_eq!(YieldFarmingContract::get_pool_info(&env, pool_id).unwrap().total_lp_staked, 100);
    env.timestamp = 100;
    // One reward unit per LP token per second.
    let pending = YieldFarmingContract::get_pending_rewards(&env, user, pool_id).unwrap();
    assert_eq!(pending.base_rewards, 10_000);
    let paid = YieldFarmingContract::end_farming(&mut env, user, pool_id, &mut transfers).unwrap();
    assert_eq!(paid, 10_000);
    assert_eq!(transfers[1], TokenTransfer { token: LP, from: FARM, to: user, amount: 100 });
    assert_eq!(transfers[2], TokenTransfer { token: REWARD, from: FARM, to: user, amount: 10_000 });
    assert_eq!(YieldFarmingContract::get_position(&env, user, pool_id), Err(FarmingError::PositionNotFound));
    assert_eq!(YieldFarmingContract::get_pool_info(&env, pool_id).unwrap().total_lp_staked, 0);
}

#[test]
fn farming_lock_and_emergency() {
    let (mut env, pool_id) = farm();
    let user = Address(20);
    let mut transfers: Vec<TokenTransfer> = Vec::new();
    YieldFarmingContract::start_farming(&mut env, user, pool_id, 100, Some(1_000), 100, &mut transfers).unwrap();
    env.timestamp = 10;
    assert_eq!(YieldFarmingContract::end_farming(&mut env, user, pool_id, &mut transfers), Err(FarmingError::LockPeriodNotMet));
    assert_eq!(YieldFarmingContract::set_emergency_withdrawal(&mut env, GOV_ADMIN, 9, true), Err(FarmingError::PoolNotFound));
    YieldFarmingContract::set_emergency_withdrawal(&mut env, GOV_ADMIN, pool_id, true).unwrap();
    assert!(YieldFarmingContract::end_farming(&mut env, user, pool_id, &mut transfers).is_ok());
    assert_eq!(
        YieldFarmingContract::start_farming(&mut env, user, pool_id, 100, None, 100, &mut transfers),
        Err(FarmingError::EmergencyMode)
    );
    assert_eq!(YieldFarmingContract::get_pool_info(&env, 9), Err(FarmingError::PoolNotFound));
}

// ─── reward distributor ──────────────────────────────────────────────────────

const DIST: Address = Address(800);
const RTOKEN: Address = Address(801);

fn dist() -> (DistEnv, u32) {
    let mut env = DistEnv::new(DIST, 50);
    RewardDistributor::initialize(&mut env, GOV_ADMIN).unwrap();
    let rule = RewardDistributor::create_rule(&mut env, GOV_ADMIN, "referral".to_string(), ConditionType::ActivityBased, RTOKEN, 1_000, 10, 0, None).unwrap();
    (env, rule)
}

#[test]
fn distributor_rules_and_manual() {
    let (mut env, rule) = dist();
    assert_eq!(rule, 1);
    assert_eq!(RewardDistributor::initialize(&mut env, GOV_ADMIN), Err(DistributionError::NotInitialized));
    assert_eq!(
        RewardDistributor::create_rule(&mut env, GOV_ADMIN, "bad".to_string(), ConditionType::Custom, RTOKEN, 0, 10, 0, None),
        Err(DistributionError::InvalidAmount)
    );
    let mut transfers: Vec<TokenTransfer> = Vec::new();
    assert_eq!(
        RewardDistributor::manual_distribute(&mut env, GOV_ADMIN, rule, vec![Address(30)], vec![], 1_000, &mut transfers),
        Err(DistributionError::InvalidAmount)
    );
    // Each payment must fit what the contract still holds.
    RewardDistributor::manual_distribute(&mut env, GOV_ADMIN, rule, vec![Address(30), Address(31), Address(32)], vec![600, 500, 0], 1_000, &mut transfers).unwrap();
    assert_eq!(transfers, vec![TokenTransfer { token: RTOKEN, from: DIST, to: Address(30), amount: 600 }]);
    let record = RewardDistributor::get_distribution(&env, 1).unwrap();
    assert_eq!((record.recipient, record.amount, record.timestamp), (Address(30), 600, 50));
    assert_eq!(RewardDistributor::get_distribution(&env, 2).err(), Some(DistributionError::DistributionFailed));
}

#[test]
fn distributor_batch_pays_eligible_users() {
    let (mut env, rule) = dist();
    let u1 = Address(30);
    let u2 = Address(31);
    RewardDistributor::update_eligibility(&mut env, GOV_ADMIN, u1, rule, true, None).unwrap();
    RewardDistributor::update_eligibility(&mut env, GOV_ADMIN, u2, rule, true, Some(15_000)).unwrap();
    assert_eq!(RewardDistributor::get_eligibility(&env, u2, rule).unwrap().multiplier, 15_000);
    assert_eq!(RewardDistributor::create_batch(&mut env, GOV_ADMIN, rule, vec![Address(1); 11]), Err(DistributionError::MaxDistributionsReached));
    let batch = RewardDistributor::create_batch(&mut env, GOV_ADMIN, rule, vec![u1, u2]).unwrap();
    assert_eq!(RewardDistributor::get_batch(&env, batch).unwrap().total_amount, 2_000);
    let mut transfers: Vec<TokenTransfer> = Vec::new();
    RewardDistributor::process_batch(&mut env, GOV_ADMIN, batch, 3_000, &mut transfers).unwrap();
    let total: i128 = transfers.iter().map(|t| t.amount).sum();
    assert_eq!(total, 2_500);
    assert!(transfers.iter().any(|t| t.to == u2 && t.amount == 1_500));
    assert_eq!(RewardDistributor::get_rule(&env, rule).unwrap().current_distributions, 2);
    assert_eq!(RewardDistributor::process_batch(&mut env, GOV_ADMIN, batch, 3_000, &mut transfers), Err(DistributionError::DistributionFailed));
}

#[test]
fn farming_claim_twice_pays_once() {
    let (mut env, pool_id) = farm();
    let user = Address(21);
    let mut transfers: Vec<TokenTransfer> = Vec::new();
    YieldFarmingContract::start_farming(&mut env, user, pool_id, 50, None, 50, &mut transfers).unwrap();
    env.timestamp = 10;
    assert_eq!(YieldFarmingContract::claim_rewards(&mut env, user, pool_id, &mut transfers), Ok(500));
    assert_eq!(YieldFarmingContract::claim_rewards(&mut env, user, pool_id, &mut transfers), Ok(0));
    assert_eq!(transfers.len(), 2);
    assert_eq!(transfers[1], TokenTransfer { token: REWARD, from: FARM, to: user, amount: 500 });
    assert_eq!(YieldFarmingContract::get_position(&env, user, pool_id).unwrap().last_reward_time, 10);
}

#[test]
fn farming_unstake_undoes_stake() {
    let (mut env, pool_id) = farm();
    let user = Address(22);
    let mut transfers: Vec<TokenTransfer> = Vec::new();
    let before = YieldFarmingContract::get_pool_info(&env, pool_id).unwrap();
    YieldFarmingContract::start_farming(&mut env, user, pool_id, 70, Some(0), 70, &mut transfers).unwrap();
    YieldFarmingContract::end_farming(&mut env, user, pool_id, &mut transfers).unwrap();
    assert_eq!(YieldFarmingContract::get_pool_info(&env, pool_id).unwrap(), before);
    assert_eq!(transfers, vec![
        TokenTransfer { token: LP, from: user, to: FARM, amount: 70 },
        TokenTransfer { token: LP, from: FARM, to: user, amount: 70 },
    ]);
}
