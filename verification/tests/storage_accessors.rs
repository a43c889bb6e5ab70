use stellara::common::Address;
use stellara::reward_distributor::distributor::{DistEnv, UserEligibility};
use stellara::reward_distributor::storage as dist_storage;
use stellara::token::nft::{self, NftMetadata, SemiFungibleToken};
use stellara::token::storage::TokenEnv;
use stellara::trading::contract::TradeStats;
use stellara::trading::stats::BatchResult;
use stellara::yield_farming::farming::{FarmEnv, FarmingPosition};
use stellara::yield_farming::storage as farm_storage;

#[test]
fn nft_records_read_back() {
    let mut env = TokenEnv::new(0);
    let owner = Address(3);
    assert_eq!(nft::get_nft_owner(&env, 1), None);
    nft::set_nft_owner(&mut env, 1, owner);
    assert_eq!(nft::get_nft_owner(&env, 1), Some(owner));
    nft::set_nft_metadata(
        &mut env,
        1,
        NftMetadata { token_id: 1, owner, uri: "ipfs://nft".to_string(), name: "My NFT".to_string(), description: "d".to_string() },
    );
    let m = nft::get_nft_metadata(&env, 1).unwrap();
    assert_eq!((m.name.as_str(), m.uri.as_str()), ("My NFT", "ipfs://nft"));
    nft::set_semi_fungible_token(&mut env, 2, SemiFungibleToken { token_id: 2, balance: 50, owner });
    assert_eq!(nft::get_semi_fungible_token(&env, 2).unwrap().balance, 50);
    nft::set_token_uri(&mut env, 2, "u".to_string());
    nft::set_token_name(&mut env, 2, "n".to_string());
    nft::set_token_description(&mut env, 2, "x".to_string());
    assert_eq!(nft::get_token_uri(&env, 2).as_deref(), Some("u"));
    assert_eq!(nft::get_token_name(&env, 2).as_deref(), Some("n"));
    assert_eq!(nft::get_token_description(&env, 2).as_deref(), Some("x"));
    assert_eq!(nft::get_owner_token_count(&env, owner), 0);
    nft::set_owner_token(&mut env, owner, 0, 1);
    nft::set_owner_token(&mut env, owner, 1, 2);
    nft::set_owner_token_count(&mut env, owner, 2);
    assert_eq!(nft::get_owner_token(&env, owner, 1), Some(2));
    assert_eq!(nft::get_owner_token(&env, owner, 2), None);
    assert_eq!(nft::get_owner_token_count(&env, owner), 2);
}

#[test]
fn trade_stats_checked_updates() {
    let mut stats = TradeStats { total_trades: 0, total_volume: 0, last_trade_id: 0 };
    assert_eq!(stats.increment_checked(100), Some(1));
    assert_eq!(stats.increment_checked(50), Some(2));
    assert_eq!((stats.total_trades, stats.total_volume, stats.last_trade_id), (2, 150, 2));
    assert!(stats.invariant_consistent());
    assert!(stats.invariant_volume_non_negative());
    let mut full = TradeStats { total_trades: 5, total_volume: i128::MAX, last_trade_id: 5 };
    assert_eq!(full.increment_checked(1), None);
    // The count was raised before the volume overflowed; the id was not.
    assert_eq!((full.total_trades, full.last_trade_id), (6, 5));
    assert!(!full.invariant_consistent());
    let mut at_max = TradeStats { total_trades: 0, total_volume: 0, last_trade_id: u64::MAX };
    assert_eq!(at_max.increment_checked(1), None);
    assert_eq!(at_max.total_trades, 0);
}

#[test]
fn batch_fee_total_checked() {
    let mut b = BatchResult { total_fees_collected: 10, successful_count: u32::MAX };
    assert!(b.add_fee_checked(5));
    assert_eq!((b.total_fees_collected, b.successful_count), (15, u32::MAX));
    let mut near = BatchResult { total_fees_collected: i128::MAX - 1, successful_count: 0 };
    assert!(!near.add_fee_checked(2));
    assert_eq!((near.total_fees_collected, near.successful_count), (i128::MAX - 1, 0));
    assert!(near.invariant_fees_non_negative());
}

#[test]
fn distributor_and_farm_storage_read_back() {
    let mut d = DistEnv::new(Address(800), 0);
    assert!(!dist_storage::has_admin(&d));
    dist_storage::set_admin(&mut d, Address(1));
    assert_eq!(dist_storage::get_admin(&d), Address(1));
    dist_storage::set_next_rule_id(&mut d, 4);
    dist_storage::set_next_batch_id(&mut d, 5);
    dist_storage::set_next_distribution_id(&mut d, 6);
    assert_eq!((dist_storage::get_next_rule_id(&d), dist_storage::get_next_batch_id(&d), dist_storage::get_next_distribution_id(&d)), (4, 5, 6));
    let e = UserEligibility { user: Address(9), rule_id: 4, is_eligible: true, last_check_time: 0, multiplier: 10_000 };
    dist_storage::set_user_eligibility(&mut d, (4, Address(9)), e);
    assert_eq!(dist_storage::get_user_eligibility(&d, (4, Address(9))), Some(e));
    assert_eq!(dist_storage::get_user_eligibility(&d, (5, Address(9))), None);
    assert!(dist_storage::get_distribution_rule(&d, 4).is_none());
    assert!(dist_storage::get_distribution_batch(&d, 1).is_none());
    assert!(dist_storage::get_distribution_record(&d, 1).is_none());

    let mut f = FarmEnv::new(Address(700), 0);
    farm_storage::set_admin(&mut f, Address(1));
    assert!(farm_storage::has_admin(&f));
    farm_storage::set_next_pool_id(&mut f, 3);
    assert_eq!(farm_storage::get_next_pool_id(&f), 3);
    let pos = FarmingPosition { user: Address(9), lp_amount: 10, stake_time: 0, last_reward_time: 0, bonus_multiplier: 10_000, lock_expiry: 0, reward_debt: 0 };
    farm_storage::set_farming_position(&mut f, (3, Address(9)), pos);
    assert!(farm_storage::has_farming_position(&f, (3, Address(9))));
    assert_eq!(farm_storage::get_farming_position(&f, (3, Address(9))), Some(pos));
    farm_storage::remove_farming_position(&mut f, (3, Address(9)));
    assert!(!farm_storage::has_farming_position(&f, (3, Address(9))));
    assert!(farm_storage::get_farming_pool(&f, 3).is_none());
}
