use stellara::common::Address;
use stellara::social_rewards::storage::{
    OptimizedReward, OptimizedRewardStats, SocialEnv, SocialRewardsStorage as S, SOCIAL_STORAGE_VERSION,
};

fn reward(id: u64, user: u64, amount: i128, claimed: bool) -> OptimizedReward {
    OptimizedReward {
        id,
        user: Address(user),
        amount,
        reward_type: "post".to_string(),
        reason: "good post".to_string(),
        granted_by: Address(1),
        granted_at: 100,
        claimed,
        claimed_at: 0,
    }
}

#[test]
fn social_reward_reads_back_and_is_indexed() {
    let mut env = SocialEnv::new();
    S::set_reward(&mut env, reward(1, 7, 50, false));
    S::set_reward(&mut env, reward(2, 7, 30, true));
    S::set_reward(&mut env, reward(3, 8, 10, false));
    let r = S::get_reward(&env, 1).unwrap();
    assert_eq!((r.id, r.amount, r.claimed), (1, 50, false));
    assert!(S::has_reward(&env, 3));
    assert!(!S::has_reward(&env, 4));
    assert_eq!(S::get_user_reward_ids(&env, Address(7)), vec![1, 2]);
    assert_eq!(S::get_user_reward_ids(&env, Address(9)), Vec::<u64>::new());
    assert_eq!(S::get_user_rewards(&env, Address(7)).len(), 2);
    assert_eq!(S::get_user_pending_rewards(&env, Address(7)).len(), 1);
    assert_eq!(S::get_pending_rewards_total(&env, Address(7)), 50);
    assert_eq!(S::get_unclaimed_reward_ids(&env), vec![1, 3]);
}

#[test]
fn social_claimed_reward_leaves_unclaimed_index() {
    let mut env = SocialEnv::new();
    S::set_reward(&mut env, reward(1, 7, 50, false));
    S::set_reward(&mut env, reward(2, 7, 20, false));
    S::update_reward(&mut env, reward(1, 7, 50, true));
    assert_eq!(S::get_unclaimed_reward_ids(&env), vec![2]);
    assert!(S::get_reward(&env, 1).unwrap().claimed);
    assert_eq!(S::get_pending_rewards_total(&env, Address(7)), 20);
}

#[test]
fn social_stats_count_rewards_and_claims() {
    let mut env = SocialEnv::new();
    assert_eq!(S::get_stats(&env), OptimizedRewardStats { total_rewards: 0, total_amount: 0, total_claimed: 0, last_reward_id: 0 });
    assert_eq!(S::increment_reward_stats(&mut env, 40), 1);
    assert_eq!(S::increment_reward_stats(&mut env, 60), 2);
    S::record_claim(&mut env, 40);
    let s = S::get_stats(&env);
    assert_eq!((s.total_rewards, s.total_amount, s.total_claimed, s.last_reward_id), (2, 100, 40, 2));
    S::set_reward(&mut env, reward(1, 7, 40, false));
    assert_eq!(S::get_storage_stats(&env), (2, 1, 2));
}

#[test]
fn social_migration_carries_legacy_records_once() {
    let mut env = SocialEnv::new();
    env.version = 1;
    env.legacy_admin = Some(Address(5));
    env.legacy_token = Some(Address(6));
    assert!(S::needs_migration(&env));
    assert!(S::has_legacy_data(&env));
    assert_eq!(S::migrate_storage(&mut env), 2);
    assert_eq!(S::get_version(&env), SOCIAL_STORAGE_VERSION);
    assert_eq!(S::get_admin(&env), Some(Address(5)));
    assert_eq!(S::get_token(&env), Some(Address(6)));
    assert!(!S::needs_migration(&env));
    assert_eq!(S::migrate_storage(&mut env), 0);
    assert_eq!(S::get_admin(&env), Some(Address(5)));
}

#[test]
fn social_unversioned_storage_is_stamped() {
    let mut env = SocialEnv::new();
    assert!(S::needs_migration(&env));
    assert_eq!(S::migrate_storage(&mut env), 0);
    assert_eq!(S::get_version(&env), SOCIAL_STORAGE_VERSION);
    assert_eq!(S::get_admin(&env), None);
}
