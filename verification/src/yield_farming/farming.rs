//! The yield farming contract and its storage.

use vstd::prelude::*;
use crate::common::{Address, TokenTransfer, pair_key, spec_pair_key};
use crate::store::Store;
use crate::bridge::security::trunc_div;
use crate::governance::contract::tdiv;

verus! {

/// Seconds in a (365-day) year.
pub const SECONDS_PER_YEAR: u64 = 31_536_000;
/// Scale of per-second reward rates.
pub const RATE_SCALE: i128 = 1_000_000_000;

#[derive(Clone, Copy, Debug, PartialEq, Eq, Structural)]
pub struct FarmingPool {
    pub lp_token: Address,
    pub reward_token: Address,
    pub total_lp_staked: i128,
    pub reward_rate: i128,
    pub bonus_rate: i128,
    pub lock_period: u64,
    pub max_multiplier: u32,
    pub decay_period: u64,
    pub emergency_withdrawal: bool,
}

#[derive(Clone, Copy, Debug, PartialEq, Eq, Structural)]
pub struct FarmingPosition {
    pub user: Address,
    pub lp_amount: i128,
    pub stake_time: u64,
    pub last_reward_time: u64,
    pub bonus_multiplier: u32,
    pub lock_expiry: u64,
    pub reward_debt: i128,
}

/// Rewards of a position: base, bonus, their total, what is still to be
/// paid, and the annualized rate in basis points.
#[derive(Clone, Copy, Debug, PartialEq, Eq, Structural)]
pub struct FarmingRewards {
    pub base_rewards: i128,
    pub bonus_rewards: i128,
    pub total_rewards: i128,
    pub pending_rewards: i128,
    pub apr: u32,
}

#[derive(Clone, Copy, Debug, PartialEq, Eq, Structural)]
pub struct LiquidityPoolInfo {
    pub token_a: Address,
    pub token_b: Address,
    pub lp_token: Address,
    pub reserve_a: i128,
    pub reserve_b: i128,
    pub total_supply: i128,
    pub fee_rate: u32,
}

#[derive(Clone, Copy, Debug, PartialEq, Eq, Structural)]
pub enum FarmingError {
    NotInitialized,
    Unauthorized,
    InsufficientBalance,
    InvalidAmount,
    PoolNotFound,
    PositionNotFound,
    LockPeriodNotMet,
    EmergencyMode,
    InvalidPoolConfig,
    RewardCalculationFailed,
    InsufficientLiquidity,
}

/// Contract storage and ledger of the farming contract.
pub struct FarmEnv {
    pub timestamp: u64,
    pub contract_address: Address,
    pub admin: Option<Address>,
    pub next_pool_id: u32,
    pub pools: Store<FarmingPool>,
    /// Positions by `(pool id, user)`.
    pub positions: Store<FarmingPosition>,
}

#[verifier::ext_equal]
pub struct FarmView {
    pub timestamp: u64,
    pub contract_address: Address,
    pub admin: Option<Address>,
    pub next_pool_id: u32,
    pub pools: Map<u128, FarmingPool>,
    pub positions: Map<u128, FarmingPosition>,
}

impl View for FarmEnv {
    type V = FarmView;

    open spec fn view(&self) -> FarmView {
        FarmView {
            timestamp: self.timestamp,
            contract_address: self.contract_address,
            admin: self.admin,
            next_pool_id: self.next_pool_id,
            pools: self.pools@,
            positions: self.positions@,
        }
    }
}

impl FarmEnv {
    pub open spec fn wf(&self) -> bool {
        &&& self.pools.wf()
        &&& self.positions.wf()
    }

    pub fn new(contract_address: Address, timestamp: u64) -> (e: Self)
        ensures
            e.wf(),
            e@ == (FarmView {
                timestamp,
                contract_address,
                admin: None,
                next_pool_id: 0,
                pools: Map::empty(),
                positions: Map::empty(),
            }),
    {
        let e = FarmEnv {
            timestamp,
            contract_address,
            admin: None,
            next_pool_id: 0,
            pools: Store::new(),
            positions: Store::new(),
        };
        assert(e@ =~= FarmView {
            timestamp,
            contract_address,
            admin: None,
            next_pool_id: 0,
            pools: Map::empty(),
            positions: Map::empty(),
        });
        e
    }
}

/// Storage key of `user`'s position in pool `pool_id`.
pub open spec fn position_key(pool_id: u32, user: Address) -> u128 {
    spec_pair_key(pool_id as u64, user)
}

pub open spec fn has_pool(v: FarmView, id: u32) -> bool {
    v.pools.contains_key(id as u128)
}

pub open spec fn pool_of(v: FarmView, id: u32) -> FarmingPool {
    v.pools[id as u128]
}

pub open spec fn has_position(v: FarmView, id: u32, user: Address) -> bool {
    v.positions.contains_key(position_key(id, user))
}

pub open spec fn position_of(v: FarmView, id: u32, user: Address) -> FarmingPosition {
    v.positions[position_key(id, user)]
}

/// Bonus multiplier (basis points) of a lock of `lock_period` started at
/// `now`: 3x for a year, 2x for six months, 1.5x for three months, 1.2x
/// for a month, else 1x; reduced by 10% per decay period elapsed since
/// time zero (down to nothing); capped at the pool's maximum (in percent).
pub open spec fn spec_bonus_multiplier(pool: FarmingPool, lock_period: u64, now: u64) -> u32 {
    let decay_factor: int = if pool.decay_period > 0 {
        let decay = (now / pool.decay_period) * 1000;
        if decay >= 10000 {
            0
        } else {
            10000 - decay
        }
    } else {
        10000
    };
    let base: int = if lock_period >= 31_536_000 {
        30000
    } else if lock_period >= 15_552_000 {
        20000
    } else if lock_period >= 7_776_000 {
        15000
    } else if lock_period >= 2_592_000 {
        12000
    } else {
        10000
    };
    let m = (base * decay_factor) / 10000;
    let cap = pool.max_multiplier * 100;
    (if m <= cap { m } else { cap }) as u32
}

/// The rewards of `position` at `now`.
pub open spec fn spec_rewards(position: FarmingPosition, pool: FarmingPool, now: u64) -> FarmingRewards {
    let dt: int = if now >= position.last_reward_time { now - position.last_reward_time } else { 0 };
    let staked: int = if now >= position.stake_time { now - position.stake_time } else { 0 };
    let base = trunc_div(pool.reward_rate * position.lp_amount * dt, RATE_SCALE as int);
    let bonus = trunc_div(
        trunc_div(pool.bonus_rate * position.lp_amount * dt * position.bonus_multiplier, 10000),
        RATE_SCALE as int,
    );
    let total = base + bonus;
    FarmingRewards {
        base_rewards: base as i128,
        bonus_rewards: bonus as i128,
        total_rewards: total as i128,
        pending_rewards: (total - position.reward_debt) as i128,
        apr: if staked > 0 {
            tdiv(trunc_div(total * SECONDS_PER_YEAR, staked) * 10000, position.lp_amount as int) as u32
        } else {
            0
        },
    }
}

/// The reward computation does not overflow.
pub open spec fn rewards_ok(position: FarmingPosition, pool: FarmingPool, now: u64) -> bool {
    let dt: int = if now >= position.last_reward_time { now - position.last_reward_time } else { 0 };
    let staked: int = if now >= position.stake_time { now - position.stake_time } else { 0 };
    let base = trunc_div(pool.reward_rate * position.lp_amount * dt, RATE_SCALE as int);
    let bonus = trunc_div(
        trunc_div(pool.bonus_rate * position.lp_amount * dt * position.bonus_multiplier, 10000),
        RATE_SCALE as int,
    );
    let total = base + bonus;
    &&& i128::MIN <= pool.reward_rate * position.lp_amount <= i128::MAX
    &&& i128::MIN <= pool.reward_rate * position.lp_amount * dt <= i128::MAX
    &&& i128::MIN <= pool.bonus_rate * position.lp_amount <= i128::MAX
    &&& i128::MIN <= pool.bonus_rate * position.lp_amount * dt <= i128::MAX
    &&& i128::MIN <= pool.bonus_rate * position.lp_amount * dt * position.bonus_multiplier <= i128::MAX
    &&& i128::MIN <= total <= i128::MAX
    &&& i128::MIN <= total - position.reward_debt <= i128::MAX
    &&& staked > 0 ==> {
        &&& i128::MIN <= total * SECONDS_PER_YEAR <= i128::MAX
        &&& i128::MIN <= trunc_div(total * SECONDS_PER_YEAR, staked) * 10000 <= i128::MAX
        &&& position.lp_amount != 0
        &&& !(trunc_div(total * SECONDS_PER_YEAR, staked) * 10000 == i128::MIN && position.lp_amount == -1)
    }
}

pub open spec fn spec_admin_set(v: FarmView) -> bool {
    v.admin is Some
}

pub struct YieldFarmingContract;

impl YieldFarmingContract {
    /// Set the admin and create pool 0; returns its id.
    pub fn initialize(
        env: &mut FarmEnv,
        admin: Address,
        lp_token: Address,
        reward_token: Address,
        reward_rate: i128,
        bonus_rate: i128,
        lock_period: u64,
        max_multiplier: u32,
        decay_period: u64,
    ) -> (r: Result<u32, FarmingError>)
        requires
            old(env).wf(),
        ensures
            final(env).wf(),
            r == (if old(env)@.admin is Some {
                Err(FarmingError::NotInitialized)
            } else if reward_rate < 0 || bonus_rate < 0 || lock_period == 0 || max_multiplier == 0 || decay_period == 0 {
                Err(FarmingError::InvalidPoolConfig)
            } else {
                Ok(0u32)
            }),
            r is Err ==> final(env)@ == old(env)@,
            r is Ok ==> final(env)@ == (FarmView {
                admin: Some(admin),
                pools: old(env)@.pools.insert(0, FarmingPool {
                    lp_token,
                    reward_token,
                    total_lp_staked: 0,
                    reward_rate,
                    bonus_rate,
                    lock_period,
                    max_multiplier,
                    decay_period,
                    emergency_withdrawal: false,
                }),
                next_pool_id: 1,
                ..old(env)@
            }),
    {
        if env.admin.is_some() {
            return Err(FarmingError::NotInitialized);
        }
        if reward_rate < 0 || bonus_rate < 0 {
            return Err(FarmingError::InvalidPoolConfig);
        }
        if lock_period == 0 || max_multiplier == 0 || decay_period == 0 {
            return Err(FarmingError::InvalidPoolConfig);
        }
        env.admin = Some(admin);
        let pool = FarmingPool {
            lp_token,
            reward_token,
            total_lp_staked: 0,
            reward_rate,
            bonus_rate,
            lock_period,
            max_multiplier,
            decay_period,
            emergency_withdrawal: false,
        };
        let ghost v = env@;
        env.pools.set(0, pool);
        env.next_pool_id = 1;
        assert(env@ =~= FarmView { pools: v.pools.insert(0, pool), next_pool_id: 1, ..v });
        Ok(0)
    }

    /// Add a pool (admin only); returns its id.
    pub fn add_pool(
        env: &mut FarmEnv,
        admin: Address,
        lp_token: Address,
        reward_token: Address,
        reward_rate: i128,
        bonus_rate: i128,
        lock_period: u64,
        max_multiplier: u32,
        decay_period: u64,
    ) -> (r: Result<u32, FarmingError>)
        requires
            old(env).wf(),
            old(env)@.admin is Some,
            reward_rate >= 0 && bonus_rate >= 0 ==> old(env)@.next_pool_id < u32::MAX,
        ensures
            final(env).wf(),
            r == (if reward_rate < 0 || bonus_rate < 0 {
                Err(FarmingError::InvalidPoolConfig)
            } else {
                Ok(old(env)@.next_pool_id)
            }),
            r is Err ==> final(env)@ == old(env)@,
            r matches Ok(id) ==> final(env)@ == (FarmView {
                pools: old(env)@.pools.insert(id as u128, FarmingPool {
                    lp_token,
                    reward_token,
                    total_lp_staked: 0,
                    reward_rate,
                    bonus_rate,
                    lock_period,
                    max_multiplier,
                    decay_period,
                    emergency_withdrawal: false,
                }),
                next_pool_id: (id + 1) as u32,
                ..old(env)@
            }),
    {
        if reward_rate < 0 || bonus_rate < 0 {
            return Err(FarmingError::InvalidPoolConfig);
        }
        let pool_id = env.next_pool_id;
        let pool = FarmingPool {
            lp_token,
            reward_token,
            total_lp_staked: 0,
            reward_rate,
            bonus_rate,
            lock_period,
            max_multiplier,
            decay_period,
            emergency_withdrawal: false,
        };
        let ghost v = env@;
        env.pools.set(pool_id as u128, pool);
        env.next_pool_id = pool_id + 1;
        assert(env@ =~= FarmView { pools: v.pools.insert(pool_id as u128, pool), next_pool_id: (pool_id + 1) as u32, ..v });
        Ok(pool_id)
    }

    /// Bonus multiplier of a lock of `lock_period` started at `current_time`.
    pub fn calculate_bonus_multiplier(pool: &FarmingPool, lock_period: u64, current_time: u64) -> (r: Result<u32, FarmingError>)
        requires
            pool.max_multiplier * 100 <= u32::MAX,
        ensures
            r == Ok::<u32, FarmingError>(spec_bonus_multiplier(*pool, lock_period, current_time)),
    {
        let decay_factor: u32 = if pool.decay_period > 0 {
            let periods_passed = current_time / pool.decay_period;
            let decay: u128 = (periods_passed as u128) * 1000;
            if decay >= 10000 {
                0
            } else {
                (10000 - decay) as u32
            }
        } else {
            10000
        };
        let base_multiplier: u32 = if lock_period >= 365 * 24 * 60 * 60 {
            30000
        } else if lock_period >= 180 * 24 * 60 * 60 {
            20000
        } else if lock_period >= 90 * 24 * 60 * 60 {
            15000
        } else if lock_period >= 30 * 24 * 60 * 60 {
            12000
        } else {
            10000
        };
        assert(base_multiplier * decay_factor <= 300_000_000) by (nonlinear_arith)
            requires
                base_multiplier <= 30000,
                decay_factor <= 10000,
        ;
        let final_multiplier = (base_multiplier * decay_factor) / 10000;
        let cap = pool.max_multiplier * 100;
        Ok(if final_multiplier <= cap { final_multiplier } else { cap })
    }

    /// Rewards of `position` in `pool` at `current_time`.
    pub fn calculate_farming_rewards(position: &FarmingPosition, pool: &FarmingPool, current_time: u64) -> (r: Result<FarmingRewards, FarmingError>)
        requires
            rewards_ok(*position, *pool, current_time),
        ensures
            r == Ok::<FarmingRewards, FarmingError>(spec_rewards(*position, *pool, current_time)),
    {
        let dt: u64 = if current_time >= position.last_reward_time { current_time - position.last_reward_time } else { 0 };
        let staked: u64 = if current_time >= position.stake_time { current_time - position.stake_time } else { 0 };
        let base_rewards = (pool.reward_rate * position.lp_amount * (dt as i128)) / RATE_SCALE;
        let bonus_rewards = ((pool.bonus_rate * position.lp_amount * (dt as i128) * (position.bonus_multiplier as i128)) / 10000)
            / RATE_SCALE;
        let total_rewards = base_rewards + bonus_rewards;
        let pending_rewards = total_rewards - position.reward_debt;
        let apr: u32 = if staked > 0 {
            let yearly = (total_rewards * (SECONDS_PER_YEAR as i128)) / (staked as i128);
            let scaled = yearly * 10000;
            let q = crate::governance::contract::div_toward_zero(scaled, position.lp_amount);
            #[verifier::truncate]
            (q as u32)
        } else {
            0
        };
        Ok(FarmingRewards { base_rewards, bonus_rewards, total_rewards, pending_rewards, apr })
    }
}

impl YieldFarmingContract {
    fn get_pool(env: &FarmEnv, pool_id: u32) -> (r: Option<FarmingPool>)
        requires
            env.wf(),
        ensures
            r == (if has_pool(env@, pool_id) { Some(pool_of(env@, pool_id)) } else { None }),
    {
        match env.pools.get(pool_id as u128) {
            Some(p) => Some(*p),
            None => None,
        }
    }

    fn get_position_of(env: &FarmEnv, pool_id: u32, user: Address) -> (r: Option<FarmingPosition>)
        requires
            env.wf(),
        ensures
            r == (if has_position(env@, pool_id, user) { Some(position_of(env@, pool_id, user)) } else { None }),
    {
        match env.positions.get(pair_key(pool_id as u64, user)) {
            Some(p) => Some(*p),
            None => None,
        }
    }

    /// Stake `lp_amount` LP tokens in pool `pool_id` for its lock period (or
    /// `lock_period_override`). `user_lp_balance` is the user's balance of
    /// the pool's LP token; the stake is appended to `transfers`.
    pub fn start_farming(
        env: &mut FarmEnv,
        user: Address,
        pool_id: u32,
        lp_amount: i128,
        lock_period_override: Option<u64>,
        user_lp_balance: i128,
        transfers: &mut Vec<TokenTransfer>,
    ) -> (r: Result<(), FarmingError>)
        requires
            old(env).wf(),
            ({
                let v = old(env)@;
                let p = pool_of(v, pool_id);
                let lock = match lock_period_override {
                    Some(l) => l,
                    None => p.lock_period,
                };
                (has_pool(v, pool_id) && !p.emergency_withdrawal && lp_amount > 0 && !has_position(v, pool_id, user)) ==> {
                    &&& v.timestamp + lock <= u64::MAX
                    &&& p.max_multiplier * 100 <= u32::MAX
                    &&& p.total_lp_staked + lp_amount <= i128::MAX
                }
            }),
        ensures
            final(env).wf(),
            ({
                let v = old(env)@;
                let p = pool_of(v, pool_id);
                let lock = match lock_period_override {
                    Some(l) => l,
                    None => p.lock_period,
                };
                &&& r == (if !has_pool(v, pool_id) {
                    Err(FarmingError::PoolNotFound)
                } else if p.emergency_withdrawal {
                    Err(FarmingError::EmergencyMode)
                } else if lp_amount <= 0 {
                    Err(FarmingError::InvalidAmount)
                } else if has_position(v, pool_id, user) {
                    Err(FarmingError::PositionNotFound)
                } else if user_lp_balance < lp_amount {
                    Err(FarmingError::InsufficientBalance)
                } else {
                    Ok(())
                })
                &&& r is Err ==> final(env)@ == v && final(transfers)@ == old(transfers)@
                &&& r is Ok ==> final(env)@ == (FarmView {
                    pools: v.pools.insert(pool_id as u128, FarmingPool { total_lp_staked: (p.total_lp_staked + lp_amount) as i128, ..p }),
                    positions: v.positions.insert(position_key(pool_id, user), FarmingPosition {
                        user,
                        lp_amount,
                        stake_time: v.timestamp,
                        last_reward_time: v.timestamp,
                        bonus_multiplier: spec_bonus_multiplier(p, lock, v.timestamp),
                        lock_expiry: (v.timestamp + lock) as u64,
                        reward_debt: 0,
                    }),
                    ..v
                }) && final(transfers)@ == old(transfers)@.push(
                    TokenTransfer { token: p.lp_token, from: user, to: v.contract_address, amount: lp_amount },
                )
            }),
    {
        let pool = match Self::get_pool(env, pool_id) {
            None => return Err(FarmingError::PoolNotFound),
            Some(p) => p,
        };
        if pool.emergency_withdrawal {
            return Err(FarmingError::EmergencyMode);
        }
        if lp_amount <= 0 {
            return Err(FarmingError::InvalidAmount);
        }
        let key = pair_key(pool_id as u64, user);
        if env.positions.contains(key) {
            return Err(FarmingError::PositionNotFound);
        }
        let lock_period = match lock_period_override {
            Some(l) => l,
            None => pool.lock_period,
        };
        let now = env.timestamp;
        let lock_expiry = now + lock_period;
        let bonus_multiplier = match Self::calculate_bonus_multiplier(&pool, lock_period, now) {
            Ok(m) => m,
            Err(e) => return Err(e),
        };
        if user_lp_balance < lp_amount {
            return Err(FarmingError::InsufficientBalance);
        }
        transfers.push(TokenTransfer { token: pool.lp_token, from: user, to: env.contract_address, amount: lp_amount });
        let position = FarmingPosition {
            user,
            lp_amount,
            stake_time: now,
            last_reward_time: now,
            bonus_multiplier,
            lock_expiry,
            reward_debt: 0,
        };
        let mut updated = pool;
        updated.total_lp_staked = updated.total_lp_staked + lp_amount;
        let ghost v = env@;
        env.pools.set(pool_id as u128, updated);
        env.positions.set(key, position);
        assert(env@ =~= FarmView {
            pools: v.pools.insert(pool_id as u128, updated),
            positions: v.positions.insert(key, position),
            ..v
        });
        Ok(())
    }

    /// Unstake after the lock (or at any time in emergency mode): the LP
    /// tokens and the pending rewards are paid back and the position closed.
    /// Returns the rewards paid.
    pub fn end_farming(env: &mut FarmEnv, user: Address, pool_id: u32, transfers: &mut Vec<TokenTransfer>) -> (r: Result<i128, FarmingError>)
        requires
            old(env).wf(),
            ({
                let v = old(env)@;
                let p = pool_of(v, pool_id);
                let pos = position_of(v, pool_id, user);
                (has_pool(v, pool_id) && has_position(v, pool_id, user)) ==> {
                    &&& rewards_ok(pos, p, v.timestamp)
                    &&& p.total_lp_staked - pos.lp_amount >= i128::MIN
                    &&& p.total_lp_staked - pos.lp_amount <= i128::MAX
                }
            }),
        ensures
            final(env).wf(),
            ({
                let v = old(env)@;
                let p = pool_of(v, pool_id);
                let pos = position_of(v, pool_id, user);
                let pending = spec_rewards(pos, p, v.timestamp).pending_rewards;
                &&& r == (if !has_pool(v, pool_id) {
                    Err(FarmingError::PoolNotFound)
                } else if !has_position(v, pool_id, user) {
                    Err(FarmingError::PositionNotFound)
                } else if v.timestamp < pos.lock_expiry && !p.emergency_withdrawal {
                    Err(FarmingError::LockPeriodNotMet)
                } else {
                    Ok(pending)
                })
                &&& r is Err ==> final(env)@ == v && final(transfers)@ == old(transfers)@
                &&& r is Ok ==> final(env)@ == (FarmView {
                    pools: v.pools.insert(pool_id as u128, FarmingPool { total_lp_staked: (p.total_lp_staked - pos.lp_amount) as i128, ..p }),
                    positions: v.positions.remove(position_key(pool_id, user)),
                    ..v
                }) && final(transfers)@ == ({
                    let back = old(transfers)@.push(
                        TokenTransfer { token: p.lp_token, from: v.contract_address, to: user, amount: pos.lp_amount },
                    );
                    if pending > 0 {
                        back.push(TokenTransfer { token: p.reward_token, from: v.contract_address, to: user, amount: pending })
                    } else {
                        back
                    }
                })
            }),
    {
        let pool = match Self::get_pool(env, pool_id) {
            None => return Err(FarmingError::PoolNotFound),
            Some(p) => p,
        };
        let position = match Self::get_position_of(env, pool_id, user) {
            None => return Err(FarmingError::PositionNotFound),
            Some(p) => p,
        };
        let now = env.timestamp;
        if now < position.lock_expiry && !pool.emergency_withdrawal {
            return Err(FarmingError::LockPeriodNotMet);
        }
        let rewards = match Self::calculate_farming_rewards(&position, &pool, now) {
            Ok(r) => r,
            Err(e) => return Err(e),
        };
        transfers.push(TokenTransfer { token: pool.lp_token, from: env.contract_address, to: user, amount: position.lp_amount });
        if rewards.pending_rewards > 0 {
            transfers.push(TokenTransfer { token: pool.reward_token, from: env.contract_address, to: user, amount: rewards.pending_rewards });
        }
        let mut updated = pool;
        updated.total_lp_staked = updated.total_lp_staked - position.lp_amount;
        let ghost v = env@;
        env.pools.set(pool_id as u128, updated);
        env.positions.remove(pair_key(pool_id as u64, user));
        assert(env@ =~= FarmView {
            pools: v.pools.insert(pool_id as u128, updated),
            positions: v.positions.remove(position_key(pool_id, user)),
            ..v
        });
        Ok(rewards.pending_rewards)
    }

    /// Pay the pending rewards and restart the reward clock; returns the
    /// amount paid (nothing changes when none is pending).
    pub fn claim_rewards(env: &mut FarmEnv, user: Address, pool_id: u32, transfers: &mut Vec<TokenTransfer>) -> (r: Result<i128, FarmingError>)
        requires
            old(env).wf(),
            (has_pool(old(env)@, pool_id) && has_position(old(env)@, pool_id, user)) ==> rewards_ok(
                position_of(old(env)@, pool_id, user),
                pool_of(old(env)@, pool_id),
                old(env)@.timestamp,
            ),
        ensures
            final(env).wf(),
            ({
                let v = old(env)@;
                let p = pool_of(v, pool_id);
                let pos = position_of(v, pool_id, user);
                let pending = spec_rewards(pos, p, v.timestamp).pending_rewards;
                &&& r == (if !has_pool(v, pool_id) {
                    Err(FarmingError::PoolNotFound)
                } else if !has_position(v, pool_id, user) {
                    Err(FarmingError::PositionNotFound)
                } else {
                    Ok(pending)
                })
                &&& (r is Err || pending == 0) ==> final(env)@ == v && final(transfers)@ == old(transfers)@
                &&& (r is Ok && pending != 0) ==> final(env)@ == (FarmView {
                    positions: v.positions.insert(
                        position_key(pool_id, user),
                        FarmingPosition { last_reward_time: v.timestamp, reward_debt: 0, ..pos },
                    ),
                    ..v
                }) && final(transfers)@ == old(transfers)@.push(
                    TokenTransfer { token: p.reward_token, from: v.contract_address, to: user, amount: pending },
                )
            }),
    {
        let pool = match Self::get_pool(env, pool_id) {
            None => return Err(FarmingError::PoolNotFound),
            Some(p) => p,
        };
        let mut position = match Self::get_position_of(env, pool_id, user) {
            None => return Err(FarmingError::PositionNotFound),
            Some(p) => p,
        };
        let now = env.timestamp;
        let rewards = match Self::calculate_farming_rewards(&position, &pool, now) {
            Ok(r) => r,
            Err(e) => return Err(e),
        };
        if rewards.pending_rewards == 0 {
            return Ok(0);
        }
        transfers.push(TokenTransfer { token: pool.reward_token, from: env.contract_address, to: user, amount: rewards.pending_rewards });
        position.last_reward_time = now;
        position.reward_debt = 0;
        let ghost v = env@;
        env.positions.set(pair_key(pool_id as u64, user), position);
        assert(env@ =~= FarmView { positions: v.positions.insert(position_key(pool_id, user), position), ..v });
        Ok(rewards.pending_rewards)
    }

    pub fn get_position(env: &FarmEnv, user: Address, pool_id: u32) -> (r: Result<FarmingPosition, FarmingError>)
        requires
            env.wf(),
        ensures
            r == (if has_position(env@, pool_id, user) {
                Ok(position_of(env@, pool_id, user))
            } else {
                Err(FarmingError::PositionNotFound)
            }),
    {
        match Self::get_position_of(env, pool_id, user) {
            Some(p) => Ok(p),
            None => Err(FarmingError::PositionNotFound),
        }
    }

    pub fn get_pool_info(env: &FarmEnv, pool_id: u32) -> (r: Result<FarmingPool, FarmingError>)
        requires
            env.wf(),
        ensures
            r == (if has_pool(env@, pool_id) { Ok(pool_of(env@, pool_id)) } else { Err(FarmingError::PoolNotFound) }),
    {
        match Self::get_pool(env, pool_id) {
            Some(p) => Ok(p),
            None => Err(FarmingError::PoolNotFound),
        }
    }

    /// Rewards of `user`'s position as of now.
    pub fn get_pending_rewards(env: &FarmEnv, user: Address, pool_id: u32) -> (r: Result<FarmingRewards, FarmingError>)
        requires
            env.wf(),
            (has_pool(env@, pool_id) && has_position(env@, pool_id, user)) ==> rewards_ok(
                position_of(env@, pool_id, user),
                pool_of(env@, pool_id),
                env@.timestamp,
            ),
        ensures
            r == (if !has_pool(env@, pool_id) {
                Err(FarmingError::PoolNotFound)
            } else if !has_position(env@, pool_id, user) {
                Err(FarmingError::PositionNotFound)
            } else {
                Ok(spec_rewards(position_of(env@, pool_id, user), pool_of(env@, pool_id), env@.timestamp))
            }),
    {
        let pool = match Self::get_pool(env, pool_id) {
            None => return Err(FarmingError::PoolNotFound),
            Some(p) => p,
        };
        let position = match Self::get_position_of(env, pool_id, user) {
            None => return Err(FarmingError::PositionNotFound),
            Some(p) => p,
        };
        Self::calculate_farming_rewards(&position, &pool, env.timestamp)
    }

    /// Change a pool's rates (admin only); negative rates are refused.
    pub fn update_pool(
        env: &mut FarmEnv,
        admin: Address,
        pool_id: u32,
        reward_rate: Option<i128>,
        bonus_rate: Option<i128>,
    ) -> (r: Result<(), FarmingError>)
        requires
            old(env).wf(),
            old(env)@.admin is Some,
        ensures
            final(env).wf(),
            ({
                let v = old(env)@;
                let p = pool_of(v, pool_id);
                &&& r == (if !has_pool(v, pool_id) {
                    Err(FarmingError::PoolNotFound)
                } else if (reward_rate matches Some(x) && x < 0) || (bonus_rate matches Some(x) && x < 0) {
                    Err(FarmingError::InvalidPoolConfig)
                } else {
                    Ok(())
                })
                &&& r is Err ==> final(env)@ == v
                &&& r is Ok ==> final(env)@ == (FarmView {
                    pools: v.pools.insert(pool_id as u128, FarmingPool {
                        reward_rate: match reward_rate {
                            Some(x) => x,
                            None => p.reward_rate,
                        },
                        bonus_rate: match bonus_rate {
                            Some(x) => x,
                            None => p.bonus_rate,
                        },
                        ..p
                    }),
                    ..v
                })
            }),
    {
        let mut pool = match Self::get_pool(env, pool_id) {
            None => return Err(FarmingError::PoolNotFound),
            Some(p) => p,
        };
        if let Some(new_rate) = reward_rate {
            if new_rate < 0 {
                return Err(FarmingError::InvalidPoolConfig);
            }
            pool.reward_rate = new_rate;
        }
        if let Some(new_bonus) = bonus_rate {
            if new_bonus < 0 {
                return Err(FarmingError::InvalidPoolConfig);
            }
            pool.bonus_rate = new_bonus;
        }
        let ghost v = env@;
        env.pools.set(pool_id as u128, pool);
        assert(env@ =~= FarmView { pools: v.pools.insert(pool_id as u128, pool), ..v });
        Ok(())
    }

    /// Allow or forbid unstaking before the lock ends (admin only).
    pub fn set_emergency_withdrawal(env: &mut FarmEnv, admin: Address, pool_id: u32, enabled: bool) -> (r: Result<(), FarmingError>)
        requires
            old(env).wf(),
            old(env)@.admin is Some,
        ensures
            final(env).wf(),
            r == (if has_pool(old(env)@, pool_id) { Ok(()) } else { Err(FarmingError::PoolNotFound) }),
            r is Err ==> final(env)@ == old(env)@,
            r is Ok ==> final(env)@ == (FarmView {
                pools: old(env)@.pools.insert(pool_id as u128, FarmingPool { emergency_withdrawal: enabled, ..pool_of(old(env)@, pool_id) }),
                ..old(env)@
            }),
    {
        let mut pool = match Self::get_pool(env, pool_id) {
            None => return Err(FarmingError::PoolNotFound),
            Some(p) => p,
        };
        pool.emergency_withdrawal = enabled;
        let ghost v = env@;
        env.pools.set(pool_id as u128, pool);
        assert(env@ =~= FarmView { pools: v.pools.insert(pool_id as u128, pool), ..v });
        Ok(())
    }
}

/// The bonus multiplier never exceeds the pool's cap nor three times the
/// base rate.
pub proof fn law_bonus_multiplier_bounded(pool: FarmingPool, lock_period: u64, now: u64)
    requires
        pool.max_multiplier * 100 <= u32::MAX,
    ensures
        spec_bonus_multiplier(pool, lock_period, now) <= pool.max_multiplier * 100,
        spec_bonus_multiplier(pool, lock_period, now) <= 30000,
{
    let decay_factor: int = if pool.decay_period > 0 {
        let decay = (now / pool.decay_period) * 1000;
        if decay >= 10000 { 0 } else { 10000 - decay }
    } else {
        10000
    };
    let base: int = if lock_period >= 31_536_000 {
        30000
    } else if lock_period >= 15_552_000 {
        20000
    } else if lock_period >= 7_776_000 {
        15000
    } else if lock_period >= 2_592_000 {
        12000
    } else {
        10000
    };
    assert(0 <= decay_factor <= 10000) by {
        if pool.decay_period > 0 {
            assert(now / pool.decay_period >= 0);
        }
    }
    assert((base * decay_factor) / 10000 <= 30000) by (nonlinear_arith)
        requires
            0 <= base <= 30000,
            0 <= decay_factor <= 10000,
    ;
}

/// Right after a claim (reward clock at `now`, no debt) nothing more is
/// pending at the same moment: claiming twice pays once.
pub proof fn law_claim_twice_pays_once(pos: FarmingPosition, pool: FarmingPool, now: u64)
    ensures
        spec_rewards(FarmingPosition { last_reward_time: now, reward_debt: 0, ..pos }, pool, now).pending_rewards == 0,
{
    let p = FarmingPosition { last_reward_time: now, reward_debt: 0, ..pos };
    assert(pool.reward_rate * p.lp_amount * 0 == 0);
    assert(pool.bonus_rate * p.lp_amount * 0 * p.bonus_multiplier == 0) by (nonlinear_arith);
}

/// Starting and then ending a farm in a pool gives back the LP amount that
/// was staked and leaves the pool's total stake and the user's position as
/// they were before.
pub proof fn law_unstake_undoes_stake(v: FarmView, pool_id: u32, user: Address, pos: FarmingPosition)
    requires
        has_pool(v, pool_id),
        !has_position(v, pool_id, user),
        i128::MIN <= pool_of(v, pool_id).total_lp_staked + pos.lp_amount <= i128::MAX,
    ensures
        ({
            let p = pool_of(v, pool_id);
            let staked = FarmView {
                pools: v.pools.insert(pool_id as u128, FarmingPool { total_lp_staked: (p.total_lp_staked + pos.lp_amount) as i128, ..p }),
                positions: v.positions.insert(position_key(pool_id, user), pos),
                ..v
            };
            let sp = pool_of(staked, pool_id);
            let spos = position_of(staked, pool_id, user);
            let ended = FarmView {
                pools: staked.pools.insert(pool_id as u128, FarmingPool { total_lp_staked: (sp.total_lp_staked - spos.lp_amount) as i128, ..sp }),
                positions: staked.positions.remove(position_key(pool_id, user)),
                ..staked
            };
            &&& has_position(staked, pool_id, user)
            &&& spos.lp_amount == pos.lp_amount
            &&& pool_of(ended, pool_id) == p
            &&& !has_position(ended, pool_id, user)
            &&& ended.positions == v.positions
        }),
{
    let p = pool_of(v, pool_id);
    let staked = FarmView {
        pools: v.pools.insert(pool_id as u128, FarmingPool { total_lp_staked: (p.total_lp_staked + pos.lp_amount) as i128, ..p }),
        positions: v.positions.insert(position_key(pool_id, user), pos),
        ..v
    };
    let sp = pool_of(staked, pool_id);
    let ended = FarmView {
        pools: staked.pools.insert(pool_id as u128, FarmingPool { total_lp_staked: (sp.total_lp_staked - pos.lp_amount) as i128, ..sp }),
        positions: staked.positions.remove(position_key(pool_id, user)),
        ..staked
    };
    assert(ended.positions =~= v.positions);
}

} // verus!
