//! The trading contract: role set-up, trades with running statistics, and
//! pausing.

use vstd::prelude::*;
use crate::common::{Address, addr_key, spec_addr_key};
use crate::store::Store;

verus! {

/// Version of this contract implementation.
pub const TRADING_CONTRACT_VERSION: u32 = 1;

#[derive(Clone, Copy, Debug, PartialEq, Eq, Structural)]
pub enum GovernanceRole {
    Admin,
    Approver,
    Executor,
}

#[derive(Debug)]
pub struct Trade {
    pub id: u64,
    pub trader: Address,
    pub pair: String,
    pub amount: i128,
    pub price: i128,
    pub timestamp: u64,
    pub is_buy: bool,
}

pub struct TradeView {
    pub id: u64,
    pub trader: Address,
    pub pair: Seq<char>,
    pub amount: i128,
    pub price: i128,
    pub timestamp: u64,
    pub is_buy: bool,
}

impl View for Trade {
    type V = TradeView;

    open spec fn view(&self) -> TradeView {
        TradeView {
            id: self.id,
            trader: self.trader,
            pair: self.pair@,
            amount: self.amount,
            price: self.price,
            timestamp: self.timestamp,
            is_buy: self.is_buy,
        }
    }
}

#[derive(Clone, Copy, Debug, PartialEq, Eq, Structural)]
pub struct TradeStats {
    pub total_trades: u64,
    pub total_volume: i128,
    pub last_trade_id: u64,
}

#[derive(Clone, Copy, Debug, PartialEq, Eq, Structural)]
pub enum TradeError {
    Unauthorized,
    InvalidAmount,
    ContractPaused,
    NotInitialized,
}

pub open spec fn spec_trade_error_code(e: TradeError) -> u32 {
    match e {
        TradeError::Unauthorized => 3001,
        TradeError::InvalidAmount => 3002,
        TradeError::ContractPaused => 3003,
        TradeError::NotInitialized => 3004,
    }
}

impl TradeError {
    /// The contract error number.
    pub fn code(&self) -> (c: u32)
        ensures
            c == spec_trade_error_code(*self),
    {
        match self {
            TradeError::Unauthorized => 3001,
            TradeError::InvalidAmount => 3002,
            TradeError::ContractPaused => 3003,
            TradeError::NotInitialized => 3004,
        }
    }
}

/// Contract storage and ledger of the trading contract.
pub struct TradingEnv {
    pub timestamp: u64,
    pub initialized: bool,
    /// Roles by address.
    pub roles: Option<Store<GovernanceRole>>,
    pub stats: Option<TradeStats>,
    pub version: Option<u32>,
    pub paused: Option<bool>,
    pub trades: Vec<Trade>,
}

#[verifier::ext_equal]
pub struct TradingView {
    pub timestamp: u64,
    pub initialized: bool,
    pub roles: Option<Map<u128, GovernanceRole>>,
    pub stats: Option<TradeStats>,
    pub version: Option<u32>,
    pub paused: Option<bool>,
    pub trades: Seq<TradeView>,
}

pub open spec fn opt_roles_view(r: Option<Store<GovernanceRole>>) -> Option<Map<u128, GovernanceRole>> {
    match r {
        Some(s) => Some(s@),
        None => None,
    }
}

impl View for TradingEnv {
    type V = TradingView;

    open spec fn view(&self) -> TradingView {
        TradingView {
            timestamp: self.timestamp,
            initialized: self.initialized,
            roles: opt_roles_view(self.roles),
            stats: self.stats,
            version: self.version,
            paused: self.paused,
            trades: self.trades@.map_values(|t: Trade| t@),
        }
    }
}

impl TradingEnv {
    pub open spec fn wf(&self) -> bool {
        self.roles matches Some(s) ==> s.wf()
    }

    pub fn new(timestamp: u64) -> (e: Self)
        ensures
            e.wf(),
            e@ == (TradingView {
                timestamp,
                initialized: false,
                roles: None,
                stats: None,
                version: None,
                paused: None,
                trades: Seq::empty(),
            }),
    {
        let e = TradingEnv {
            timestamp,
            initialized: false,
            roles: None,
            stats: None,
            version: None,
            paused: None,
            trades: Vec::new(),
        };
        assert(e@ =~= TradingView {
            timestamp,
            initialized: false,
            roles: None,
            stats: None,
            version: None,
            paused: None,
            trades: Seq::empty(),
        });
        e
    }
}

/// Roles after set-up: the admin, then each approver, then the executor,
/// later assignments replacing earlier ones.
pub open spec fn spec_roles(admin: Address, approvers: Seq<Address>, executor: Address) -> Map<u128, GovernanceRole>
    decreases approvers.len(),
{
    if approvers.len() == 0 {
        Map::empty().insert(spec_addr_key(admin), GovernanceRole::Admin)
    } else {
        spec_roles(admin, approvers.drop_last(), executor).insert(spec_addr_key(approvers.last()), GovernanceRole::Approver)
    }
}

/// Statistics as stored, or all zero.
pub open spec fn spec_stats(v: TradingView) -> TradeStats {
    match v.stats {
        Some(s) => s,
        None => TradeStats { total_trades: 0, total_volume: 0, last_trade_id: 0 },
    }
}

/// The admin role check of pause and unpause.
pub open spec fn spec_is_admin(v: TradingView, a: Address) -> Result<(), TradeError> {
    match v.roles {
        None => Err(TradeError::Unauthorized),
        Some(m) => if m.contains_key(spec_addr_key(a)) && m[spec_addr_key(a)] == GovernanceRole::Admin {
            Ok(())
        } else {
            Err(TradeError::Unauthorized)
        },
    }
}

pub struct UpgradeableTradingContract;

impl UpgradeableTradingContract {
    /// Set up roles (admin, approvers, executor), zero statistics and the
    /// version, once.
    pub fn init(env: &mut TradingEnv, admin: Address, approvers: Vec<Address>, executor: Address) -> (r: Result<(), TradeError>)
        requires
            old(env).wf(),
        ensures
            final(env).wf(),
            r == (if old(env)@.initialized { Err(TradeError::Unauthorized) } else { Ok(()) }),
            r is Err ==> final(env)@ == old(env)@,
            r is Ok ==> final(env)@ == (TradingView {
                initialized: true,
                roles: Some(spec_roles(admin, approvers@, executor).insert(spec_addr_key(executor), GovernanceRole::Executor)),
                stats: Some(TradeStats { total_trades: 0, total_volume: 0, last_trade_id: 0 }),
                version: Some(TRADING_CONTRACT_VERSION),
                ..old(env)@
            }),
    {
        if env.initialized {
            return Err(TradeError::Unauthorized);
        }
        env.initialized = true;
        let mut roles: Store<GovernanceRole> = Store::new();
        roles.set(addr_key(admin), GovernanceRole::Admin);
        let mut i: usize = 0;
        while i < approvers.len()
            invariant
                roles.wf(),
                0 <= i <= approvers@.len(),
                roles@ == spec_roles(admin, approvers@.take(i as int), executor),
            decreases approvers@.len() - i,
        {
            proof {
                assert(approvers@.take(i + 1).drop_last() =~= approvers@.take(i as int));
            }
            roles.set(addr_key(approvers[i]), GovernanceRole::Approver);
            i = i + 1;
        }
        assert(approvers@.take(approvers@.len() as int) =~= approvers@);
        roles.set(addr_key(executor), GovernanceRole::Executor);
        env.roles = Some(roles);
        env.stats = Some(TradeStats { total_trades: 0, total_volume: 0, last_trade_id: 0 });
        env.version = Some(TRADING_CONTRACT_VERSION);
        assert(env@ =~= TradingView {
            initialized: true,
            roles: Some(spec_roles(admin, approvers@, executor).insert(spec_addr_key(executor), GovernanceRole::Executor)),
            stats: Some(TradeStats { total_trades: 0, total_volume: 0, last_trade_id: 0 }),
            version: Some(TRADING_CONTRACT_VERSION),
            ..old(env)@
        });
        Ok(())
    }

    /// Record a trade once its fee has been collected. `fee_collected` is
    /// the outcome of the fee collection; its error is returned unchanged and
    /// nothing is recorded. Returns the new trade's id.
    pub fn trade<E>(
        env: &mut TradingEnv,
        trader: Address,
        pair: String,
        amount: i128,
        price: i128,
        is_buy: bool,
        fee_collected: Result<(), E>,
    ) -> (r: Result<u64, E>)
        requires
            old(env).wf(),
            old(env)@.paused != Some(true),
            fee_collected is Ok ==> {
                let s = spec_stats(old(env)@);
                &&& s.last_trade_id < u64::MAX
                &&& s.total_trades < u64::MAX
                &&& i128::MIN <= s.total_volume + amount <= i128::MAX
            },
        ensures
            final(env).wf(),
            match fee_collected {
                Err(e) => r == Err::<u64, E>(e) && final(env)@ == old(env)@,
                Ok(()) => {
                    let s = spec_stats(old(env)@);
                    let id = (s.last_trade_id + 1) as u64;
                    &&& r == Ok::<u64, E>(id)
                    &&& final(env)@ == (TradingView {
                        stats: Some(TradeStats {
                            total_trades: (s.total_trades + 1) as u64,
                            total_volume: (s.total_volume + amount) as i128,
                            last_trade_id: id,
                        }),
                        trades: old(env)@.trades.push(TradeView {
                            id,
                            trader,
                            pair: pair@,
                            amount,
                            price,
                            timestamp: old(env)@.timestamp,
                            is_buy,
                        }),
                        ..old(env)@
                    })
                },
            },
    {
        match fee_collected {
            Err(e) => return Err(e),
            Ok(()) => {},
        }
        let mut stats = match env.stats {
            Some(s) => s,
            None => TradeStats { total_trades: 0, total_volume: 0, last_trade_id: 0 },
        };
        let trade_id = stats.last_trade_id + 1;
        let timestamp = env.timestamp;
        let trade = Trade { id: trade_id, trader, pair, amount, price, timestamp, is_buy };
        let ghost tv = trade@;
        stats.total_trades = stats.total_trades + 1;
        stats.total_volume = stats.total_volume + amount;
        stats.last_trade_id = trade_id;
        env.trades.push(trade);
        env.stats = Some(stats);
        assert(env@.trades =~= old(env)@.trades.push(tv));
        Ok(trade_id)
    }

    /// Implementation version (0 before set-up).
    pub fn get_version(env: &TradingEnv) -> (v: u32)
        ensures
            v == (match env@.version {
                Some(v) => v,
                None => 0,
            }),
    {
        match env.version {
            Some(v) => v,
            None => 0,
        }
    }

    /// Trading statistics (zero before any trade).
    pub fn get_stats(env: &TradingEnv) -> (s: TradeStats)
        ensures
            s == spec_stats(env@),
    {
        match env.stats {
            Some(s) => s,
            None => TradeStats { total_trades: 0, total_volume: 0, last_trade_id: 0 },
        }
    }

    fn require_admin_role(env: &TradingEnv, admin: Address) -> (r: Result<(), TradeError>)
        requires
            env.wf(),
        ensures
            r == spec_is_admin(env@, admin),
    {
        match &env.roles {
            None => Err(TradeError::Unauthorized),
            Some(roles) => match roles.get(addr_key(admin)) {
                None => Err(TradeError::Unauthorized),
                Some(role) => if *role == GovernanceRole::Admin {
                    Ok(())
                } else {
                    Err(TradeError::Unauthorized)
                },
            },
        }
    }

    /// Stop trading (admin role only).
    pub fn pause(env: &mut TradingEnv, admin: Address) -> (r: Result<(), TradeError>)
        requires
            old(env).wf(),
        ensures
            final(env).wf(),
            r == spec_is_admin(old(env)@, admin),
            r is Err ==> final(env)@ == old(env)@,
            r is Ok ==> final(env)@ == (TradingView { paused: Some(true), ..old(env)@ }),
    {
        match Self::require_admin_role(env, admin) {
            Err(e) => return Err(e),
            Ok(()) => {},
        }
        env.paused = Some(true);
        Ok(())
    }

    /// Resume trading (admin role only).
    pub fn unpause(env: &mut TradingEnv, admin: Address) -> (r: Result<(), TradeError>)
        requires
            old(env).wf(),
        ensures
            final(env).wf(),
            r == spec_is_admin(old(env)@, admin),
            r is Err ==> final(env)@ == old(env)@,
            r is Ok ==> final(env)@ == (TradingView { paused: Some(false), ..old(env)@ }),
    {
        match Self::require_admin_role(env, admin) {
            Err(e) => return Err(e),
            Ok(()) => {},
        }
        env.paused = Some(false);
        Ok(())
    }
}

/// Every trade adds one to the trade count and takes the next id, so a
/// contract set up with zero statistics always has as many trades as its
/// last trade id, and its volume is the sum of the traded amounts.
pub proof fn law_trade_stats_consistent(s: TradeStats, amount: i128)
    requires
        s.total_trades == s.last_trade_id,
        s.last_trade_id < u64::MAX,
    ensures
        ({
            let t = TradeStats {
                total_trades: (s.total_trades + 1) as u64,
                total_volume: (s.total_volume + amount) as i128,
                last_trade_id: (s.last_trade_id + 1) as u64,
            };
            t.total_trades == t.last_trade_id
        }),
{
}

} // verus!
