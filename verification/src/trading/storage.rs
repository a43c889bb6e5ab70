//! The keyed storage layout of the trading contract: statistics, oracle
//! configuration and status, roles, trades by id, each trader's trade ids
//! and the last hundred trade ids.

use vstd::prelude::*;
use crate::common::{Address, addr_key, spec_addr_key};
use crate::store::Store;
use crate::trading::contract::GovernanceRole;
use crate::disaster_recovery::pause_control::keep_last;

verus! {

/// Storage layout version this code writes.
pub const STORAGE_VERSION: u32 = 2;
/// Trade ids kept in the recent-trades buffer.
pub const MAX_RECENT_TRADES: u32 = 100;

#[derive(Clone, Copy, Debug, PartialEq, Eq, Structural)]
pub struct OptimizedTradeStats {
    pub total_trades: u64,
    pub total_volume: i128,
    pub last_trade_id: u64,
}

#[derive(Debug)]
pub struct OptimizedOracleConfig {
    pub oracles: Vec<Address>,
    pub max_staleness: u64,
    pub min_sources: u32,
}

pub struct OptimizedOracleConfigView {
    pub oracles: Seq<Address>,
    pub max_staleness: u64,
    pub min_sources: u32,
}

impl View for OptimizedOracleConfig {
    type V = OptimizedOracleConfigView;

    open spec fn view(&self) -> OptimizedOracleConfigView {
        OptimizedOracleConfigView { oracles: self.oracles@, max_staleness: self.max_staleness, min_sources: self.min_sources }
    }
}

#[derive(Debug)]
pub struct OptimizedOracleStatus {
    pub last_pair: String,
    pub last_price: i128,
    pub last_updated_at: u64,
    pub last_source_count: u32,
    pub consecutive_failures: u32,
}

pub struct OptimizedOracleStatusView {
    pub last_pair: Seq<char>,
    pub last_price: i128,
    pub last_updated_at: u64,
    pub last_source_count: u32,
    pub consecutive_failures: u32,
}

impl View for OptimizedOracleStatus {
    type V = OptimizedOracleStatusView;

    open spec fn view(&self) -> OptimizedOracleStatusView {
        OptimizedOracleStatusView {
            last_pair: self.last_pair@,
            last_price: self.last_price,
            last_updated_at: self.last_updated_at,
            last_source_count: self.last_source_count,
            consecutive_failures: self.consecutive_failures,
        }
    }
}

/// The status before any oracle update.
pub open spec fn initial_oracle_status() -> OptimizedOracleStatusView {
    OptimizedOracleStatusView {
        last_pair: "NONE"@,
        last_price: 0,
        last_updated_at: 0,
        last_source_count: 0,
        consecutive_failures: 0,
    }
}

impl OptimizedOracleStatus {
    pub fn new() -> (s: Self)
        ensures
            s@ == initial_oracle_status(),
    {
        OptimizedOracleStatus {
            last_pair: "NONE".to_owned(),
            last_price: 0,
            last_updated_at: 0,
            last_source_count: 0,
            consecutive_failures: 0,
        }
    }
}

#[derive(Debug)]
pub struct OptimizedTrade {
    pub id: u64,
    pub trader: Address,
    pub pair: String,
    pub amount: i128,
    pub price: i128,
    pub timestamp: u64,
    pub is_buy: bool,
}

pub struct OptimizedTradeView {
    pub id: u64,
    pub trader: Address,
    pub pair: Seq<char>,
    pub amount: i128,
    pub price: i128,
    pub timestamp: u64,
    pub is_buy: bool,
}

impl View for OptimizedTrade {
    type V = OptimizedTradeView;

    open spec fn view(&self) -> OptimizedTradeView {
        OptimizedTradeView {
            id: self.id,
            trader: self.trader,
            pair: self.pair@,
            amount: self.amount,
            price: self.price,
            timestamp: self.timestamp,
            is_buy: self.is_buy,
        }
    }
}

pub fn copy_trade(t: &OptimizedTrade) -> (c: OptimizedTrade)
    ensures
        c@ == t@,
{
    OptimizedTrade {
        id: t.id,
        trader: t.trader,
        pair: t.pair.clone(),
        amount: t.amount,
        price: t.price,
        timestamp: t.timestamp,
        is_buy: t.is_buy,
    }
}

/// The keys of the storage layout.
#[derive(Clone, Copy, Debug, PartialEq, Eq, Structural)]
pub enum TradingDataKey {
    Init,
    Paused,
    Stats,
    OracleConfig,
    OracleStatus,
    Roles,
    Trade(u64),
    TradeIdsByTrader(Address),
    RecentTrades,
}

/// Contract storage of the keyed layout, with the legacy values it
/// migrates from.
pub struct TradingStoreEnv {
    pub initialized: bool,
    pub version: u32,
    pub paused: Option<bool>,
    pub stats: Option<OptimizedTradeStats>,
    pub oracle_config: Option<OptimizedOracleConfig>,
    pub oracle_status: Option<OptimizedOracleStatus>,
    pub roles: Option<Store<GovernanceRole>>,
    pub trades: Store<OptimizedTrade>,
    pub trader_index: Store<Vec<u64>>,
    pub recent: Vec<u64>,
    pub legacy_stats: Option<OptimizedTradeStats>,
    pub legacy_pause: Option<bool>,
}

#[verifier::ext_equal]
pub struct TradingStoreView {
    pub initialized: bool,
    pub version: u32,
    pub paused: Option<bool>,
    pub stats: Option<OptimizedTradeStats>,
    pub oracle_config: Option<OptimizedOracleConfigView>,
    pub oracle_status: Option<OptimizedOracleStatusView>,
    pub roles: Option<Map<u128, GovernanceRole>>,
    pub trades: Map<u128, OptimizedTradeView>,
    pub trader_index: Map<u128, Seq<u64>>,
    pub recent: Seq<u64>,
    pub legacy_stats: Option<OptimizedTradeStats>,
    pub legacy_pause: Option<bool>,
}

impl View for TradingStoreEnv {
    type V = TradingStoreView;

    open spec fn view(&self) -> TradingStoreView {
        TradingStoreView {
            initialized: self.initialized,
            version: self.version,
            paused: self.paused,
            stats: self.stats,
            oracle_config: match self.oracle_config {
                Some(c) => Some(c@),
                None => None,
            },
            oracle_status: match self.oracle_status {
                Some(s) => Some(s@),
                None => None,
            },
            roles: match self.roles {
                Some(r) => Some(r@),
                None => None,
            },
            trades: self.trades@.map_values(|t: OptimizedTrade| t@),
            trader_index: self.trader_index@.map_values(|v: Vec<u64>| v@),
            recent: self.recent@,
            legacy_stats: self.legacy_stats,
            legacy_pause: self.legacy_pause,
        }
    }
}

impl TradingStoreEnv {
    pub open spec fn wf(&self) -> bool {
        &&& self.trades.wf()
        &&& self.trader_index.wf()
        &&& (self.roles matches Some(r) ==> r.wf())
    }
}

/// Statistics as stored, or all zero.
pub open spec fn spec_store_stats(v: TradingStoreView) -> OptimizedTradeStats {
    match v.stats {
        Some(s) => s,
        None => OptimizedTradeStats { total_trades: 0, total_volume: 0, last_trade_id: 0 },
    }
}

/// Trade ids recorded for `trader`.
pub open spec fn trader_ids(v: TradingStoreView, trader: Address) -> Seq<u64> {
    if v.trader_index.contains_key(spec_addr_key(trader)) {
        v.trader_index[spec_addr_key(trader)]
    } else {
        Seq::empty()
    }
}

/// The trades `ids` name, skipping ids with no trade.
pub open spec fn trades_of(trades: Map<u128, OptimizedTradeView>, ids: Seq<u64>) -> Seq<OptimizedTradeView>
    decreases ids.len(),
{
    if ids.len() == 0 {
        Seq::empty()
    } else {
        let rest = trades_of(trades, ids.drop_last());
        if trades.contains_key(ids.last() as u128) {
            rest.push(trades[ids.last() as u128])
        } else {
            rest
        }
    }
}

/// State after a trade is stored and indexed.
pub open spec fn spec_set_trade(v: TradingStoreView, t: OptimizedTradeView) -> TradingStoreView {
    TradingStoreView {
        trades: v.trades.insert(t.id as u128, t),
        trader_index: v.trader_index.insert(spec_addr_key(t.trader), trader_ids(v, t.trader).push(t.id)),
        recent: keep_last(v.recent.push(t.id), MAX_RECENT_TRADES as int),
        ..v
    }
}

/// State after trades are stored in turn.
pub open spec fn spec_set_all(v: TradingStoreView, ts: Seq<OptimizedTradeView>) -> TradingStoreView
    decreases ts.len(),
{
    if ts.len() == 0 {
        v
    } else {
        spec_set_trade(spec_set_all(v, ts.drop_last()), ts.last())
    }
}

fn copy_ids(v: &Vec<u64>) -> (r: Vec<u64>)
    ensures
        r@ == v@,
{
    let mut r: Vec<u64> = Vec::new();
    let mut i: usize = 0;
    while i < v.len()
        invariant
            0 <= i <= v@.len(),
            r@ == v@.subrange(0, i as int),
        decreases v@.len() - i,
    {
        r.push(v[i]);
        assert(v@.subrange(0, i + 1) =~= v@.subrange(0, i as int).push(v@[i as int]));
        i = i + 1;
    }
    assert(v@.subrange(0, v@.len() as int) =~= v@);
    r
}

pub struct TradingStorage;

impl TradingStorage {
    pub fn is_initialized(env: &TradingStoreEnv) -> (b: bool)
        ensures
            b == env@.initialized,
    {
        env.initialized
    }

    /// Mark initialized with zero statistics.
    pub fn set_initialized(env: &mut TradingStoreEnv)
        requires
            old(env).wf(),
        ensures
            final(env).wf(),
            final(env)@ == (TradingStoreView {
                initialized: true,
                stats: Some(OptimizedTradeStats { total_trades: 0, total_volume: 0, last_trade_id: 0 }),
                ..old(env)@
            }),
    {
        env.initialized = true;
        env.stats = Some(OptimizedTradeStats { total_trades: 0, total_volume: 0, last_trade_id: 0 });
    }

    pub fn get_version(env: &TradingStoreEnv) -> (v: u32)
        ensures
            v == env@.version,
    {
        env.version
    }

    pub fn set_version(env: &mut TradingStoreEnv, version: u32)
        requires
            old(env).wf(),
        ensures
            final(env).wf(),
            final(env)@ == (TradingStoreView { version, ..old(env)@ }),
    {
        env.version = version;
    }

    /// Bring the layout version up to date; true if it was behind.
    pub fn check_and_migrate(env: &mut TradingStoreEnv) -> (migrated: bool)
        requires
            old(env).wf(),
        ensures
            final(env).wf(),
            migrated == (old(env)@.version < STORAGE_VERSION),
            final(env)@ == (if old(env)@.version < STORAGE_VERSION {
                TradingStoreView { version: STORAGE_VERSION, ..old(env)@ }
            } else {
                old(env)@
            }),
    {
        let current = Self::get_version(env);
        if current < STORAGE_VERSION {
            Self::perform_migration(env, current);
            true
        } else {
            false
        }
    }

    fn perform_migration(env: &mut TradingStoreEnv, from_version: u32)
        requires
            old(env).wf(),
        ensures
            final(env).wf(),
            final(env)@ == (if from_version == 0 || from_version == 1 {
                TradingStoreView { version: STORAGE_VERSION, ..old(env)@ }
            } else {
                old(env)@
            }),
    {
        if from_version == 0 {
            Self::set_version(env, STORAGE_VERSION);
        } else if from_version == 1 {
            Self::set_version(env, STORAGE_VERSION);
        }
    }

    /// Paused (false unless set).
    pub fn is_paused(env: &TradingStoreEnv) -> (b: bool)
        ensures
            b == (env@.paused == Some(true)),
    {
        match env.paused {
            Some(p) => p,
            None => false,
        }
    }

    pub fn set_paused(env: &mut TradingStoreEnv, paused: bool)
        requires
            old(env).wf(),
        ensures
            final(env).wf(),
            final(env)@ == (TradingStoreView { paused: Some(paused), ..old(env)@ }),
    {
        env.paused = Some(paused);
    }

    pub fn get_stats(env: &TradingStoreEnv) -> (s: OptimizedTradeStats)
        ensures
            s == spec_store_stats(env@),
    {
        match env.stats {
            Some(s) => s,
            None => OptimizedTradeStats { total_trades: 0, total_volume: 0, last_trade_id: 0 },
        }
    }

    pub fn set_stats(env: &mut TradingStoreEnv, stats: OptimizedTradeStats)
        requires
            old(env).wf(),
        ensures
            final(env).wf(),
            final(env)@ == (TradingStoreView { stats: Some(stats), ..old(env)@ }),
    {
        env.stats = Some(stats);
    }

    /// Count one more trade of `amount`; returns its id.
    pub fn increment_trade_stats(env: &mut TradingStoreEnv, amount: i128) -> (id: u64)
        requires
            old(env).wf(),
            spec_store_stats(old(env)@).last_trade_id < u64::MAX,
            spec_store_stats(old(env)@).total_trades < u64::MAX,
            i128::MIN <= spec_store_stats(old(env)@).total_volume + amount <= i128::MAX,
        ensures
            final(env).wf(),
            ({
                let s = spec_store_stats(old(env)@);
                &&& id == s.last_trade_id + 1
                &&& final(env)@ == (TradingStoreView {
                    stats: Some(OptimizedTradeStats {
                        total_trades: (s.total_trades + 1) as u64,
                        total_volume: (s.total_volume + amount) as i128,
                        last_trade_id: id,
                    }),
                    ..old(env)@
                })
            }),
    {
        let mut stats = Self::get_stats(env);
        stats.last_trade_id = stats.last_trade_id + 1;
        stats.total_trades = stats.total_trades + 1;
        stats.total_volume = stats.total_volume + amount;
        Self::set_stats(env, stats);
        stats.last_trade_id
    }

    pub fn set_oracle_config(env: &mut TradingStoreEnv, config: OptimizedOracleConfig)
        requires
            old(env).wf(),
        ensures
            final(env).wf(),
            final(env)@ == (TradingStoreView { oracle_config: Some(config@), ..old(env)@ }),
    {
        env.oracle_config = Some(config);
    }

    pub fn get_oracle_config(env: &TradingStoreEnv) -> (r: Option<OptimizedOracleConfig>)
        ensures
            match r {
                Some(c) => env@.oracle_config == Some(c@),
                None => env@.oracle_config is None,
            },
    {
        match &env.oracle_config {
            Some(c) => Some(OptimizedOracleConfig {
                oracles: crate::common::copy_addrs(&c.oracles),
                max_staleness: c.max_staleness,
                min_sources: c.min_sources,
            }),
            None => None,
        }
    }

    pub fn set_oracle_status(env: &mut TradingStoreEnv, status: OptimizedOracleStatus)
        requires
            old(env).wf(),
        ensures
            final(env).wf(),
            final(env)@ == (TradingStoreView { oracle_status: Some(status@), ..old(env)@ }),
    {
        env.oracle_status = Some(status);
    }

    /// Oracle status (the initial one when never set).
    pub fn get_oracle_status(env: &TradingStoreEnv) -> (s: OptimizedOracleStatus)
        ensures
            s@ == (match env@.oracle_status {
                Some(s) => s,
                None => initial_oracle_status(),
            }),
    {
        match &env.oracle_status {
            Some(s) => OptimizedOracleStatus {
                last_pair: s.last_pair.clone(),
                last_price: s.last_price,
                last_updated_at: s.last_updated_at,
                last_source_count: s.last_source_count,
                consecutive_failures: s.consecutive_failures,
            },
            None => OptimizedOracleStatus::new(),
        }
    }

    /// Store the role table.
    pub fn set_roles(env: &mut TradingStoreEnv, roles: Store<GovernanceRole>)
        requires
            old(env).wf(),
            roles.wf(),
        ensures
            final(env).wf(),
            final(env)@ == (TradingStoreView { roles: Some(roles@), ..old(env)@ }),
    {
        let ghost rv = roles@;
        env.roles = Some(roles);
        assert(env@ =~= TradingStoreView { roles: Some(rv), ..old(env)@ });
    }

    /// A copy of the role table, if one is stored.
    pub fn get_roles(env: &TradingStoreEnv) -> (r: Option<Store<GovernanceRole>>)
        requires
            env.wf(),
        ensures
            r is None <==> env@.roles is None,
            r matches Some(t) ==> t.wf() && env@.roles == Some(t@),
    {
        match &env.roles {
            None => None,
            Some(roles) => {
                let mut entries: Vec<(u128, GovernanceRole)> = Vec::new();
                let mut i: usize = 0;
                while i < roles.entries.len()
                    invariant
                        0 <= i <= roles.entries@.len(),
                        entries@ == roles.entries@.subrange(0, i as int),
                    decreases roles.entries@.len() - i,
                {
                    entries.push(roles.entries[i]);
                    assert(entries@ =~= roles.entries@.subrange(0, i + 1));
                    i = i + 1;
                }
                assert(entries@ =~= roles.entries@);
                let t = Store { entries };
                assert(t.entries@ == roles.entries@);
                assert forall|k: u128| #[trigger] t@.contains_key(k) == roles@.contains_key(k) by {
                    assert(t.has(k) == roles.has(k));
                }
                assert forall|k: u128| #[trigger] t@.contains_key(k) implies t@[k] == roles@[k] by {
                    assert(t.index_of(k) == roles.index_of(k));
                }
                assert(t@ =~= roles@);
                Some(t)
            },
        }
    }

    /// Whether `address` has a role.
    pub fn has_role(env: &TradingStoreEnv, address: Address) -> (b: bool)
        requires
            env.wf(),
        ensures
            b == (env@.roles matches Some(r) && r.contains_key(spec_addr_key(address))),
    {
        match &env.roles {
            Some(roles) => roles.contains(addr_key(address)),
            None => false,
        }
    }

    /// The role of `address`, if any.
    pub fn get_role(env: &TradingStoreEnv, address: Address) -> (r: Option<GovernanceRole>)
        requires
            env.wf(),
        ensures
            r == (match env@.roles {
                Some(m) => if m.contains_key(spec_addr_key(address)) { Some(m[spec_addr_key(address)]) } else { None },
                None => None,
            }),
    {
        match &env.roles {
            Some(roles) => match roles.get(addr_key(address)) {
                Some(role) => Some(*role),
                None => None,
            },
            None => None,
        }
    }

    /// Store `trade`, add it to its trader's index and to the recent
    /// buffer.
    pub fn set_trade(env: &mut TradingStoreEnv, trade: OptimizedTrade)
        requires
            old(env).wf(),
        ensures
            final(env).wf(),
            final(env)@ == spec_set_trade(old(env)@, trade@),
    {
        let ghost v = env@;
        let ghost tv = trade@;
        let id = trade.id;
        let trader = trade.trader;
        env.trades.set(id as u128, trade);
        assert(env@.trades =~= v.trades.insert(id as u128, tv));
        Self::add_trade_to_trader_index(env, trader, id);
        Self::add_to_recent_trades(env, id);
        assert(env@ =~= spec_set_trade(v, tv));
    }

    pub fn get_trade(env: &TradingStoreEnv, trade_id: u64) -> (r: Option<OptimizedTrade>)
        requires
            env.wf(),
        ensures
            r is Some <==> env@.trades.contains_key(trade_id as u128),
            r matches Some(t) ==> t@ == env@.trades[trade_id as u128],
    {
        match env.trades.get(trade_id as u128) {
            Some(t) => Some(copy_trade(t)),
            None => None,
        }
    }

    pub fn has_trade(env: &TradingStoreEnv, trade_id: u64) -> (b: bool)
        requires
            env.wf(),
        ensures
            b == env@.trades.contains_key(trade_id as u128),
    {
        env.trades.contains(trade_id as u128)
    }

    fn add_trade_to_trader_index(env: &mut TradingStoreEnv, trader: Address, trade_id: u64)
        requires
            old(env).wf(),
        ensures
            final(env).wf(),
            final(env)@ == (TradingStoreView {
                trader_index: old(env)@.trader_index.insert(spec_addr_key(trader), trader_ids(old(env)@, trader).push(trade_id)),
                ..old(env)@
            }),
    {
        let mut ids = Self::get_trader_trade_ids(env, trader);
        ids.push(trade_id);
        let ghost iv = ids@;
        env.trader_index.set(addr_key(trader), ids);
        assert(env@.trader_index =~= old(env)@.trader_index.insert(spec_addr_key(trader), iv));
        assert(env@ =~= TradingStoreView {
            trader_index: old(env)@.trader_index.insert(spec_addr_key(trader), iv),
            ..old(env)@
        });
    }

    /// `trader`'s trade ids, oldest first.
    pub fn get_trader_trade_ids(env: &TradingStoreEnv, trader: Address) -> (r: Vec<u64>)
        requires
            env.wf(),
        ensures
            r@ == trader_ids(env@, trader),
    {
        match env.trader_index.get(addr_key(trader)) {
            Some(v) => copy_ids(v),
            None => Vec::new(),
        }
    }

    /// `trader`'s stored trades, oldest first.
    pub fn get_trader_trades(env: &TradingStoreEnv, trader: Address) -> (r: Vec<OptimizedTrade>)
        requires
            env.wf(),
        ensures
            r@.map_values(|t: OptimizedTrade| t@) == trades_of(env@.trades, trader_ids(env@, trader)),
    {
        let ids = Self::get_trader_trade_ids(env, trader);
        let mut r: Vec<OptimizedTrade> = Vec::new();
        let mut i: usize = 0;
        while i < ids.len()
            invariant
                env.wf(),
                0 <= i <= ids@.len(),
                r@.map_values(|t: OptimizedTrade| t@) == trades_of(env@.trades, ids@.subrange(0, i as int)),
            decreases ids@.len() - i,
        {
            assert(ids@.subrange(0, i + 1).drop_last() =~= ids@.subrange(0, i as int));
            match Self::get_trade(env, ids[i]) {
                Some(t) => {
                    let ghost before = r@;
                    let ghost tv = t@;
                    r.push(t);
                    assert(r@.map_values(|t: OptimizedTrade| t@) =~= before.map_values(|t: OptimizedTrade| t@).push(tv));
                },
                None => {},
            }
            i = i + 1;
        }
        assert(ids@.subrange(0, ids@.len() as int) =~= ids@);
        r
    }

    fn add_to_recent_trades(env: &mut TradingStoreEnv, trade_id: u64)
        requires
            old(env).wf(),
        ensures
            final(env).wf(),
            final(env)@ == (TradingStoreView {
                recent: keep_last(old(env)@.recent.push(trade_id), MAX_RECENT_TRADES as int),
                ..old(env)@
            }),
    {
        let mut recent = copy_ids(&env.recent);
        recent.push(trade_id);
        let ghost grown = recent@;
        if recent.len() > MAX_RECENT_TRADES as usize {
            let start = recent.len() - MAX_RECENT_TRADES as usize;
            let mut trimmed: Vec<u64> = Vec::new();
            let mut i: usize = 0;
            while i < recent.len()
                invariant
                    recent@ == grown,
                    start <= grown.len(),
                    0 <= i <= grown.len(),
                    trimmed@ == grown.subrange(start as int, if i < start { start as int } else { i as int }),
                decreases grown.len() - i,
            {
                if i >= start {
                    trimmed.push(recent[i]);
                    assert(grown.subrange(start as int, i + 1) =~= grown.subrange(start as int, i as int).push(grown[i as int]));
                }
                i = i + 1;
            }
            recent = trimmed;
        }
        env.recent = recent;
        assert(env@ =~= TradingStoreView {
            recent: keep_last(old(env)@.recent.push(trade_id), MAX_RECENT_TRADES as int),
            ..old(env)@
        });
    }

    /// The recent trade ids, oldest first.
    pub fn get_recent_trade_ids(env: &TradingStoreEnv) -> (r: Vec<u64>)
        ensures
            r@ == env@.recent,
    {
        copy_ids(&env.recent)
    }

    /// Store several trades in turn.
    pub fn batch_set_trades(env: &mut TradingStoreEnv, trades: &Vec<OptimizedTrade>)
        requires
            old(env).wf(),
        ensures
            final(env).wf(),
            final(env)@ == spec_set_all(old(env)@, trades@.map_values(|t: OptimizedTrade| t@)),
    {
        let ghost v = env@;
        let ghost tvs = trades@.map_values(|t: OptimizedTrade| t@);
        let mut i: usize = 0;
        while i < trades.len()
            invariant
                env.wf(),
                0 <= i <= trades@.len(),
                tvs == trades@.map_values(|t: OptimizedTrade| t@),
                env@ == spec_set_all(v, tvs.take(i as int)),
            decreases trades@.len() - i,
        {
            let t = copy_trade(&trades[i]);
            proof {
                assert(tvs.take(i + 1).drop_last() =~= tvs.take(i as int));
                assert(tvs.take(i + 1).last() == t@);
            }
            Self::set_trade(env, t);
            i = i + 1;
        }
        assert(tvs.take(tvs.len() as int) =~= tvs);
    }

    /// Delete trade `trade_id` (indexes are left as they are).
    pub fn remove_trade(env: &mut TradingStoreEnv, trade_id: u64)
        requires
            old(env).wf(),
        ensures
            final(env).wf(),
            final(env)@ == (TradingStoreView { trades: old(env)@.trades.remove(trade_id as u128), ..old(env)@ }),
    {
        env.trades.remove(trade_id as u128);
        assert(env@ =~= TradingStoreView { trades: old(env)@.trades.remove(trade_id as u128), ..old(env)@ });
    }

    /// Total trades and the number of recent trade ids kept.
    pub fn get_storage_stats(env: &TradingStoreEnv) -> (r: (u64, u64))
        ensures
            r == (spec_store_stats(env@).total_trades, env@.recent.len() as u64),
    {
        let stats = Self::get_stats(env);
        let recent = Self::get_recent_trade_ids(env);
        (stats.total_trades, recent.len() as u64)
    }
}

pub struct TradingStorageMigration;

impl TradingStorageMigration {
    /// Copy legacy statistics and pause flag into the keyed layout; returns
    /// how many were copied.
    pub fn migrate_from_legacy(env: &mut TradingStoreEnv) -> (n: u64)
        requires
            old(env).wf(),
        ensures
            final(env).wf(),
            n == (if old(env)@.legacy_stats is Some { 1u64 } else { 0u64 }) + (if old(env)@.legacy_pause is Some {
                1u64
            } else {
                0u64
            }),
            final(env)@ == (TradingStoreView {
                stats: if old(env)@.legacy_stats is Some { old(env)@.legacy_stats } else { old(env)@.stats },
                paused: if old(env)@.legacy_pause is Some { old(env)@.legacy_pause } else { old(env)@.paused },
                ..old(env)@
            }),
    {
        let mut migrated: u64 = 0;
        if let Some(stats) = env.legacy_stats {
            TradingStorage::set_stats(env, stats);
            migrated = migrated + 1;
        }
        if let Some(paused) = env.legacy_pause {
            TradingStorage::set_paused(env, paused);
            migrated = migrated + 1;
        }
        assert(env@ =~= TradingStoreView {
            stats: if old(env)@.legacy_stats is Some { old(env)@.legacy_stats } else { old(env)@.stats },
            paused: if old(env)@.legacy_pause is Some { old(env)@.legacy_pause } else { old(env)@.paused },
            ..old(env)@
        });
        migrated
    }

    pub fn has_legacy_data(env: &TradingStoreEnv) -> (b: bool)
        ensures
            b == (env@.legacy_stats is Some || env@.legacy_pause is Some),
    {
        env.legacy_stats.is_some() || env.legacy_pause.is_some()
    }
}

} // verus!
