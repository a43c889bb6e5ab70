//! The private trading contract.

use vstd::prelude::*;
use crate::common::{Address, addr_key, spec_addr_key};
use crate::store::Store;

verus! {

#[derive(Clone, Copy, Debug, PartialEq, Eq, Structural)]
pub enum PrivateTradeError {
    Unauthorized,
    InvalidCommitment,
    AlreadySpent,
    InsufficientBalance,
    InvalidAmount,
    OrderNotFound,
    InvalidProof,
    Paused,
    NotInitialized,
    OrderExpired,
    InvalidPrice,
}

#[derive(Clone, Copy, Debug)]
pub enum DataKey {
    Admin,
    Paused,
    TokenPair,
    Order(u64),
    NextOrderId,
    UserOrders(Address),
    TotalVolumeCommitment,
    Nullifier([u8; 32]),
}

#[derive(Clone, Copy, Debug, PartialEq, Eq, Structural)]
pub struct TokenPair {
    pub base_token: Address,
    pub quote_token: Address,
    pub base_decimals: u32,
    pub quote_decimals: u32,
}

#[derive(Clone, Copy, Debug, PartialEq, Eq, Structural)]
pub enum OrderSide {
    Buy,
    Sell,
}

#[derive(Clone, Copy, Debug, PartialEq, Eq, Structural)]
pub enum OrderStatus {
    Open,
    Filled,
    Cancelled,
    Expired,
}

/// An order; its amount is only known through a commitment.
#[derive(Clone, Copy, Debug)]
pub struct PrivateOrder {
    pub id: u64,
    pub trader: Address,
    pub side: OrderSide,
    pub price: i128,
    pub amount_commitment: [u8; 32],
    pub nullifier_hash: [u8; 32],
    pub status: OrderStatus,
    pub created_at: u64,
    pub expires_at: u64,
    pub filled_commitment: [u8; 32],
}

/// A settled trade.
#[derive(Clone, Copy, Debug)]
pub struct TradeExecution {
    pub trade_id: u64,
    pub buy_order_id: u64,
    pub sell_order_id: u64,
    pub price: i128,
    pub base_amount_commitment: [u8; 32],
    pub quote_amount_commitment: [u8; 32],
    pub executed_at: u64,
}

/// Contract storage and ledger of the private trading contract.
pub struct PtEnv {
    pub timestamp: u64,
    pub contract_address: Address,
    pub admin: Option<Address>,
    pub token_pair: Option<TokenPair>,
    pub next_order_id: Option<u64>,
    pub paused: Option<bool>,
    pub orders: Store<PrivateOrder>,
    pub user_orders: Store<Vec<u64>>,
    /// Nullifier hashes already used.
    pub nullifiers: Vec<[u8; 32]>,
}

#[verifier::ext_equal]
pub struct PtView {
    pub timestamp: u64,
    pub contract_address: Address,
    pub admin: Option<Address>,
    pub token_pair: Option<TokenPair>,
    pub next_order_id: Option<u64>,
    pub paused: Option<bool>,
    pub orders: Map<u128, PrivateOrder>,
    pub user_orders: Map<u128, Seq<u64>>,
    pub nullifiers: Seq<Seq<u8>>,
}

impl View for PtEnv {
    type V = PtView;

    open spec fn view(&self) -> PtView {
        PtView {
            timestamp: self.timestamp,
            contract_address: self.contract_address,
            admin: self.admin,
            token_pair: self.token_pair,
            next_order_id: self.next_order_id,
            paused: self.paused,
            orders: self.orders@,
            user_orders: self.user_orders@.map_values(|v: Vec<u64>| v@),
            nullifiers: self.nullifiers@.map_values(|n: [u8; 32]| n@),
        }
    }
}

impl PtEnv {
    pub open spec fn wf(&self) -> bool {
        &&& self.orders.wf()
        &&& self.user_orders.wf()
    }

    pub fn new(contract_address: Address, timestamp: u64) -> (e: Self)
        ensures
            e.wf(),
            e@ == (PtView {
                timestamp,
                contract_address,
                admin: None,
                token_pair: None,
                next_order_id: None,
                paused: None,
                orders: Map::empty(),
                user_orders: Map::empty(),
                nullifiers: Seq::empty(),
            }),
    {
        let e = PtEnv {
            timestamp,
            contract_address,
            admin: None,
            token_pair: None,
            next_order_id: None,
            paused: None,
            orders: Store::new(),
            user_orders: Store::new(),
            nullifiers: Vec::new(),
        };
        assert(e@ =~= PtView {
            timestamp,
            contract_address,
            admin: None,
            token_pair: None,
            next_order_id: None,
            paused: None,
            orders: Map::empty(),
            user_orders: Map::empty(),
            nullifiers: Seq::empty(),
        });
        e
    }
}

fn zero32() -> (a: [u8; 32])
    ensures
        a@ == Seq::new(32, |_i: int| 0u8),
{
    let a = [0u8; 32];
    assert(a@ =~= Seq::new(32, |_i: int| 0u8));
    a
}

fn bytes32_eq(a: &[u8; 32], b: &[u8; 32]) -> (r: bool)
    ensures
        r == (a@ == b@),
{
    let mut i: usize = 0;
    while i < 32
        invariant
            0 <= i <= 32,
            a@.len() == 32 && b@.len() == 32,
            forall|j: int| 0 <= j < i ==> a@[j] == b@[j],
        decreases 32 - i,
    {
        if a[i] != b[i] {
            return false;
        }
        i = i + 1;
    }
    assert(a@ =~= b@);
    true
}

pub open spec fn spec_paused(v: PtView) -> bool {
    v.paused == Some(true)
}

pub open spec fn spec_next_id(v: PtView) -> u64 {
    match v.next_order_id {
        Some(n) => n,
        None => 1,
    }
}

pub open spec fn spec_user_orders(v: PtView, user: Address) -> Seq<u64> {
    if v.user_orders.contains_key(spec_addr_key(user)) {
        v.user_orders[spec_addr_key(user)]
    } else {
        Seq::empty()
    }
}

pub open spec fn has_order(v: PtView, id: u64) -> bool {
    v.orders.contains_key(id as u128)
}

pub open spec fn order_of(v: PtView, id: u64) -> PrivateOrder {
    v.orders[id as u128]
}

/// Result of placing an order.
pub open spec fn spec_create_result(v: PtView, price: i128, expires_at: u64, nullifier: Seq<u8>) -> Result<u64, PrivateTradeError> {
    if spec_paused(v) {
        Err(PrivateTradeError::Paused)
    } else if price <= 0 {
        Err(PrivateTradeError::InvalidPrice)
    } else if expires_at <= v.timestamp {
        Err(PrivateTradeError::OrderExpired)
    } else if v.nullifiers.contains(nullifier) {
        Err(PrivateTradeError::AlreadySpent)
    } else {
        Ok(spec_next_id(v))
    }
}

/// Result of settling `buy_id` against `sell_id` at `price`.
pub open spec fn spec_execute_result(v: PtView, buy_id: u64, sell_id: u64, price: i128) -> Result<u64, PrivateTradeError> {
    let b = order_of(v, buy_id);
    let s = order_of(v, sell_id);
    if spec_paused(v) {
        Err(PrivateTradeError::Paused)
    } else if !has_order(v, buy_id) || !has_order(v, sell_id) {
        Err(PrivateTradeError::OrderNotFound)
    } else if b.status != OrderStatus::Open || s.status != OrderStatus::Open {
        Err(PrivateTradeError::InvalidProof)
    } else if b.side != OrderSide::Buy || s.side != OrderSide::Sell {
        Err(PrivateTradeError::InvalidProof)
    } else if price > b.price || price < s.price {
        Err(PrivateTradeError::InvalidPrice)
    } else if b.expires_at <= v.timestamp || s.expires_at <= v.timestamp {
        Err(PrivateTradeError::OrderExpired)
    } else {
        Ok(buy_id ^ sell_id ^ v.timestamp)
    }
}

pub struct PrivateTradingContract;

impl PrivateTradingContract {
    /// Set the admin and token pair once; order ids start at 1.
    pub fn initialize(env: &mut PtEnv, admin: Address, base_token: Address, quote_token: Address) -> (r: Result<(), PrivateTradeError>)
        requires
            old(env).wf(),
        ensures
            final(env).wf(),
            r == (if old(env)@.admin is Some { Err(PrivateTradeError::Unauthorized) } else { Ok(()) }),
            r is Err ==> final(env)@ == old(env)@,
            r is Ok ==> final(env)@ == (PtView {
                admin: Some(admin),
                token_pair: Some(TokenPair { base_token, quote_token, base_decimals: 18, quote_decimals: 18 }),
                next_order_id: Some(1),
                paused: Some(false),
                ..old(env)@
            }),
    {
        if env.admin.is_some() {
            return Err(PrivateTradeError::Unauthorized);
        }
        env.admin = Some(admin);
        env.token_pair = Some(TokenPair { base_token, quote_token, base_decimals: 18, quote_decimals: 18 });
        env.next_order_id = Some(1);
        env.paused = Some(false);
        Ok(())
    }

    /// Place an order with a commitment to its amount and an unused
    /// nullifier; returns the order id.
    pub fn create_order(
        env: &mut PtEnv,
        trader: Address,
        side: OrderSide,
        price: i128,
        amount_commitment: [u8; 32],
        nullifier_hash: [u8; 32],
        expires_at: u64,
    ) -> (r: Result<u64, PrivateTradeError>)
        requires
            old(env).wf(),
            spec_next_id(old(env)@) < u64::MAX,
        ensures
            final(env).wf(),
            ({
                let v = old(env)@;
                let id = spec_next_id(v);
                &&& r == spec_create_result(v, price, expires_at, nullifier_hash@)
                &&& r is Err ==> final(env)@ == v
                &&& r is Ok ==> final(env)@.orders[id as u128].filled_commitment@ == Seq::new(32, |_i: int| 0u8)
                &&& r is Ok ==> final(env)@ == (PtView {
                    orders: v.orders.insert(id as u128, PrivateOrder {
                        id,
                        trader,
                        side,
                        price,
                        amount_commitment,
                        nullifier_hash,
                        status: OrderStatus::Open,
                        created_at: v.timestamp,
                        expires_at,
                        filled_commitment: final(env)@.orders[id as u128].filled_commitment,
                    }),
                    nullifiers: v.nullifiers.push(nullifier_hash@),
                    user_orders: v.user_orders.insert(spec_addr_key(trader), spec_user_orders(v, trader).push(id)),
                    next_order_id: Some((id + 1) as u64),
                    ..v
                })
            }),
    {
        if Self::is_paused(env) {
            return Err(PrivateTradeError::Paused);
        }
        if price <= 0 {
            return Err(PrivateTradeError::InvalidPrice);
        }
        if expires_at <= env.timestamp {
            return Err(PrivateTradeError::OrderExpired);
        }
        if Self::is_nullifier_used(env, &nullifier_hash) {
            return Err(PrivateTradeError::AlreadySpent);
        }
        let ghost v = env@;
        let order_id = Self::next_order_id(env);
        let order = PrivateOrder {
            id: order_id,
            trader,
            side,
            price,
            amount_commitment,
            nullifier_hash,
            status: OrderStatus::Open,
            created_at: env.timestamp,
            expires_at,
            filled_commitment: zero32(),
        };
        env.orders.set(order_id as u128, order);
        env.nullifiers.push(nullifier_hash);
        let mut ids: Vec<u64> = match env.user_orders.get(addr_key(trader)) {
            Some(ids) => {
                let mut c: Vec<u64> = Vec::new();
                let mut i: usize = 0;
                while i < ids.len()
                    invariant
                        0 <= i <= ids@.len(),
                        c@ == ids@.subrange(0, i as int),
                    decreases ids@.len() - i,
                {
                    c.push(ids[i]);
                    assert(ids@.subrange(0, i + 1) =~= ids@.subrange(0, i as int).push(ids@[i as int]));
                    i = i + 1;
                }
                assert(ids@.subrange(0, ids@.len() as int) =~= ids@);
                c
            },
            None => Vec::new(),
        };
        ids.push(order_id);
        let ghost iv = ids@;
        env.user_orders.set(addr_key(trader), ids);
        env.next_order_id = Some(order_id + 1);
        assert(env@.user_orders =~= v.user_orders.insert(spec_addr_key(trader), iv));
        assert(env@.nullifiers =~= v.nullifiers.push(nullifier_hash@));
        assert(env@ =~= PtView {
            orders: v.orders.insert(order_id as u128, order),
            nullifiers: v.nullifiers.push(nullifier_hash@),
            user_orders: v.user_orders.insert(spec_addr_key(trader), iv),
            next_order_id: Some((order_id + 1) as u64),
            ..v
        });
        Ok(order_id)
    }

    /// Cancel one's own open order.
    pub fn cancel_order(env: &mut PtEnv, trader: Address, order_id: u64) -> (r: Result<(), PrivateTradeError>)
        requires
            old(env).wf(),
        ensures
            final(env).wf(),
            ({
                let v = old(env)@;
                let o = order_of(v, order_id);
                &&& r == (if !has_order(v, order_id) {
                    Err(PrivateTradeError::OrderNotFound)
                } else if o.trader != trader {
                    Err(PrivateTradeError::Unauthorized)
                } else if o.status != OrderStatus::Open {
                    Err(PrivateTradeError::InvalidProof)
                } else {
                    Ok(())
                })
                &&& r is Err ==> final(env)@ == v
                &&& r is Ok ==> final(env)@ == (PtView {
                    orders: v.orders.insert(order_id as u128, PrivateOrder { status: OrderStatus::Cancelled, ..o }),
                    ..v
                })
            }),
    {
        let mut order = match env.orders.get(order_id as u128) {
            None => return Err(PrivateTradeError::OrderNotFound),
            Some(o) => *o,
        };
        if order.trader != trader {
            return Err(PrivateTradeError::Unauthorized);
        }
        if order.status != OrderStatus::Open {
            return Err(PrivateTradeError::InvalidProof);
        }
        order.status = OrderStatus::Cancelled;
        let ghost v = env@;
        env.orders.set(order_id as u128, order);
        assert(env@ =~= PtView { orders: v.orders.insert(order_id as u128, order), ..v });
        Ok(())
    }

    /// Settle an open buy order against an open sell order at a price
    /// between their limits, before either expires; both become filled.
    /// The trade id mixes the two order ids and the time.
    pub fn execute_trade(
        env: &mut PtEnv,
        executor: Address,
        buy_order_id: u64,
        sell_order_id: u64,
        execution_price: i128,
        base_amount_commitment: [u8; 32],
        quote_amount_commitment: [u8; 32],
    ) -> (r: Result<u64, PrivateTradeError>)
        requires
            old(env).wf(),
        ensures
            final(env).wf(),
            r == spec_execute_result(old(env)@, buy_order_id, sell_order_id, execution_price),
            r is Err ==> final(env)@ == old(env)@,
            r is Ok ==> ({
                let v = old(env)@;
                let b = PrivateOrder {
                    filled_commitment: base_amount_commitment,
                    status: OrderStatus::Filled,
                    ..order_of(v, buy_order_id)
                };
                let s = PrivateOrder {
                    filled_commitment: base_amount_commitment,
                    status: OrderStatus::Filled,
                    ..order_of(v, sell_order_id)
                };
                final(env)@ == (PtView {
                    orders: v.orders.insert(buy_order_id as u128, b).insert(sell_order_id as u128, s),
                    ..v
                })
            }),
    {
        if Self::is_paused(env) {
            return Err(PrivateTradeError::Paused);
        }
        let mut buy_order = match env.orders.get(buy_order_id as u128) {
            None => return Err(PrivateTradeError::OrderNotFound),
            Some(o) => *o,
        };
        let mut sell_order = match env.orders.get(sell_order_id as u128) {
            None => return Err(PrivateTradeError::OrderNotFound),
            Some(o) => *o,
        };
        if buy_order.status != OrderStatus::Open || sell_order.status != OrderStatus::Open {
            return Err(PrivateTradeError::InvalidProof);
        }
        if buy_order.side != OrderSide::Buy || sell_order.side != OrderSide::Sell {
            return Err(PrivateTradeError::InvalidProof);
        }
        if execution_price > buy_order.price || execution_price < sell_order.price {
            return Err(PrivateTradeError::InvalidPrice);
        }
        let current_time = env.timestamp;
        if buy_order.expires_at <= current_time || sell_order.expires_at <= current_time {
            return Err(PrivateTradeError::OrderExpired);
        }
        let trade_id = buy_order_id ^ sell_order_id ^ current_time;
        buy_order.filled_commitment = base_amount_commitment;
        sell_order.filled_commitment = base_amount_commitment;
        buy_order.status = OrderStatus::Filled;
        sell_order.status = OrderStatus::Filled;
        let ghost v = env@;
        env.orders.set(buy_order_id as u128, buy_order);
        env.orders.set(sell_order_id as u128, sell_order);
        assert(env@ =~= PtView {
            orders: v.orders.insert(buy_order_id as u128, buy_order).insert(sell_order_id as u128, sell_order),
            ..v
        });
        Ok(trade_id)
    }

    pub fn get_order(env: &PtEnv, order_id: u64) -> (r: Option<PrivateOrder>)
        requires
            env.wf(),
        ensures
            r == (if has_order(env@, order_id) { Some(order_of(env@, order_id)) } else { None }),
    {
        match env.orders.get(order_id as u128) {
            Some(o) => Some(*o),
            None => None,
        }
    }

    /// Number of orders `user` has placed.
    pub fn get_user_order_count(env: &PtEnv, user: Address) -> (n: u32)
        requires
            env.wf(),
            spec_user_orders(env@, user).len() <= u32::MAX,
        ensures
            n == spec_user_orders(env@, user).len(),
    {
        match env.user_orders.get(addr_key(user)) {
            Some(ids) => ids.len() as u32,
            None => 0,
        }
    }

    /// The token pair (this contract's address twice before set-up).
    pub fn token_pair(env: &PtEnv) -> (p: TokenPair)
        ensures
            p == (match env@.token_pair {
                Some(p) => p,
                None => TokenPair {
                    base_token: env@.contract_address,
                    quote_token: env@.contract_address,
                    base_decimals: 0,
                    quote_decimals: 0,
                },
            }),
    {
        match env.token_pair {
            Some(p) => p,
            None => TokenPair {
                base_token: env.contract_address,
                quote_token: env.contract_address,
                base_decimals: 0,
                quote_decimals: 0,
            },
        }
    }

    pub fn next_order_id(env: &PtEnv) -> (n: u64)
        ensures
            n == spec_next_id(env@),
    {
        match env.next_order_id {
            Some(n) => n,
            None => 1,
        }
    }

    /// Whether `nullifier_hash` has been used.
    pub fn is_nullifier_used(env: &PtEnv, nullifier_hash: &[u8; 32]) -> (b: bool)
        ensures
            b == env@.nullifiers.contains(nullifier_hash@),
    {
        let mut i: usize = 0;
        while i < env.nullifiers.len()
            invariant
                0 <= i <= env.nullifiers@.len(),
                forall|j: int| 0 <= j < i ==> env@.nullifiers[j] != nullifier_hash@,
            decreases env.nullifiers@.len() - i,
        {
            if bytes32_eq(&env.nullifiers[i], nullifier_hash) {
                assert(env@.nullifiers[i as int] == nullifier_hash@);
                return true;
            }
            i = i + 1;
        }
        false
    }

    /// Stop trading (admin only).
    pub fn pause(env: &mut PtEnv, admin: Address) -> (r: Result<(), PrivateTradeError>)
        requires
            old(env).wf(),
        ensures
            final(env).wf(),
            r == (if old(env)@.admin == Some(admin) { Ok(()) } else { Err(PrivateTradeError::Unauthorized) }),
            r is Err ==> final(env)@ == old(env)@,
            r is Ok ==> final(env)@ == (PtView { paused: Some(true), ..old(env)@ }),
    {
        if !Self::is_admin(env, admin) {
            return Err(PrivateTradeError::Unauthorized);
        }
        env.paused = Some(true);
        Ok(())
    }

    /// Resume trading (admin only).
    pub fn unpause(env: &mut PtEnv, admin: Address) -> (r: Result<(), PrivateTradeError>)
        requires
            old(env).wf(),
        ensures
            final(env).wf(),
            r == (if old(env)@.admin == Some(admin) { Ok(()) } else { Err(PrivateTradeError::Unauthorized) }),
            r is Err ==> final(env)@ == old(env)@,
            r is Ok ==> final(env)@ == (PtView { paused: Some(false), ..old(env)@ }),
    {
        if !Self::is_admin(env, admin) {
            return Err(PrivateTradeError::Unauthorized);
        }
        env.paused = Some(false);
        Ok(())
    }

    pub fn is_paused(env: &PtEnv) -> (b: bool)
        ensures
            b == spec_paused(env@),
    {
        match env.paused {
            Some(p) => p,
            None => false,
        }
    }

    pub fn is_admin(env: &PtEnv, address: Address) -> (b: bool)
        ensures
            b == (env@.admin == Some(address)),
    {
        match env.admin {
            Some(a) => a == address,
            None => false,
        }
    }
}

/// A nullifier is used at most once: an order whose nullifier was already
/// used is refused.
pub proof fn law_nullifier_single_use(v: PtView, price: i128, expires_at: u64, nullifier: Seq<u8>)
    requires
        v.nullifiers.contains(nullifier),
    ensures
        spec_create_result(v, price, expires_at, nullifier) is Err,
{
}

/// A settled trade respects both limit prices.
pub proof fn law_trade_within_limits(v: PtView, buy_id: u64, sell_id: u64, price: i128)
    requires
        spec_execute_result(v, buy_id, sell_id, price) is Ok,
    ensures
        order_of(v, sell_id).price <= price <= order_of(v, buy_id).price,
        order_of(v, buy_id).side == OrderSide::Buy,
        order_of(v, sell_id).side == OrderSide::Sell,
{
}

/// Only two open, unexpired orders are ever matched: a trade is accepted
/// only when both the buy and the sell order exist, are still open (neither
/// cancelled nor filled), have not expired and the contract is not paused.
pub proof fn law_only_open_orders_trade(v: PtView, buy_id: u64, sell_id: u64, price: i128)
    requires
        spec_execute_result(v, buy_id, sell_id, price) is Ok,
    ensures
        !spec_paused(v),
        has_order(v, buy_id),
        has_order(v, sell_id),
        order_of(v, buy_id).status == OrderStatus::Open,
        order_of(v, sell_id).status == OrderStatus::Open,
        order_of(v, buy_id).expires_at > v.timestamp,
        order_of(v, sell_id).expires_at > v.timestamp,
{
}

/// An order its trader has cancelled can no longer be matched, on either
/// side of a trade.
pub proof fn law_cancelled_order_never_trades(v: PtView, id: u64, other: u64, price: i128)
    requires
        has_order(v, id),
    ensures
        ({
            let w = PtView {
                orders: v.orders.insert(id as u128, PrivateOrder { status: OrderStatus::Cancelled, ..order_of(v, id) }),
                ..v
            };
            &&& spec_execute_result(w, id, other, price) is Err
            &&& spec_execute_result(w, other, id, price) is Err
        }),
{
}

} // verus!
