//! Storage of the token contract.

use vstd::prelude::*;
use crate::common::{Address, addr_key, pair_key, spec_addr_key, spec_pair_key};
use crate::store::Store;
use crate::token::nft::{NftStorage, NftView, empty_nft_view};

verus! {

#[derive(Clone, Copy, Debug, PartialEq, Eq, Structural)]
pub struct AllowanceKey {
    pub from: Address,
    pub spender: Address,
}

/// What `spender` may still take from `from`, until a ledger.
#[derive(Clone, Copy, Debug, PartialEq, Eq, Structural)]
pub struct Allowance {
    pub amount: i128,
    pub expiration_ledger: u32,
}

#[derive(Debug)]
pub struct TokenMetadata {
    pub name: String,
    pub symbol: String,
    pub decimals: u32,
}

pub struct TokenMetadataView {
    pub name: Seq<char>,
    pub symbol: Seq<char>,
    pub decimals: u32,
}

impl View for TokenMetadata {
    type V = TokenMetadataView;

    open spec fn view(&self) -> TokenMetadataView {
        TokenMetadataView { name: self.name@, symbol: self.symbol@, decimals: self.decimals }
    }
}

#[derive(Clone, Copy, Debug, PartialEq, Eq, Structural)]
pub enum TokenType {
    Fungible,
    NonFungible,
    SemiFungible,
}

/// Contract storage and ledger of the token contract.
pub struct TokenEnv {
    /// Ledger sequence number.
    pub ledger: u32,
    pub admin: Option<Address>,
    pub metadata: Option<TokenMetadata>,
    /// Stored total supply (0 when never set).
    pub total_supply: i128,
    /// Non-zero balances by holder.
    pub balances: Store<i128>,
    /// Allowances by `(from, spender)`.
    pub allowances: Store<Allowance>,
    /// Authorization flags by holder (authorized when unset).
    pub authorized: Store<bool>,
    pub token_type: Option<TokenType>,
    /// Non-fungible and semi-fungible item records.
    pub nft: NftStorage,
}

#[verifier::ext_equal]
pub struct TokenView {
    pub ledger: u32,
    pub admin: Option<Address>,
    pub metadata: Option<TokenMetadataView>,
    pub total_supply: i128,
    pub balances: Map<u128, i128>,
    pub allowances: Map<u128, Allowance>,
    pub authorized: Map<u128, bool>,
    pub token_type: Option<TokenType>,
    pub nft: NftView,
}

pub open spec fn opt_meta_view(m: Option<TokenMetadata>) -> Option<TokenMetadataView> {
    match m {
        Some(x) => Some(x@),
        None => None,
    }
}

impl View for TokenEnv {
    type V = TokenView;

    open spec fn view(&self) -> TokenView {
        TokenView {
            ledger: self.ledger,
            admin: self.admin,
            metadata: opt_meta_view(self.metadata),
            total_supply: self.total_supply,
            balances: self.balances@,
            allowances: self.allowances@,
            authorized: self.authorized@,
            token_type: self.token_type,
            nft: self.nft@,
        }
    }
}

/// Sum of the values of a sequence of records.
pub open spec fn sum_values(s: Seq<(u128, i128)>) -> int
    decreases s.len(),
{
    if s.len() == 0 {
        0
    } else {
        sum_values(s.drop_last()) + s.last().1
    }
}

pub proof fn lemma_sum_update(s: Seq<(u128, i128)>, i: int, e: (u128, i128))
    requires
        0 <= i < s.len(),
    ensures
        sum_values(s.update(i, e)) == sum_values(s) - s[i].1 + e.1,
    decreases s.len(),
{
    if i == s.len() - 1 {
        assert(s.update(i, e).drop_last() =~= s.drop_last());
    } else {
        lemma_sum_update(s.drop_last(), i, e);
        assert(s.update(i, e).drop_last() =~= s.drop_last().update(i, e));
    }
}

pub proof fn lemma_sum_remove(s: Seq<(u128, i128)>, i: int)
    requires
        0 <= i < s.len(),
    ensures
        sum_values(s.remove(i)) == sum_values(s) - s[i].1,
    decreases s.len(),
{
    if i == s.len() - 1 {
        assert(s.remove(i) =~= s.drop_last());
    } else {
        lemma_sum_remove(s.drop_last(), i);
        assert(s.remove(i).drop_last() =~= s.drop_last().remove(i));
    }
}

pub proof fn lemma_sum_push(s: Seq<(u128, i128)>, e: (u128, i128))
    ensures
        sum_values(s.push(e)) == sum_values(s) + e.1,
{
    assert(s.push(e).drop_last() =~= s);
}

impl TokenEnv {
    pub open spec fn wf(&self) -> bool {
        &&& self.balances.wf()
        &&& self.allowances.wf()
        &&& self.authorized.wf()
        &&& self.nft.wf()
    }

    /// Sum of all balances.
    pub open spec fn balance_sum(&self) -> int {
        sum_values(self.balances.entries@)
    }

    /// The stored total supply is the sum of all balances.
    pub open spec fn supply_consistent(&self) -> bool {
        self.total_supply == self.balance_sum()
    }

    /// Empty token storage at ledger `ledger`.
    pub fn new(ledger: u32) -> (e: Self)
        ensures
            e.wf(),
            e.supply_consistent(),
            e@ == (TokenView {
                ledger,
                admin: None,
                metadata: None,
                total_supply: 0,
                balances: Map::empty(),
                allowances: Map::empty(),
                authorized: Map::empty(),
                token_type: None,
                nft: empty_nft_view(),
            }),
    {
        let e = TokenEnv {
            ledger,
            admin: None,
            metadata: None,
            total_supply: 0,
            balances: Store::new(),
            allowances: Store::new(),
            authorized: Store::new(),
            token_type: None,
            nft: NftStorage::new(),
        };
        assert(e@ =~= TokenView {
            ledger,
            admin: None,
            metadata: None,
            total_supply: 0,
            balances: Map::empty(),
            allowances: Map::empty(),
            authorized: Map::empty(),
            token_type: None,
            nft: e.nft@,
        });
        e
    }
}

/// Balance of `id` (0 when none is stored).
pub open spec fn bal(v: TokenView, id: Address) -> i128 {
    if v.balances.contains_key(spec_addr_key(id)) {
        v.balances[spec_addr_key(id)]
    } else {
        0
    }
}

/// The balances with `id`'s set to `amount` (a zero balance is not stored).
pub open spec fn with_balance(m: Map<u128, i128>, id: Address, amount: i128) -> Map<u128, i128> {
    if amount == 0 {
        m.remove(spec_addr_key(id))
    } else {
        m.insert(spec_addr_key(id), amount)
    }
}

/// Storage key of the allowance of `spender` over `from`.
pub open spec fn allowance_key(from: Address, spender: Address) -> u128 {
    spec_pair_key(from.0, spender)
}

/// Stored allowance (zero, expired at ledger 0, when none).
pub open spec fn allowance_of(v: TokenView, from: Address, spender: Address) -> Allowance {
    if v.allowances.contains_key(allowance_key(from, spender)) {
        v.allowances[allowance_key(from, spender)]
    } else {
        Allowance { amount: 0, expiration_ledger: 0 }
    }
}

/// Whether `id` is authorized (yes unless set otherwise).
pub open spec fn authorized_of(v: TokenView, id: Address) -> bool {
    if v.authorized.contains_key(spec_addr_key(id)) {
        v.authorized[spec_addr_key(id)]
    } else {
        true
    }
}

pub fn has_admin(env: &TokenEnv) -> (b: bool)
    ensures
        b == env@.admin is Some,
{
    env.admin.is_some()
}

pub fn set_admin(env: &mut TokenEnv, admin: Address)
    ensures
        final(env)@ == (TokenView { admin: Some(admin), ..old(env)@ }),
        final(env).balances == old(env).balances,
        final(env).allowances == old(env).allowances,
        final(env).authorized == old(env).authorized,
        final(env).nft == old(env).nft,
{
    env.admin = Some(admin);
}

/// The admin; the contract must have one.
pub fn get_admin(env: &TokenEnv) -> (a: Address)
    requires
        env@.admin is Some,
    ensures
        env@.admin == Some(a),
{
    match env.admin {
        Some(a) => a,
        None => Address(0),
    }
}

pub fn set_metadata(env: &mut TokenEnv, metadata: TokenMetadata)
    ensures
        final(env)@ == (TokenView { metadata: Some(metadata@), ..old(env)@ }),
        final(env).balances == old(env).balances,
        final(env).allowances == old(env).allowances,
        final(env).authorized == old(env).authorized,
        final(env).nft == old(env).nft,
{
    env.metadata = Some(metadata);
}

/// The metadata; it must have been set.
pub fn get_metadata(env: &TokenEnv) -> (m: TokenMetadata)
    requires
        env@.metadata is Some,
    ensures
        env@.metadata == Some(m@),
{
    match &env.metadata {
        Some(m) => TokenMetadata { name: m.name.clone(), symbol: m.symbol.clone(), decimals: m.decimals },
        None => TokenMetadata { name: String::new(), symbol: String::new(), decimals: 0 },
    }
}

pub fn set_total_supply(env: &mut TokenEnv, total: i128)
    ensures
        final(env)@ == (TokenView { total_supply: total, ..old(env)@ }),
        final(env).balances == old(env).balances,
        final(env).allowances == old(env).allowances,
        final(env).authorized == old(env).authorized,
        final(env).nft == old(env).nft,
{
    env.total_supply = total;
}

pub fn total_supply(env: &TokenEnv) -> (t: i128)
    ensures
        t == env@.total_supply,
{
    env.total_supply
}

pub fn balance_of(env: &TokenEnv, id: Address) -> (b: i128)
    requires
        env.wf(),
    ensures
        b == bal(env@, id),
{
    match env.balances.get(addr_key(id)) {
        Some(b) => *b,
        None => 0,
    }
}

/// Store `id`'s balance; a zero balance is deleted.
pub fn set_balance(env: &mut TokenEnv, id: Address, amount: i128)
    requires
        old(env).wf(),
    ensures
        final(env).wf(),
        final(env)@ == (TokenView { balances: with_balance(old(env)@.balances, id, amount), ..old(env)@ }),
        final(env).balance_sum() == old(env).balance_sum() - bal(old(env)@, id) + amount,
{
    let ghost pre = env.balances;
    let k = addr_key(id);
    if amount == 0 {
        env.balances.remove(k);
        proof {
            if pre@.contains_key(k) {
                let i = pre.index_of(k);
                pre.lemma_at(i);
                lemma_sum_remove(pre.entries@, i);
            }
        }
    } else {
        env.balances.set(k, amount);
        proof {
            if pre@.contains_key(k) {
                let i = pre.index_of(k);
                pre.lemma_at(i);
                lemma_sum_update(pre.entries@, i, (k, amount));
            } else {
                lemma_sum_push(pre.entries@, (k, amount));
            }
        }
    }
    assert(env@ =~= TokenView { balances: with_balance(old(env)@.balances, id, amount), ..old(env)@ });
}

pub fn set_allowance(env: &mut TokenEnv, from: Address, spender: Address, allowance: Allowance)
    requires
        old(env).wf(),
    ensures
        final(env).wf(),
        final(env)@ == (TokenView {
            allowances: old(env)@.allowances.insert(allowance_key(from, spender), allowance),
            ..old(env)@
        }),
        final(env).balances == old(env).balances,
{
    env.allowances.set(pair_key(from.0, spender), allowance);
    assert(env@ =~= TokenView {
        allowances: old(env)@.allowances.insert(allowance_key(from, spender), allowance),
        ..old(env)@
    });
}

pub fn get_allowance(env: &TokenEnv, from: Address, spender: Address) -> (a: Allowance)
    requires
        env.wf(),
    ensures
        a == allowance_of(env@, from, spender),
{
    match env.allowances.get(pair_key(from.0, spender)) {
        Some(a) => *a,
        None => Allowance { amount: 0, expiration_ledger: 0 },
    }
}

/// The allowance still usable now: zero once expired.
pub fn get_allowance_amount(env: &TokenEnv, from: Address, spender: Address) -> (n: i128)
    requires
        env.wf(),
    ensures
        n == (if allowance_of(env@, from, spender).expiration_ledger < env@.ledger {
            0
        } else {
            allowance_of(env@, from, spender).amount
        }),
{
    let allowance = get_allowance(env, from, spender);
    if allowance.expiration_ledger < env.ledger {
        0
    } else {
        allowance.amount
    }
}

pub fn set_authorized(env: &mut TokenEnv, id: Address, authorized: bool)
    requires
        old(env).wf(),
    ensures
        final(env).wf(),
        final(env)@ == (TokenView { authorized: old(env)@.authorized.insert(spec_addr_key(id), authorized), ..old(env)@ }),
        final(env).balances == old(env).balances,
{
    env.authorized.set(addr_key(id), authorized);
    assert(env@ =~= TokenView { authorized: old(env)@.authorized.insert(spec_addr_key(id), authorized), ..old(env)@ });
}

pub fn get_authorized(env: &TokenEnv, id: Address) -> (b: bool)
    requires
        env.wf(),
    ensures
        b == authorized_of(env@, id),
{
    match env.authorized.get(addr_key(id)) {
        Some(b) => *b,
        None => true,
    }
}

pub fn set_token_type(env: &mut TokenEnv, token_type: TokenType)
    ensures
        final(env)@ == (TokenView { token_type: Some(token_type), ..old(env)@ }),
        final(env).balances == old(env).balances,
        final(env).allowances == old(env).allowances,
        final(env).authorized == old(env).authorized,
        final(env).nft == old(env).nft,
{
    env.token_type = Some(token_type);
}

/// The token type (fungible unless set).
pub fn get_token_type(env: &TokenEnv) -> (t: TokenType)
    ensures
        t == (match env@.token_type {
            Some(t) => t,
            None => TokenType::Fungible,
        }),
{
    match env.token_type {
        Some(t) => t,
        None => TokenType::Fungible,
    }
}

} // verus!
