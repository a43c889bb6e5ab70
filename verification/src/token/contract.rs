//! The token contract: transfers, allowances, burning, admin minting and
//! clawback. Calls that the host would abort (negative amounts, missing
//! balance or allowance, unauthorized holders, overflow) are excluded by
//! each function's precondition.

use vstd::prelude::*;
use crate::common::Address;
use crate::token::storage::{
    Allowance, TokenEnv, TokenMetadata, TokenMetadataView, TokenView, allowance_key, allowance_of, authorized_of,
    bal, with_balance,
};
use crate::token::storage;
use crate::token::admin::require_admin;

verus! {

/// Amounts are never negative.
pub fn ensure_nonnegative(amount: i128)
    requires
        amount >= 0,
{
}

fn require_authorized(env: &TokenEnv, id: Address)
    requires
        env.wf(),
        authorized_of(env@, id),
{
    let _ = storage::get_authorized(env, id);
}

/// `spender` may take `amount` from `from`: within an unexpired allowance,
/// or nothing at all from an expired one.
pub open spec fn spend_ok(v: TokenView, from: Address, spender: Address, amount: i128) -> bool {
    let a = allowance_of(v, from, spender);
    if a.expiration_ledger < v.ledger {
        amount <= 0
    } else {
        amount <= a.amount
    }
}

/// Allowances after `spender` takes `amount` from `from`.
pub open spec fn spent(v: TokenView, from: Address, spender: Address, amount: i128) -> Map<u128, Allowance> {
    let a = allowance_of(v, from, spender);
    if a.expiration_ledger < v.ledger || amount <= 0 {
        v.allowances
    } else {
        v.allowances.insert(allowance_key(from, spender), Allowance { amount: (a.amount - amount) as i128, ..a })
    }
}

/// A transfer of `amount` from `from` to `to` is covered and does not
/// overflow.
pub open spec fn transfer_ok(v: TokenView, from: Address, to: Address, amount: i128) -> bool {
    amount == 0 || from == to || (amount <= bal(v, from) && bal(v, to) + amount <= i128::MAX && bal(v, from) - amount
        >= i128::MIN)
}

/// Balances after moving `amount` from `from` to `to`.
pub open spec fn transferred(v: TokenView, from: Address, to: Address, amount: i128) -> Map<u128, i128> {
    if amount == 0 || from == to {
        v.balances
    } else {
        with_balance(
            with_balance(v.balances, from, (bal(v, from) - amount) as i128),
            to,
            (bal(v, to) + amount) as i128,
        )
    }
}

/// A burn of `amount` from `from` is covered and does not overflow.
pub open spec fn burn_ok(v: TokenView, from: Address, amount: i128) -> bool {
    amount <= bal(v, from) && bal(v, from) - amount >= i128::MIN && v.total_supply - amount >= i128::MIN
}

/// State after burning `amount` from `from`.
pub open spec fn burned(v: TokenView, from: Address, amount: i128) -> TokenView {
    TokenView {
        balances: with_balance(v.balances, from, (bal(v, from) - amount) as i128),
        total_supply: (v.total_supply - amount) as i128,
        ..v
    }
}

fn spend_allowance(env: &mut TokenEnv, from: Address, spender: Address, amount: i128)
    requires
        old(env).wf(),
        amount >= 0,
        spend_ok(old(env)@, from, spender, amount),
    ensures
        final(env).wf(),
        final(env)@ == (TokenView { allowances: spent(old(env)@, from, spender, amount), ..old(env)@ }),
        final(env).balances == old(env).balances,
{
    let allowance = storage::get_allowance(env, from, spender);
    if allowance.expiration_ledger < env.ledger {
        return;
    }
    if amount > 0 {
        let remaining = allowance.amount - amount;
        storage::set_allowance(env, from, spender, Allowance { amount: remaining, expiration_ledger: allowance.expiration_ledger });
    }
}

fn burn_balance(env: &mut TokenEnv, from: Address, amount: i128)
    requires
        old(env).wf(),
        amount >= 0,
        burn_ok(old(env)@, from, amount),
    ensures
        final(env).wf(),
        final(env)@ == burned(old(env)@, from, amount),
        old(env).supply_consistent() ==> final(env).supply_consistent(),
{
    let balance = storage::balance_of(env, from);
    let new_balance = balance - amount;
    storage::set_balance(env, from, new_balance);
    let supply = storage::total_supply(env);
    storage::set_total_supply(env, supply - amount);
    assert(env@ =~= burned(old(env)@, from, amount));
}

fn internal_transfer(env: &mut TokenEnv, from: Address, to: Address, amount: i128)
    requires
        old(env).wf(),
        amount >= 0,
        transfer_ok(old(env)@, from, to, amount),
    ensures
        final(env).wf(),
        final(env)@ == (TokenView { balances: transferred(old(env)@, from, to, amount), ..old(env)@ }),
        final(env).balance_sum() == old(env).balance_sum(),
{
    if amount == 0 || from == to {
        assert(env@ =~= TokenView { balances: transferred(old(env)@, from, to, amount), ..old(env)@ });
        return;
    }
    let from_balance = storage::balance_of(env, from);
    let to_balance = storage::balance_of(env, to);
    let new_from = from_balance - amount;
    let new_to = to_balance + amount;
    storage::set_balance(env, from, new_from);
    proof {
        assert(crate::common::spec_addr_key(from) != crate::common::spec_addr_key(to));
        assert(bal(env@, to) == to_balance);
    }
    storage::set_balance(env, to, new_to);
    assert(env@ =~= TokenView { balances: transferred(old(env)@, from, to, amount), ..old(env)@ });
}

pub struct TokenContract;

impl TokenContract {
    /// Set the admin and metadata once; the supply starts at zero.
    pub fn initialize(env: &mut TokenEnv, admin: Address, name: String, symbol: String, decimals: u32)
        requires
            old(env).wf(),
            old(env)@.admin is None,
        ensures
            final(env).wf(),
            final(env)@ == (TokenView {
                admin: Some(admin),
                metadata: Some(TokenMetadataView { name: name@, symbol: symbol@, decimals }),
                total_supply: 0,
                ..old(env)@
            }),
            old(env).balance_sum() == 0 ==> final(env).supply_consistent(),
    {
        storage::set_admin(env, admin);
        storage::set_metadata(env, TokenMetadata { name, symbol, decimals });
        storage::set_total_supply(env, 0);
    }

    /// Usable allowance of `spender` over `from`.
    pub fn allowance(env: &TokenEnv, from: Address, spender: Address) -> (n: i128)
        requires
            env.wf(),
        ensures
            n == (if allowance_of(env@, from, spender).expiration_ledger < env@.ledger {
                0
            } else {
                allowance_of(env@, from, spender).amount
            }),
    {
        storage::get_allowance_amount(env, from, spender)
    }

    /// Let `spender` take up to `amount` from `from` until
    /// `expiration_ledger`.
    pub fn approve(env: &mut TokenEnv, from: Address, spender: Address, amount: i128, expiration_ledger: u32)
        requires
            old(env).wf(),
            amount >= 0,
            !(expiration_ledger < old(env)@.ledger && amount != 0),
        ensures
            final(env).wf(),
            final(env)@ == (TokenView {
                allowances: old(env)@.allowances.insert(
                    allowance_key(from, spender),
                    Allowance { amount, expiration_ledger },
                ),
                ..old(env)@
            }),
            final(env).balances == old(env).balances,
    {
        ensure_nonnegative(amount);
        storage::set_allowance(env, from, spender, Allowance { amount, expiration_ledger });
    }

    pub fn balance(env: &TokenEnv, id: Address) -> (b: i128)
        requires
            env.wf(),
        ensures
            b == bal(env@, id),
    {
        storage::balance_of(env, id)
    }

    /// Move `amount` from `from` to `to`.
    pub fn transfer(env: &mut TokenEnv, from: Address, to: Address, amount: i128)
        requires
            old(env).wf(),
            amount >= 0,
            authorized_of(old(env)@, from),
            transfer_ok(old(env)@, from, to, amount),
        ensures
            final(env).wf(),
            final(env)@ == (TokenView { balances: transferred(old(env)@, from, to, amount), ..old(env)@ }),
            old(env).supply_consistent() ==> final(env).supply_consistent(),
    {
        ensure_nonnegative(amount);
        require_authorized(env, from);
        internal_transfer(env, from, to, amount);
    }

    /// `spender` moves `amount` from `from` to `to` under its allowance.
    pub fn transfer_from(env: &mut TokenEnv, spender: Address, from: Address, to: Address, amount: i128)
        requires
            old(env).wf(),
            amount >= 0,
            authorized_of(old(env)@, from),
            spend_ok(old(env)@, from, spender, amount),
            transfer_ok(old(env)@, from, to, amount),
        ensures
            final(env).wf(),
            final(env)@ == (TokenView {
                allowances: spent(old(env)@, from, spender, amount),
                balances: transferred(old(env)@, from, to, amount),
                ..old(env)@
            }),
            old(env).supply_consistent() ==> final(env).supply_consistent(),
    {
        ensure_nonnegative(amount);
        require_authorized(env, from);
        spend_allowance(env, from, spender, amount);
        internal_transfer(env, from, to, amount);
        assert(env@ =~= TokenView {
            allowances: spent(old(env)@, from, spender, amount),
            balances: transferred(old(env)@, from, to, amount),
            ..old(env)@
        });
    }

    /// Destroy `amount` of `from`'s tokens.
    pub fn burn(env: &mut TokenEnv, from: Address, amount: i128)
        requires
            old(env).wf(),
            amount >= 0,
            authorized_of(old(env)@, from),
            burn_ok(old(env)@, from, amount),
        ensures
            final(env).wf(),
            final(env)@ == burned(old(env)@, from, amount),
            old(env).supply_consistent() ==> final(env).supply_consistent(),
    {
        ensure_nonnegative(amount);
        require_authorized(env, from);
        burn_balance(env, from, amount);
    }

    /// `spender` destroys `amount` of `from`'s tokens under its allowance.
    pub fn burn_from(env: &mut TokenEnv, spender: Address, from: Address, amount: i128)
        requires
            old(env).wf(),
            amount >= 0,
            authorized_of(old(env)@, from),
            spend_ok(old(env)@, from, spender, amount),
            burn_ok(old(env)@, from, amount),
        ensures
            final(env).wf(),
            final(env)@ == burned(TokenView { allowances: spent(old(env)@, from, spender, amount), ..old(env)@ }, from, amount),
            old(env).supply_consistent() ==> final(env).supply_consistent(),
    {
        ensure_nonnegative(amount);
        require_authorized(env, from);
        spend_allowance(env, from, spender, amount);
        burn_balance(env, from, amount);
    }

    pub fn decimals(env: &TokenEnv) -> (d: u32)
        requires
            env@.metadata is Some,
        ensures
            d == env@.metadata.unwrap().decimals,
    {
        storage::get_metadata(env).decimals
    }

    pub fn name(env: &TokenEnv) -> (n: String)
        requires
            env@.metadata is Some,
        ensures
            n@ == env@.metadata.unwrap().name,
    {
        storage::get_metadata(env).name
    }

    pub fn symbol(env: &TokenEnv) -> (s: String)
        requires
            env@.metadata is Some,
        ensures
            s@ == env@.metadata.unwrap().symbol,
    {
        storage::get_metadata(env).symbol
    }

    /// Hand the admin role to `new_admin` (current admin's authorization).
    pub fn set_admin(env: &mut TokenEnv, new_admin: Address)
        requires
            old(env)@.admin is Some,
        ensures
            final(env)@ == (TokenView { admin: Some(new_admin), ..old(env)@ }),
            final(env).balances == old(env).balances,
            final(env).allowances == old(env).allowances,
            final(env).authorized == old(env).authorized,
    {
        let _current = storage::get_admin(env);
        storage::set_admin(env, new_admin);
    }

    pub fn admin(env: &TokenEnv) -> (a: Address)
        requires
            env@.admin is Some,
        ensures
            env@.admin == Some(a),
    {
        storage::get_admin(env)
    }

    /// Allow or forbid `id` to move its tokens (admin only).
    pub fn set_authorized(env: &mut TokenEnv, id: Address, authorize: bool)
        requires
            old(env).wf(),
            old(env)@.admin is Some,
        ensures
            final(env).wf(),
            final(env)@ == (TokenView {
                authorized: old(env)@.authorized.insert(crate::common::spec_addr_key(id), authorize),
                ..old(env)@
            }),
            final(env).balances == old(env).balances,
    {
        require_admin(env);
        storage::set_authorized(env, id, authorize);
    }

    pub fn authorized(env: &TokenEnv, id: Address) -> (b: bool)
        requires
            env.wf(),
        ensures
            b == authorized_of(env@, id),
    {
        storage::get_authorized(env, id)
    }

    /// Create `amount` new tokens for `to` (admin only).
    pub fn mint(env: &mut TokenEnv, to: Address, amount: i128)
        requires
            old(env).wf(),
            old(env)@.admin is Some,
            amount >= 0,
            bal(old(env)@, to) + amount <= i128::MAX,
            old(env)@.total_supply + amount <= i128::MAX,
        ensures
            final(env).wf(),
            final(env)@ == (TokenView {
                balances: with_balance(old(env)@.balances, to, (bal(old(env)@, to) + amount) as i128),
                total_supply: (old(env)@.total_supply + amount) as i128,
                ..old(env)@
            }),
            old(env).supply_consistent() ==> final(env).supply_consistent(),
    {
        require_admin(env);
        ensure_nonnegative(amount);
        let balance = storage::balance_of(env, to);
        storage::set_balance(env, to, balance + amount);
        let supply = storage::total_supply(env);
        storage::set_total_supply(env, supply + amount);
        assert(env@ =~= TokenView {
            balances: with_balance(old(env)@.balances, to, (bal(old(env)@, to) + amount) as i128),
            total_supply: (old(env)@.total_supply + amount) as i128,
            ..old(env)@
        });
    }

    /// Take back `amount` of `from`'s tokens (admin only).
    pub fn clawback(env: &mut TokenEnv, from: Address, amount: i128)
        requires
            old(env).wf(),
            old(env)@.admin is Some,
            amount >= 0,
            burn_ok(old(env)@, from, amount),
        ensures
            final(env).wf(),
            final(env)@ == burned(old(env)@, from, amount),
            old(env).supply_consistent() ==> final(env).supply_consistent(),
    {
        require_admin(env);
        ensure_nonnegative(amount);
        burn_balance(env, from, amount);
    }

    pub fn total_supply(env: &TokenEnv) -> (t: i128)
        ensures
            t == env@.total_supply,
    {
        storage::total_supply(env)
    }
}

} // verus!
