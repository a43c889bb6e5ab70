//! Properties of the token that span its operations.

use vstd::prelude::*;
use crate::common::{Address, spec_addr_key};
use crate::token::storage::{TokenView, bal};
use crate::token::contract::{transferred, spent, spend_ok};
use crate::token::storage::allowance_of;

verus! {

/// A transfer moves exactly `amount` from `from` to `to` and leaves every
/// other balance alone.
pub proof fn law_transfer_conserves(v: TokenView, from: Address, to: Address, other: Address, amount: i128)
    requires
        from != to,
        amount > 0,
        bal(v, from) - amount >= i128::MIN,
        bal(v, to) + amount <= i128::MAX,
        other != from && other != to,
    ensures
        ({
            let w = TokenView { balances: transferred(v, from, to, amount), ..v };
            &&& bal(w, from) == bal(v, from) - amount
            &&& bal(w, to) == bal(v, to) + amount
            &&& bal(w, other) == bal(v, other)
        }),
{
    assert(spec_addr_key(from) != spec_addr_key(to));
    assert(spec_addr_key(other) != spec_addr_key(to));
    assert(spec_addr_key(other) != spec_addr_key(from));
    let m1 = crate::token::storage::with_balance(v.balances, from, (bal(v, from) - amount) as i128);
    let m2 = crate::token::storage::with_balance(m1, to, (bal(v, to) + amount) as i128);
    assert(transferred(v, from, to, amount) == m2);
    assert(m1.contains_key(spec_addr_key(to)) == v.balances.contains_key(spec_addr_key(to)));
    assert(m1.contains_key(spec_addr_key(other)) == v.balances.contains_key(spec_addr_key(other)));
    assert(m2.contains_key(spec_addr_key(from)) == m1.contains_key(spec_addr_key(from)));
}

/// Spending from an allowance lowers it by exactly the amount taken and
/// never below zero.
pub proof fn law_allowance_decreases(v: TokenView, from: Address, spender: Address, amount: i128)
    requires
        amount > 0,
        spend_ok(v, from, spender, amount),
    ensures
        ({
            let w = TokenView { allowances: spent(v, from, spender, amount), ..v };
            &&& allowance_of(w, from, spender).amount == allowance_of(v, from, spender).amount - amount
            &&& allowance_of(w, from, spender).amount >= 0
        }),
{
}

} // verus!
