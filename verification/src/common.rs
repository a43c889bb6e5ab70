//! Values shared by every contract model.

use vstd::prelude::*;

verus! {

/// A Stellar account or contract address, identified by a number.
#[derive(Clone, Copy, Debug, PartialEq, Eq, Structural)]
pub struct Address(pub u64);

/// A short contract symbol (a name of up to nine characters), identified by
/// its packed number.
#[derive(Clone, Copy, Debug, PartialEq, Eq, Structural)]
pub struct Symbol(pub u64);

/// Storage key of a record kept per address.
pub open spec fn spec_addr_key(a: Address) -> u128 {
    a.0 as u128
}

pub fn addr_key(a: Address) -> (k: u128)
    ensures
        k == spec_addr_key(a),
{
    a.0 as u128
}

/// Storage key of a record kept per `(number, address)` pair.
pub open spec fn spec_pair_key(n: u64, a: Address) -> u128 {
    ((n as int) * 0x1_0000_0000_0000_0000 + (a.0 as int)) as u128
}

pub fn pair_key(n: u64, a: Address) -> (k: u128)
    ensures
        k == spec_pair_key(n, a),
{
    assert((n as u128) * 0x1_0000_0000_0000_0000 + (a.0 as u128) <= u128::MAX) by (nonlinear_arith)
        requires
            n <= u64::MAX,
            a.0 <= u64::MAX,
    ;
    (n as u128) * 0x1_0000_0000_0000_0000 + (a.0 as u128)
}

/// Distinct pairs are stored under distinct keys.
pub proof fn lemma_pair_key_injective(n1: u64, a1: Address, n2: u64, a2: Address)
    ensures
        spec_pair_key(n1, a1) == spec_pair_key(n2, a2) ==> n1 == n2 && a1 == a2,
{
    if spec_pair_key(n1, a1) == spec_pair_key(n2, a2) {
        assert(n1 == n2 && a1.0 == a2.0) by (nonlinear_arith)
            requires
                (n1 as int) * 0x1_0000_0000_0000_0000 + (a1.0 as int) == (n2 as int)
                    * 0x1_0000_0000_0000_0000 + (a2.0 as int),
                0 <= a1.0 < 0x1_0000_0000_0000_0000,
                0 <= a2.0 < 0x1_0000_0000_0000_0000,
                0 <= n1,
                0 <= n2,
        ;
    }
}

/// A token movement decided by a contract call, for the host to carry out on
/// the token contract `token`.
#[derive(Clone, Copy, Debug, PartialEq, Eq, Structural)]
pub struct TokenTransfer {
    pub token: Address,
    pub from: Address,
    pub to: Address,
    pub amount: i128,
}

/// Byte-wise equality of two byte strings.
pub fn bytes_eq(a: &Vec<u8>, b: &Vec<u8>) -> (r: bool)
    ensures
        r == (a@ == b@),
{
    if a.len() != b.len() {
        return false;
    }
    let mut i: usize = 0;
    while i < a.len()
        invariant
            a@.len() == b@.len(),
            0 <= i <= a@.len(),
            forall|j: int| 0 <= j < i ==> a@[j] == b@[j],
        decreases a@.len() - i,
    {
        if a[i] != b[i] {
            return false;
        }
        i = i + 1;
    }
    assert(a@ =~= b@);
    true
}

/// Equality of two 32-byte keys.
pub fn bytes32_eq(a: &[u8; 32], b: &[u8; 32]) -> (r: bool)
    ensures
        r == (a@ == b@),
{
    let mut i: usize = 0;
    while i < 32
        invariant
            0 <= i <= 32,
            a@.len() == 32 && b@.len() == 32,
            forall|j: int| 0 <= j < i ==> a@[j] == b@[j],
        decreases 32 - i,
    {
        if a[i] != b[i] {
            return false;
        }
        i = i + 1;
    }
    assert(a@ =~= b@);
    true
}

/// A copy of a byte string.
pub fn copy_bytes(a: &Vec<u8>) -> (r: Vec<u8>)
    ensures
        r@ == a@,
{
    let mut r: Vec<u8> = Vec::new();
    let mut i: usize = 0;
    while i < a.len()
        invariant
            0 <= i <= a@.len(),
            r@ == a@.subrange(0, i as int),
        decreases a@.len() - i,
    {
        r.push(a[i]);
        i = i + 1;
        assert(r@ =~= a@.subrange(0, i as int));
    }
    assert(a@.subrange(0, a@.len() as int) =~= a@);
    r
}

/// Whether `x` occurs in `v`.
pub fn contains_addr(v: &Vec<Address>, x: Address) -> (r: bool)
    ensures
        r == v@.contains(x),
{
    let mut i: usize = 0;
    while i < v.len()
        invariant
            0 <= i <= v@.len(),
            forall|j: int| 0 <= j < i ==> v@[j] != x,
        decreases v@.len() - i,
    {
        if v[i] == x {
            return true;
        }
        i = i + 1;
    }
    false
}

/// `v` without the occurrences of `x`, the rest in order.
pub open spec fn without(v: Seq<Address>, x: Address) -> Seq<Address> {
    v.filter(|y: Address| y != x)
}

pub fn remove_addr(v: &Vec<Address>, x: Address) -> (r: Vec<Address>)
    ensures
        r@ == without(v@, x),
{
    let mut r: Vec<Address> = Vec::new();
    let mut i: usize = 0;
    while i < v.len()
        invariant
            0 <= i <= v@.len(),
            r@ == without(v@.subrange(0, i as int), x),
        decreases v@.len() - i,
    {
        proof {
            reveal_with_fuel(Seq::<_>::filter, 1);
            assert(v@.subrange(0, i + 1).drop_last() =~= v@.subrange(0, i as int));
        }
        if v[i] != x {
            r.push(v[i]);
        }
        i = i + 1;
    }
    assert(v@.subrange(0, v@.len() as int) =~= v@);
    r
}

/// An element-for-element copy of `v`.
pub fn copy_addrs(v: &Vec<Address>) -> (r: Vec<Address>)
    ensures
        r@ == v@,
{
    let mut r: Vec<Address> = Vec::new();
    let mut i: usize = 0;
    while i < v.len()
        invariant
            0 <= i <= v@.len(),
            r@ == v@.subrange(0, i as int),
        decreases v@.len() - i,
    {
        r.push(v[i]);
        assert(v@.subrange(0, i + 1) =~= v@.subrange(0, i as int).push(v@[i as int]));
        i = i + 1;
    }
    assert(v@.subrange(0, v@.len() as int) =~= v@);
    r
}

/// The `n` low bytes of `x`, most significant first (`n` at most 16): the
/// big-endian encoding of an integer of `n` bytes, negative ones taken in
/// two's complement.
pub open spec fn spec_be_bytes(x: u128, n: nat) -> Seq<u8> {
    Seq::new(n, |j: int| (x >> ((8 * (n - 1 - j)) as u32)) as u8)
}

/// Append the `n` low bytes of `x` to `data`, most significant first.
pub fn push_be_bytes(data: &mut Vec<u8>, x: u128, n: u32)
    requires
        n <= 16,
    ensures
        final(data)@ == old(data)@ + spec_be_bytes(x, n as nat),
{
    let ghost start = data@;
    let mut j: u32 = 0;
    while j < n
        invariant
            0 <= j <= n <= 16,
            data@ == start + spec_be_bytes(x, n as nat).subrange(0, j as int),
        decreases n - j,
    {
        let sh: u32 = 8 * (n - 1 - j);
        data.push((x >> sh) as u8);
        assert(data@ =~= start + spec_be_bytes(x, n as nat).subrange(0, j + 1));
        j = j + 1;
    }
    assert(spec_be_bytes(x, n as nat).subrange(0, n as int) =~= spec_be_bytes(x, n as nat));
}

/// Strict lexicographic order of character strings, by code point (the order
/// of their UTF-8 bytes).
pub open spec fn str_lt(a: Seq<char>, b: Seq<char>) -> bool
    decreases a.len(),
{
    if b.len() == 0 {
        false
    } else if a.len() == 0 {
        true
    } else if a[0] != b[0] {
        (a[0] as int) < (b[0] as int)
    } else {
        str_lt(a.drop_first(), b.drop_first())
    }
}

pub proof fn lemma_str_lt_irreflexive(a: Seq<char>)
    ensures
        !str_lt(a, a),
    decreases a.len(),
{
    if a.len() > 0 {
        lemma_str_lt_irreflexive(a.drop_first());
    }
}

pub proof fn lemma_str_lt_transitive(a: Seq<char>, b: Seq<char>, c: Seq<char>)
    requires
        str_lt(a, b),
        str_lt(b, c),
    ensures
        str_lt(a, c),
    decreases a.len(),
{
    if a.len() > 0 && a[0] == b[0] && b[0] == c[0] {
        lemma_str_lt_transitive(a.drop_first(), b.drop_first(), c.drop_first());
    }
}

/// Two different strings are ordered one way or the other.
pub proof fn lemma_str_lt_total(a: Seq<char>, b: Seq<char>)
    ensures
        a == b || str_lt(a, b) || str_lt(b, a),
    decreases a.len(),
{
    if a.len() > 0 && b.len() > 0 && a[0] == b[0] {
        lemma_str_lt_total(a.drop_first(), b.drop_first());
        if a.drop_first() == b.drop_first() {
            assert(a =~= b) by {
                assert forall|i: int| 0 <= i < a.len() implies a[i] == b[i] by {
                    if i > 0 {
                        assert(a[i] == a.drop_first()[i - 1]);
                        assert(b[i] == b.drop_first()[i - 1]);
                    }
                }
            }
        }
    } else if a.len() == 0 && b.len() == 0 {
        assert(a =~= b);
    } else if a.len() > 0 && b.len() > 0 {
        assert((a[0] as int) != (b[0] as int));
    }
}

/// Whether `a` sorts strictly before `b`.
pub fn str_less(a: &String, b: &String) -> (r: bool)
    ensures
        r == str_lt(a@, b@),
{
    let la = a.as_str().unicode_len();
    let lb = b.as_str().unicode_len();
    let mut i: usize = 0;
    assert(a@.skip(0) =~= a@ && b@.skip(0) =~= b@);
    while i < la && i < lb
        invariant
            la == a@.len(),
            lb == b@.len(),
            i <= la,
            i <= lb,
            str_lt(a@, b@) == str_lt(a@.skip(i as int), b@.skip(i as int)),
        decreases la - i,
    {
        let ca = a.as_str().get_char(i);
        let cb = b.as_str().get_char(i);
        assert(a@.skip(i as int)[0] == ca && b@.skip(i as int)[0] == cb);
        if ca != cb {
            return (ca as u32) < (cb as u32);
        }
        assert(a@.skip(i as int).drop_first() =~= a@.skip(i + 1));
        assert(b@.skip(i as int).drop_first() =~= b@.skip(i + 1));
        i = i + 1;
    }
    i == la && i < lb
}

/// `x + y` clamped to the `i128` range.
pub open spec fn spec_sat_add_i128(x: int, y: int) -> i128 {
    if x + y > i128::MAX {
        i128::MAX
    } else if x + y < i128::MIN {
        i128::MIN
    } else {
        (x + y) as i128
    }
}

pub fn sat_add_i128(x: i128, y: i128) -> (r: i128)
    ensures
        r == spec_sat_add_i128(x as int, y as int),
{
    if y > 0 && x > i128::MAX - y {
        i128::MAX
    } else if y < 0 && x < i128::MIN - y {
        i128::MIN
    } else {
        x + y
    }
}

} // verus!
