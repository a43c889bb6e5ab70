//! Threshold, fee and decimal arithmetic of the bridge, and the payload that
//! validators sign.

use vstd::prelude::*;
use crate::bridge::types::{BridgeError, BridgeRequest, ExternalChain};
use crate::bridge::storage::{chain_to_id, spec_chain_to_id};
use crate::common::{Address, addr_key, spec_addr_key};
use crate::crypto::{ed25519_verify, sha256, spec_ed25519_verifies, spec_sha256};
use crate::store::Store;

verus! {

/// Maximum slash strikes before a validator is removed.
pub const MAX_SLASH_STRIKES: u32 = 3;

/// Seconds between proposing and applying a validator-set change (48 h).
pub const VALIDATOR_UPGRADE_TIMELOCK_SECONDS: u64 = 172_800;

/// Minimum number of validators in the set.
pub const MIN_VALIDATOR_COUNT: usize = 3;

/// `⌊2n/3⌋ + 1`, the least count that is more than two thirds of `n`.
pub open spec fn spec_minimum_threshold(n: int) -> int {
    (2 * n) / 3 + 1
}

/// Minimum required approvals to guarantee Byzantine fault tolerance:
/// strictly more than 2/3 of the validator set.
pub fn minimum_threshold(validator_count: u32) -> (t: u32)
    requires
        2 * validator_count <= u32::MAX,
    ensures
        t == spec_minimum_threshold(validator_count as int),
{
    (validator_count * 2 / 3) + 1
}

/// The outcome of checking a proposed threshold for a set of `count`.
pub open spec fn spec_validate_threshold(threshold: int, count: int) -> Result<(), BridgeError> {
    if count < 3 {
        Err(BridgeError::ValidatorSetTooSmall)
    } else if threshold > count {
        Err(BridgeError::ThresholdExceedsSet)
    } else if threshold < spec_minimum_threshold(count) {
        Err(BridgeError::ThresholdTooLow)
    } else {
        Ok(())
    }
}

/// Validate that a proposed threshold satisfies the BFT requirement.
pub fn validate_threshold(threshold: u32, validator_count: u32) -> (r: Result<(), BridgeError>)
    requires
        validator_count < 3 || threshold > validator_count || 2 * validator_count <= u32::MAX,
    ensures
        r == spec_validate_threshold(threshold as int, validator_count as int),
{
    if validator_count < 3 {
        return Err(BridgeError::ValidatorSetTooSmall);
    }
    if threshold > validator_count {
        return Err(BridgeError::ThresholdExceedsSet);
    }
    if threshold < minimum_threshold(validator_count) {
        return Err(BridgeError::ThresholdTooLow);
    }
    Ok(())
}

/// An accepted threshold is reached only by more than two thirds of the set,
/// and never exceeds the set.
pub proof fn lemma_valid_threshold_is_bft(threshold: int, count: int)
    requires
        spec_validate_threshold(threshold, count) is Ok,
    ensures
        3 * threshold > 2 * count,
        threshold <= count,
        count >= 3,
{
}

/// A transfer above ten times the per-transaction maximum needs every
/// validator's approval.
pub open spec fn spec_requires_supermajority(amount: int, max_single_tx: int) -> bool {
    amount > max_single_tx * 10
}

pub fn requires_supermajority(amount: i128, max_single_tx: i128) -> (b: bool)
    requires
        i128::MIN <= max_single_tx * 10 <= i128::MAX,
    ensures
        b == spec_requires_supermajority(amount as int, max_single_tx as int),
{
    amount > max_single_tx * 10
}

/// Approvals a request of `amount` needs from a set of `validator_count` with
/// `threshold`.
pub open spec fn spec_effective_required_approvals(
    validator_count: int,
    threshold: int,
    amount: int,
    max_single_tx: int,
) -> int {
    if spec_requires_supermajority(amount, max_single_tx) {
        validator_count
    } else {
        threshold
    }
}

pub fn effective_required_approvals(
    validator_count: u32,
    threshold: u32,
    amount: i128,
    max_single_tx: i128,
) -> (r: u32)
    requires
        i128::MIN <= max_single_tx * 10 <= i128::MAX,
    ensures
        r == spec_effective_required_approvals(
            validator_count as int,
            threshold as int,
            amount as int,
            max_single_tx as int,
        ),
{
    if requires_supermajority(amount, max_single_tx) {
        validator_count
    } else {
        threshold
    }
}

/// The fee on `amount` at `fee_bps` basis points, rounded down, computed on
/// the amount's unsigned 128-bit reading (a negative amount reads as its
/// two's complement).
pub open spec fn spec_fee(amount: int, fee_bps: int) -> int {
    twos_complement_128(amount) * fee_bps / 10_000
}

/// Bridge fee and net amount: `(fee, amount - fee)`. The product of the
/// amount's unsigned reading and the rate must fit in 128 bits, and the net
/// amount in an `i128`.
pub fn calculate_fee(amount: i128, fee_bps: u32) -> (r: (i128, i128))
    requires
        twos_complement_128(amount as int) * fee_bps <= u128::MAX,
        i128::MIN <= amount - spec_fee(amount as int, fee_bps as int),
    ensures
        r.0 == spec_fee(amount as int, fee_bps as int),
        r.1 == amount - r.0,
{
    let unsigned: u128 = if amount >= 0 {
        amount as u128
    } else {
        ((amount + i128::MAX) + 1) as u128 + 0x8000_0000_0000_0000_0000_0000_0000_0000
    };
    let product: u128 = unsigned * fee_bps as u128;
    let q: u128 = product / 10_000;
    assert(q <= u128::MAX / 10_000);
    let fee = q as i128;
    let net = amount - fee;
    (fee, net)
}

/// Fee and net split the amount, and a fee of at most 100% is never more
/// than the amount.
pub proof fn lemma_fee_split(amount: int, fee_bps: int)
    requires
        amount >= 0,
        0 <= fee_bps <= 10_000,
    ensures
        0 <= spec_fee(amount, fee_bps) <= amount,
        spec_fee(amount, fee_bps) + (amount - spec_fee(amount, fee_bps)) == amount,
{
    assert(0 <= amount * fee_bps <= amount * 10_000) by (nonlinear_arith)
        requires
            amount >= 0,
            0 <= fee_bps <= 10_000,
    ;
    assert(amount * fee_bps / 10_000 <= amount) by (nonlinear_arith)
        requires
            0 <= amount * fee_bps <= amount * 10_000,
    ;
}

/// `10^n`.
pub open spec fn pow10(n: nat) -> int
    decreases n,
{
    if n == 0 {
        1
    } else {
        10 * pow10((n - 1) as nat)
    }
}

pub proof fn lemma_pow10_positive(n: nat)
    ensures
        pow10(n) >= 1,
    decreases n,
{
    if n > 0 {
        lemma_pow10_positive((n - 1) as nat);
    }
}

/// Division rounding toward zero, as Rust's `/` on signed integers.
pub open spec fn trunc_div(a: int, b: int) -> int {
    if a >= 0 {
        a / b
    } else {
        -((-a) / b)
    }
}

/// `amount` expressed with `decimals_stellar` decimals instead of
/// `decimals_external`: divided (toward zero) or multiplied by the power of
/// ten between them.
pub open spec fn spec_normalise(amount: int, from_decimals: int, to_decimals: int) -> int {
    if from_decimals == to_decimals {
        amount
    } else if from_decimals > to_decimals {
        trunc_div(amount, pow10((from_decimals - to_decimals) as nat))
    } else {
        amount * pow10((to_decimals - from_decimals) as nat)
    }
}

fn pow10_i128(n: u32) -> (p: i128)
    requires
        pow10(n as nat) <= i128::MAX,
    ensures
        p == pow10(n as nat),
{
    let mut p: i128 = 1;
    let mut i: u32 = 0;
    while i < n
        invariant
            0 <= i <= n,
            p == pow10(i as nat),
            pow10(n as nat) <= i128::MAX,
        decreases n - i,
    {
        proof {
            lemma_pow10_monotone((i + 1) as nat, n as nat);
            let ip1: nat = (i + 1) as nat;
            assert(pow10(ip1) == 10 * pow10((ip1 - 1) as nat));
            assert((ip1 - 1) as nat == i as nat);
            lemma_pow10_positive(i as nat);
            assert(p * 10 <= i128::MAX);
        }
        p = p * 10;
        i = i + 1;
    }
    p
}

pub proof fn lemma_pow10_monotone(a: nat, b: nat)
    requires
        a <= b,
    ensures
        pow10(a) <= pow10(b),
    decreases b,
{
    lemma_pow10_positive(b);
    if a < b {
        lemma_pow10_monotone(a, (b - 1) as nat);
        lemma_pow10_positive((b - 1) as nat);
    }
}

/// Convert an amount from external-chain decimals to Stellar decimals.
pub fn normalise_to_stellar(amount: i128, decimals_external: u32, decimals_stellar: u32) -> (r: i128)
    requires
        decimals_external > decimals_stellar ==> pow10((decimals_external - decimals_stellar) as nat)
            <= i128::MAX,
        decimals_external < decimals_stellar ==> i128::MIN <= amount * pow10(
            (decimals_stellar - decimals_external) as nat,
        ) <= i128::MAX && pow10((decimals_stellar - decimals_external) as nat) <= i128::MAX,
    ensures
        r == spec_normalise(amount as int, decimals_external as int, decimals_stellar as int),
{
    if decimals_external == decimals_stellar {
        return amount;
    }
    if decimals_external > decimals_stellar {
        let factor = pow10_i128(decimals_external - decimals_stellar);
        proof {
            lemma_pow10_positive((decimals_external - decimals_stellar) as nat);
        }
        amount / factor
    } else {
        let factor = pow10_i128(decimals_stellar - decimals_external);
        amount * factor
    }
}

/// Convert an amount from Stellar decimals to external-chain decimals.
pub fn normalise_to_external(amount: i128, decimals_stellar: u32, decimals_external: u32) -> (r: i128)
    requires
        decimals_stellar > decimals_external ==> pow10((decimals_stellar - decimals_external) as nat)
            <= i128::MAX,
        decimals_stellar < decimals_external ==> i128::MIN <= amount * pow10(
            (decimals_external - decimals_stellar) as nat,
        ) <= i128::MAX && pow10((decimals_external - decimals_stellar) as nat) <= i128::MAX,
    ensures
        r == spec_normalise(amount as int, decimals_stellar as int, decimals_external as int),
{
    normalise_to_stellar(amount, decimals_stellar, decimals_external)
}

/// Scaling up and back down returns the original amount.
pub proof fn lemma_normalise_roundtrip(amount: int, d_low: int, d_high: int)
    requires
        0 <= d_low <= d_high,
    ensures
        spec_normalise(spec_normalise(amount, d_low, d_high), d_high, d_low) == amount,
{
    if d_low < d_high {
        let f = pow10((d_high - d_low) as nat);
        lemma_pow10_positive((d_high - d_low) as nat);
        if amount >= 0 {
            assert((amount * f) / f == amount) by (nonlinear_arith)
                requires
                    f > 0,
            ;
        } else {
            assert(-(amount * f) == (-amount) * f) by (nonlinear_arith);
            assert(((-amount) * f) / f == -amount) by (nonlinear_arith)
                requires
                    f > 0,
            ;
            assert(amount * f < 0) by (nonlinear_arith)
                requires
                    f > 0,
                    amount < 0,
            ;
        }
    }
}

/// Domain separator that starts every signed payload.
pub open spec fn bridge_domain() -> Seq<u8> {
    seq![115u8, 116, 101, 108, 108, 97, 114, 97, 95, 98, 114, 105, 100, 103, 101, 95, 118, 49]
}

/// The `n` low bytes of `x`, least significant first.
pub open spec fn le_bytes(x: nat, n: nat) -> Seq<u8>
    decreases n,
{
    if n == 0 {
        Seq::empty()
    } else {
        seq![(x % 256) as u8] + le_bytes(x / 256, (n - 1) as nat)
    }
}

pub proof fn lemma_le_bytes_len(x: nat, n: nat)
    ensures
        le_bytes(x, n).len() == n,
    decreases n,
{
    if n > 0 {
        lemma_le_bytes_len(x / 256, (n - 1) as nat);
    }
}

/// The `n` low bytes of `x`, most significant first (Rust's `to_be_bytes`).
pub open spec fn be_bytes(x: nat, n: nat) -> Seq<u8> {
    le_bytes(x, n).reverse()
}

/// Two's-complement reading of an `i128` as an unsigned 128-bit number.
pub open spec fn twos_complement_128(x: int) -> nat {
    if x >= 0 {
        x as nat
    } else {
        (x + 0x1_0000_0000_0000_0000_0000_0000_0000_0000) as nat
    }
}

/// The canonical payload of a request: the request id (8 bytes), the net
/// amount (16 bytes), the chain id (4 bytes), all big-endian, the 32-byte
/// hash of the Stellar asset's address, then the external address.
pub open spec fn spec_canonical_payload(
    request_id: u64,
    net_amount: i128,
    chain: ExternalChain,
    asset_hash: Seq<u8>,
    external_address: Seq<u8>,
) -> Seq<u8> {
    be_bytes(request_id as nat, 8) + be_bytes(twos_complement_128(net_amount as int), 16)
        + be_bytes(spec_chain_to_id(chain) as nat, 4) + asset_hash + external_address
}

/// What a validator signs for a request: SHA-256 of the domain separator
/// followed by the canonical payload.
pub open spec fn spec_signed_message(
    request_id: u64,
    net_amount: i128,
    chain: ExternalChain,
    asset_hash: Seq<u8>,
    external_address: Seq<u8>,
) -> Seq<u8> {
    spec_sha256(bridge_domain() + spec_canonical_payload(request_id, net_amount, chain, asset_hash, external_address))
}

fn push_be(buf: &mut Vec<u8>, x: u128, n: usize)
    requires
        n <= 16,
    ensures
        final(buf)@ == old(buf)@ + be_bytes(x as nat, n as nat),
{
    let mut le: Vec<u8> = Vec::new();
    let mut y: u128 = x;
    let mut i: usize = 0;
    while i < n
        invariant
            0 <= i <= n,
            le@ + le_bytes(y as nat, (n - i) as nat) == le_bytes(x as nat, n as nat),
        decreases n - i,
    {
        let b = (y % 256) as u8;
        proof {
            assert(le_bytes(y as nat, (n - i) as nat) == seq![b] + le_bytes((y / 256) as nat, (n - i - 1) as nat));
            assert(le@.push(b) + le_bytes((y / 256) as nat, (n - i - 1) as nat) =~= le@ + le_bytes(y as nat, (n - i) as nat));
        }
        le.push(b);
        y = y / 256;
        i = i + 1;
    }
    assert(le@ =~= le_bytes(x as nat, n as nat));
    proof {
        lemma_le_bytes_len(x as nat, n as nat);
    }
    let ghost start = buf@;
    assert(le@.subrange(n as int, n as int).reverse() =~= Seq::<u8>::empty());
    let mut j: usize = n;
    while j > 0
        invariant
            0 <= j <= n,
            le@.len() == n,
            buf@ == start + le@.subrange(j as int, n as int).reverse(),
        decreases j,
    {
        j = j - 1;
        buf.push(le[j]);
        proof {
            assert(le@.subrange(j as int, n as int).reverse() =~= le@.subrange(j + 1, n as int).reverse().push(le@[j as int]));
        }
    }
    assert(le@.subrange(0, n as int) =~= le@);
    assert(buf@ =~= start + be_bytes(x as nat, n as nat));
}

/// Build the deterministic byte string that identifies a request to the
/// validators; `asset_hash` is the 32-byte hash of the request's Stellar
/// asset address.
pub fn canonical_payload(request: &BridgeRequest, asset_hash: &[u8; 32]) -> (buf: Vec<u8>)
    ensures
        buf@ == spec_canonical_payload(
            request.request_id,
            request.net_amount,
            request.external_chain,
            asset_hash@,
            request.external_address@,
        ),
{
    let mut buf: Vec<u8> = Vec::new();
    push_canonical_payload(&mut buf, request, asset_hash);
    buf
}

fn push_bytes(buf: &mut Vec<u8>, bytes: &[u8])
    ensures
        final(buf)@ == old(buf)@ + bytes@,
{
    let ghost before = buf@;
    let mut k: usize = 0;
    while k < bytes.len()
        invariant
            0 <= k <= bytes@.len(),
            buf@ == before + bytes@.subrange(0, k as int),
        decreases bytes@.len() - k,
    {
        buf.push(bytes[k]);
        k = k + 1;
        assert(buf@ =~= before + bytes@.subrange(0, k as int));
    }
    assert(bytes@.subrange(0, bytes@.len() as int) =~= bytes@);
}

fn push_canonical_payload(buf: &mut Vec<u8>, request: &BridgeRequest, asset_hash: &[u8; 32])
    ensures
        final(buf)@ == old(buf)@ + spec_canonical_payload(
            request.request_id,
            request.net_amount,
            request.external_chain,
            asset_hash@,
            request.external_address@,
        ),
{
    let ghost start = buf@;
    push_be(buf, request.request_id as u128, 8);
    let amt: u128 = if request.net_amount >= 0 {
        request.net_amount as u128
    } else {
        ((request.net_amount + i128::MAX) + 1) as u128 + 0x8000_0000_0000_0000_0000_0000_0000_0000
    };
    push_be(buf, amt, 16);
    push_be(buf, chain_to_id(request.external_chain) as u128, 4);
    push_bytes(buf, asset_hash.as_slice());
    push_bytes(buf, request.external_address.as_slice());
    assert(buf@ =~= start + spec_canonical_payload(
        request.request_id,
        request.net_amount,
        request.external_chain,
        asset_hash@,
        request.external_address@,
    ));
}

/// The message a validator signs for a request: SHA-256 of the domain
/// separator followed by the canonical payload.
pub fn signed_message(request: &BridgeRequest, asset_hash: &[u8; 32]) -> (m: Vec<u8>)
    ensures
        m@ == spec_signed_message(
            request.request_id,
            request.net_amount,
            request.external_chain,
            asset_hash@,
            request.external_address@,
        ),
        m@.len() == 32,
{
    let mut buf: Vec<u8> = Vec::new();
    let domain: [u8; 18] = [115, 116, 101, 108, 108, 97, 114, 97, 95, 98, 114, 105, 100, 103, 101, 95, 118, 49];
    assert(domain@ =~= bridge_domain());
    push_bytes(&mut buf, domain.as_slice());
    push_canonical_payload(&mut buf, request, asset_hash);
    sha256(&buf)
}

/// Check that `signature` is the validator's Ed25519 signature of the
/// request's signed message (`asset_hash` is the 32-byte hash of the
/// request's Stellar asset address).
pub fn verify_validator_signature(
    validator_pubkey: &[u8; 32],
    request: &BridgeRequest,
    asset_hash: &[u8; 32],
    signature: &[u8; 64],
) -> (r: Result<(), BridgeError>)
    ensures
        r is Ok <==> spec_ed25519_verifies(
            validator_pubkey@,
            spec_signed_message(
                request.request_id,
                request.net_amount,
                request.external_chain,
                asset_hash@,
                request.external_address@,
            ),
            signature@,
        ),
        r is Err ==> r == Err::<(), BridgeError>(BridgeError::InvalidSignature),
{
    let message = signed_message(request, asset_hash);
    if ed25519_verify(validator_pubkey, &message, signature) {
        Ok(())
    } else {
        Err(BridgeError::InvalidSignature)
    }
}

/// Storage key of a validator's public key.
pub enum SecurityKey {
    ValidatorPubkey(Address),
}

/// Record `validator`'s signing key.
pub fn set_validator_pubkey(keys: &mut Store<[u8; 32]>, validator: Address, pubkey: [u8; 32])
    requires
        old(keys).wf(),
    ensures
        final(keys).wf(),
        final(keys)@ == old(keys)@.insert(spec_addr_key(validator), pubkey),
{
    keys.set(addr_key(validator), pubkey);
}

/// `validator`'s signing key, if one is recorded.
pub fn get_validator_pubkey(keys: &Store<[u8; 32]>, validator: Address) -> (r: Option<[u8; 32]>)
    requires
        keys.wf(),
    ensures
        r is Some <==> keys@.contains_key(spec_addr_key(validator)),
        r matches Some(k) ==> k == keys@[spec_addr_key(validator)],
{
    match keys.get(addr_key(validator)) {
        Some(k) => Some(*k),
        None => None,
    }
}

} // verus!
