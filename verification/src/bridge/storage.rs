//! Storage keys and bookkeeping helpers of the bridge.

use vstd::prelude::*;
use crate::bridge::types::{ChainConfig, ExternalChain, WrappedAsset};

verus! {

/// EVM-style chain id of each supported chain.
pub open spec fn spec_chain_to_id(chain: ExternalChain) -> u32 {
    match chain {
        ExternalChain::Ethereum => 1,
        ExternalChain::Polygon => 137,
        ExternalChain::BinanceSmartChain => 56,
        ExternalChain::Avalanche => 43114,
        ExternalChain::Arbitrum => 42161,
        ExternalChain::Optimism => 10,
        ExternalChain::Custom(id) => id,
    }
}

pub fn chain_to_id(chain: ExternalChain) -> (id: u32)
    ensures
        id == spec_chain_to_id(chain),
{
    match chain {
        ExternalChain::Ethereum => 1,
        ExternalChain::Polygon => 137,
        ExternalChain::BinanceSmartChain => 56,
        ExternalChain::Avalanche => 43114,
        ExternalChain::Arbitrum => 42161,
        ExternalChain::Optimism => 10,
        ExternalChain::Custom(id) => id,
    }
}

/// The daily window as seen at `now`: a window that opened 24 hours ago or
/// more restarts at `now` with no volume.
pub open spec fn spec_refresh_daily_window(config: ChainConfig, now: u64) -> ChainConfig {
    if now >= config.window_start + 86_400 {
        ChainConfig { daily_volume: 0, window_start: now, ..config }
    } else {
        config
    }
}

/// Reset the 24-hour volume window if it has expired.
pub fn refresh_daily_window(now: u64, config: ChainConfig) -> (c: ChainConfig)
    ensures
        c == spec_refresh_daily_window(config, now),
{
    let mut config = config;
    if now as u128 >= config.window_start as u128 + 86_400 {
        config.daily_volume = 0;
        config.window_start = now;
    }
    config
}

/// Healthy when nothing is minted or every minted token is backed by a
/// locked one.
pub open spec fn spec_backing_ratio_healthy(total_locked: int, total_minted: int) -> bool {
    total_minted == 0 || total_locked >= total_minted
}

/// True if the wrapped asset's backing ratio is at least 100%.
pub fn backing_ratio_healthy(asset: &WrappedAsset) -> (b: bool)
    requires
        asset.total_locked >= 0,
        asset.total_minted >= 0,
        asset.total_locked * 10_000 <= u128::MAX,
    ensures
        b == spec_backing_ratio_healthy(asset.total_locked as int, asset.total_minted as int),
{
    if asset.total_minted == 0 {
        return true;
    }
    let locked = asset.total_locked as u128;
    let minted = asset.total_minted as u128;
    let scaled: u128 = locked * 10_000;
    let ratio = scaled / minted;
    proof {
        assert((ratio >= 10_000) == (locked >= minted)) by (nonlinear_arith)
            requires
                minted > 0,
                scaled == locked * 10_000,
                ratio == scaled / minted,
        ;
    }
    ratio >= 10_000
}

/// `locked / minted` in basis points, truncated to 32 bits as the contract
/// stores it.
pub open spec fn spec_ratio_bps(total_locked: int, total_minted: int) -> int {
    ((total_locked * 10_000) / total_minted) % 0x1_0000_0000
}

pub fn ratio_bps(total_locked: i128, total_minted: i128) -> (r: u32)
    requires
        total_locked >= 0,
        total_minted > 0,
        total_locked * 10_000 <= u128::MAX,
    ensures
        r == spec_ratio_bps(total_locked as int, total_minted as int),
{
    let v: u128 = (total_locked as u128 * 10_000) / total_minted as u128;
    (v % 0x1_0000_0000) as u32
}

} // verus!
