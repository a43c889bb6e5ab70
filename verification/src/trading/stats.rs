//! Checked updates of the trading statistics and of a batch's fee total:
//! an update that would overflow is refused instead of wrapping.

use vstd::prelude::*;
use crate::trading::contract::TradeStats;

verus! {

/// Statistics after recording a trade of `amount`, as far as the checked
/// steps get: the trade count first, then the volume, then the id.
pub open spec fn spec_increment(s: TradeStats, amount: i128) -> (TradeStats, Option<u64>) {
    if s.last_trade_id == u64::MAX {
        (s, None)
    } else if s.total_trades == u64::MAX {
        (s, None)
    } else if s.total_volume + amount > i128::MAX || s.total_volume + amount < i128::MIN {
        (TradeStats { total_trades: (s.total_trades + 1) as u64, ..s }, None)
    } else {
        let id = (s.last_trade_id + 1) as u64;
        (
            TradeStats {
                total_trades: (s.total_trades + 1) as u64,
                total_volume: (s.total_volume + amount) as i128,
                last_trade_id: id,
            },
            Some(id),
        )
    }
}

impl TradeStats {
    /// Record a trade of `amount`; returns the new trade id, or `None` when
    /// a counter or the volume would overflow. The trade count is raised
    /// before the volume is checked, and stays raised when the volume
    /// overflows.
    pub fn increment_checked(&mut self, amount: i128) -> (r: Option<u64>)
        ensures
            (*final(self), r) == spec_increment(*old(self), amount),
    {
        let new_id = match self.last_trade_id.checked_add(1) {
            Some(n) => n,
            None => return None,
        };
        self.total_trades = match self.total_trades.checked_add(1) {
            Some(n) => n,
            None => return None,
        };
        self.total_volume = match self.total_volume.checked_add(amount) {
            Some(v) => v,
            None => return None,
        };
        self.last_trade_id = new_id;
        Some(new_id)
    }

    /// As many trades recorded as the last trade id.
    pub fn invariant_consistent(&self) -> (b: bool)
        ensures
            b == (self.total_trades == self.last_trade_id),
    {
        self.total_trades == self.last_trade_id
    }

    pub fn invariant_volume_non_negative(&self) -> (b: bool)
        ensures
            b == (self.total_volume >= 0),
    {
        self.total_volume >= 0
    }
}

/// The fees collected by a batch of trades.
#[derive(Clone, Copy, Debug, PartialEq, Eq, Structural)]
pub struct BatchResult {
    pub total_fees_collected: i128,
    pub successful_count: u32,
}

impl BatchResult {
    /// Add a fee; refused (and nothing changes) when the total would
    /// overflow. The count of successes saturates.
    pub fn add_fee_checked(&mut self, fee_amount: i128) -> (ok: bool)
        ensures
            ok == (i128::MIN <= old(self).total_fees_collected + fee_amount <= i128::MAX),
            ok ==> *final(self) == (BatchResult {
                total_fees_collected: (old(self).total_fees_collected + fee_amount) as i128,
                successful_count: if old(self).successful_count == u32::MAX {
                    u32::MAX
                } else {
                    (old(self).successful_count + 1) as u32
                },
            }),
            !ok ==> *final(self) == *old(self),
    {
        match self.total_fees_collected.checked_add(fee_amount) {
            Some(t) => {
                self.total_fees_collected = t;
                self.successful_count = self.successful_count.saturating_add(1);
                true
            },
            None => false,
        }
    }

    pub fn invariant_fees_non_negative(&self) -> (b: bool)
        ensures
            b == (self.total_fees_collected >= 0),
    {
        self.total_fees_collected >= 0
    }
}

/// A recorded trade keeps the count equal to the last id and adds its
/// amount to the volume; a trade that cannot be recorded leaves the id
/// unchanged.
pub proof fn law_checked_increment_keeps_consistency(s: TradeStats, amount: i128)
    requires
        s.total_trades == s.last_trade_id,
    ensures
        spec_increment(s, amount).1 matches Some(id) ==> {
            let t = spec_increment(s, amount).0;
            &&& t.total_trades == t.last_trade_id
            &&& t.last_trade_id == id
            &&& t.total_volume == s.total_volume + amount
        },
        spec_increment(s, amount).1 is None ==> spec_increment(s, amount).0.last_trade_id == s.last_trade_id,
{
}

/// Fees that are never negative keep the collected total non-negative.
pub proof fn law_nonnegative_fees_keep_total_nonnegative(b: BatchResult, fee_amount: i128)
    requires
        b.total_fees_collected >= 0,
        fee_amount >= 0,
        b.total_fees_collected + fee_amount <= i128::MAX,
    ensures
        b.total_fees_collected + fee_amount >= 0,
{
}

} // verus!
