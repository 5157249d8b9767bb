//! What an operation reports to the outside world.

use vstd::prelude::*;
use crate::principal::Principal;

verus! {

/// Notice that a trade entered a trader's rolling volume.
#[derive(Clone, Copy, Debug, PartialEq, Eq)]
pub struct TradeRecorded {
    /// The trader whose entry changed.
    pub owner: Principal,
    /// The size of the trade.
    pub trade_amount: u64,
    /// The trader's rolling volume after the trade.
    pub rolling_volume: u64,
}

/// Notice that a trader's rebate was paid out.
#[derive(Clone, Copy, Debug, PartialEq, Eq)]
pub struct RebateClaimed {
    /// The trader who claimed.
    pub owner: Principal,
    /// The amount of reward tokens to mint for the trader.
    pub rebate_amount: u64,
}

} // verus!
