//! The rebate that a trader's rolling volume earns.
//!
//! The rebate is the volume times the governed rate, per thousand, rounded
//! down, and then multiplied by a factor that grows with the volume. Working
//! the rebate out and setting the volume back to zero are one step: there is
//! no way to look at the rebate without claiming it.

use vstd::prelude::*;
use crate::error::ErrorCode;
use crate::events::RebateClaimed;
use crate::state::{Governance, Trader};

verus! {

/// The rebate rate counts units of rebate per this many units of volume.
pub const RATE_DENOMINATOR: u64 = 1000;

/// From this volume on the rebate is doubled.
pub const DOUBLE_REBATE_VOLUME: u64 = 10_000_000;

/// From this volume on the rebate is tripled.
pub const TRIPLE_REBATE_VOLUME: u64 = 50_000_000;

/// From this volume on the rebate is multiplied by five.
pub const TOP_REBATE_VOLUME: u64 = 100_000_000;

/// The factor by which a volume of `trade_volume` multiplies the rebate. The
/// bounds of the tiers belong to the higher tier.
pub open spec fn rebate_multiplier(trade_volume: u64) -> u8 {
    if trade_volume >= TOP_REBATE_VOLUME {
        5
    } else if trade_volume >= TRIPLE_REBATE_VOLUME {
        3
    } else if trade_volume >= DOUBLE_REBATE_VOLUME {
        2
    } else {
        1
    }
}

/// The rebate on `rolling_volume` at `rebate_rate` before the volume's factor
/// is applied: the rate per thousand of the volume, rounded down.
pub open spec fn base_rebate(rolling_volume: u64, rebate_rate: u8) -> int {
    (rolling_volume * rebate_rate) / (RATE_DENOMINATOR as int)
}

/// The rebate on `rolling_volume` at `rebate_rate`.
pub open spec fn rebate_amount(rolling_volume: u64, rebate_rate: u8) -> int {
    base_rebate(rolling_volume, rebate_rate) * rebate_multiplier(rolling_volume)
}

/// The rebate that `trader` can claim under `governance`, or `None` where
/// the volume times the rate leaves the range of an amount.
pub open spec fn rebate_due(trader: Trader, governance: Governance) -> Option<u64> {
    if trader.rolling_volume * governance.rebate_rate > u64::MAX {
        None
    } else {
        Some(rebate_amount(trader.rolling_volume, governance.rebate_rate) as u64)
    }
}

/// `trader` with the rolling volume set back to zero.
pub open spec fn volume_cleared(trader: Trader) -> Trader {
    Trader { rolling_volume: 0, ..trader }
}

/// A rebate never exceeds an amount once the volume times the rate fits one:
/// the division by a thousand outweighs the largest factor.
pub proof fn lemma_rebate_fits(rolling_volume: u64, rebate_rate: u8)
    requires
        rolling_volume * rebate_rate <= u64::MAX,
    ensures
        0 <= base_rebate(rolling_volume, rebate_rate) <= u64::MAX / 1000,
        0 <= rebate_amount(rolling_volume, rebate_rate) <= u64::MAX / 200,
{
    let product = rolling_volume * rebate_rate;
    assert(0 <= product) by (nonlinear_arith)
        requires
            product == rolling_volume * rebate_rate,
    ;
    let base = base_rebate(rolling_volume, rebate_rate);
    assert(base == product / 1000);
    assert(0 <= base <= u64::MAX / 1000);
    let factor = rebate_multiplier(rolling_volume);
    assert(0 <= base * factor <= u64::MAX / 200) by (nonlinear_arith)
        requires
            0 <= base <= u64::MAX / 1000,
            1 <= factor <= 5,
    ;
}

/// Gives the factor by which the rebate on `trade_volume` is multiplied:
/// 5 from a hundred million on, 3 from fifty million, 2 from ten million,
/// 1 below.
pub fn calculate_rebate_multiplier(trade_volume: u64) -> (multiplier: u8)
    ensures
        multiplier == rebate_multiplier(trade_volume),
{
    if trade_volume >= TOP_REBATE_VOLUME {
        5
    } else if trade_volume >= TRIPLE_REBATE_VOLUME {
        3
    } else if trade_volume >= DOUBLE_REBATE_VOLUME {
        2
    } else {
        1
    }
}

/// Works out the rebate on `trader`'s rolling volume at the rate of
/// `governance` and sets the volume back to zero.
///
/// The call fails with [`ErrorCode::Overflow`] exactly when the volume times
/// the rate does not fit an amount, and then leaves the entry as it was.
pub fn compute_and_clear_rebate(trader: &mut Trader, governance: &Governance) -> (res: Result<
    u64,
    ErrorCode,
>)
    ensures
        match rebate_due(*old(trader), *governance) {
            Some(rebate) => {
                &&& res == Ok::<u64, ErrorCode>(rebate)
                &&& *final(trader) == volume_cleared(*old(trader))
            },
            None => {
                &&& res == Err::<u64, ErrorCode>(ErrorCode::Overflow)
                &&& *final(trader) == *old(trader)
            },
        },
{
    let scaled: u64 = match trader.rolling_volume.checked_mul(governance.rebate_rate as u64) {
        Some(product) => product,
        None => {
            return Err(ErrorCode::Overflow);
        },
    };
    let base: u64 = scaled / RATE_DENOMINATOR;
    let multiplier: u8 = calculate_rebate_multiplier(trader.rolling_volume);
    proof {
        lemma_rebate_fits(trader.rolling_volume, governance.rebate_rate);
    }
    let rebate: u64 = match base.checked_mul(multiplier as u64) {
        Some(product) => product,
        None => {
            return Err(ErrorCode::Overflow);
        },
    };
    trader.rolling_volume = 0;
    Ok(rebate)
}

/// Claims `trader`'s rebate: the rolling volume is turned into an amount of
/// reward tokens to mint for the trader, and set back to zero.
///
/// The notice names the owner and the amount. The call fails exactly when
/// [`compute_and_clear_rebate`] does, and then changes nothing.
pub fn claim_rebate(trader: &mut Trader, governance: &Governance) -> (res: Result<
    RebateClaimed,
    ErrorCode,
>)
    ensures
        match rebate_due(*old(trader), *governance) {
            Some(rebate) => {
                &&& res == Ok::<RebateClaimed, ErrorCode>(
                    RebateClaimed { owner: old(trader).owner, rebate_amount: rebate },
                )
                &&& *final(trader) == volume_cleared(*old(trader))
            },
            None => {
                &&& res == Err::<RebateClaimed, ErrorCode>(ErrorCode::Overflow)
                &&& *final(trader) == *old(trader)
            },
        },
{
    match compute_and_clear_rebate(trader, governance) {
        Ok(rebate_amount) => Ok(RebateClaimed { owner: trader.owner, rebate_amount }),
        Err(reason) => Err(reason),
    }
}

/// An entry whose volume was cleared earns nothing: a claim on it succeeds,
/// pays exactly zero and leaves it as it is.
pub proof fn lemma_cleared_volume_earns_nothing(trader: Trader, governance: Governance)
    ensures
        rebate_due(volume_cleared(trader), governance) == Some(0u64),
        volume_cleared(volume_cleared(trader)) == volume_cleared(trader),
{
    let rate = governance.rebate_rate;
    assert(0u64 * rate == 0) by (nonlinear_arith);
    assert(0int / 1000 * rebate_multiplier(0) == 0);
}

/// Claiming twice in a row pays once. After a claim that succeeded, the next
/// claim under the same governance succeeds too and pays exactly zero. The
/// first claim pays something for every volume that earns a rebate at all:
/// the volume times the rate must reach a thousand, since the rebate is
/// rounded down.
pub proof fn lemma_claim_twice(trader: Trader, governance: Governance)
    requires
        rebate_due(trader, governance) is Some,
        trader.rolling_volume * governance.rebate_rate >= RATE_DENOMINATOR,
    ensures
        rebate_due(trader, governance).unwrap() > 0,
        rebate_due(volume_cleared(trader), governance) == Some(0u64),
{
    lemma_rebate_fits(trader.rolling_volume, governance.rebate_rate);
    lemma_cleared_volume_earns_nothing(trader, governance);
    let base = base_rebate(trader.rolling_volume, governance.rebate_rate);
    let factor = rebate_multiplier(trader.rolling_volume);
    assert(base >= 1);
    assert(base * factor >= 1) by (nonlinear_arith)
        requires
            base >= 1,
            factor >= 1,
    ;
}

} // verus!
