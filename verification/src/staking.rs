//! Staking reward tokens and taking them back.
//!
//! A trader's stake sits in custody. Taking it back costs a penalty that
//! shrinks with the time for which the stake has run; the penalty stays in
//! custody. The stake clock starts when the stake stops being empty and
//! stops when the whole stake is gone, so that it runs exactly while
//! something is staked.

use vstd::prelude::*;
use crate::error::ErrorCode;
use crate::rebate::{compute_and_clear_rebate, rebate_due, volume_cleared};
use crate::state::{Governance, Trader};

verus! {

/// A stake younger than this many seconds, seven days, pays the full penalty.
pub const FULL_PENALTY_PERIOD: i64 = 604_800;

/// A stake younger than this many seconds, fourteen days, pays the reduced
/// penalty.
pub const REDUCED_PENALTY_PERIOD: i64 = 1_209_600;

/// The penalty in percent on a stake that began at `stake_start_time` and is
/// taken back at `current_time`: 10 in the first seven days, 5 in the next
/// seven, 2 from then on.
pub open spec fn penalty_percent(stake_start_time: i64, current_time: i64) -> int {
    let duration = current_time - stake_start_time;
    if duration < FULL_PENALTY_PERIOD {
        10
    } else if duration < REDUCED_PENALTY_PERIOD {
        5
    } else {
        2
    }
}

/// The penalty on taking `amount` back at `current_time` from a stake that
/// began at `stake_start_time`: the percentage of the amount, rounded down.
pub open spec fn unstake_penalty(stake_start_time: i64, current_time: i64, amount: u64) -> int {
    amount * penalty_percent(stake_start_time, current_time) / 100
}

/// What the trader receives of `amount`: the amount less the penalty.
pub open spec fn unstake_payout(stake_start_time: i64, current_time: i64, amount: u64) -> int {
    amount - unstake_penalty(stake_start_time, current_time, amount)
}

/// The amount times the penalty percentage, the step from which the penalty
/// is taken, leaves the range of an amount.
pub open spec fn penalty_overflows(stake_start_time: i64, current_time: i64, amount: u64) -> bool {
    amount * penalty_percent(stake_start_time, current_time) > u64::MAX
}

/// `trader` after `amount` was added to the stake at `now`, for a sum that
/// fits. A stake that was empty and no longer is starts the clock; a later
/// stake leaves it running, and adding nothing to nothing leaves it stopped.
pub open spec fn after_stake(trader: Trader, amount: u64, now: i64) -> Trader {
    Trader {
        staked_amount: (trader.staked_amount + amount) as u64,
        stake_start_time: if trader.stake_start_time == 0 && trader.staked_amount + amount != 0 {
            now
        } else {
            trader.stake_start_time
        },
        ..trader
    }
}

/// `trader` after `amount` of the stake was taken back, for an amount that
/// the stake covers. The clock stops when nothing is left.
pub open spec fn after_unstake(trader: Trader, amount: u64) -> Trader {
    Trader {
        staked_amount: (trader.staked_amount - amount) as u64,
        stake_start_time: if trader.staked_amount == amount {
            0
        } else {
            trader.stake_start_time
        },
        ..trader
    }
}

/// The penalty is a part of the amount: never negative, never more than a
/// tenth of it.
pub proof fn lemma_penalty_bounds(stake_start_time: i64, current_time: i64, amount: u64)
    ensures
        0 <= unstake_penalty(stake_start_time, current_time, amount) <= amount / 10,
        amount - amount / 10 <= unstake_payout(stake_start_time, current_time, amount) <= amount,
{
    let percent = penalty_percent(stake_start_time, current_time);
    assert(0 <= amount * percent <= amount * 10) by (nonlinear_arith)
        requires
            2 <= percent <= 10,
    ;
}

/// Works out the penalty on taking `amount` back at `current_time` from a
/// stake that began at `stake_start_time`.
///
/// The call fails with [`ErrorCode::Overflow`] exactly when the amount
/// times the percentage does not fit an amount.
pub fn calculate_dynamic_unstake_penalty(
    stake_start_time: i64,
    current_time: i64,
    amount: u64,
) -> (res: Result<u64, ErrorCode>)
    ensures
        penalty_overflows(stake_start_time, current_time, amount) ==> res == Err::<u64, ErrorCode>(
            ErrorCode::Overflow,
        ),
        !penalty_overflows(stake_start_time, current_time, amount) ==> {
            &&& res matches Ok(penalty)
            &&& penalty == unstake_penalty(stake_start_time, current_time, amount)
        },
{
    let duration: i128 = current_time as i128 - stake_start_time as i128;
    let penalty_percentage: u64 = if duration < FULL_PENALTY_PERIOD as i128 {
        10
    } else if duration < REDUCED_PENALTY_PERIOD as i128 {
        5
    } else {
        2
    };
    match amount.checked_mul(penalty_percentage) {
        Some(scaled) => Ok(scaled / 100),
        None => Err(ErrorCode::Overflow),
    }
}

/// Adds `amount` to `trader`'s stake at `now`.
///
/// The tokens themselves are moved into custody by the caller. The call
/// fails with [`ErrorCode::Overflow`] exactly when the new stake does not fit
/// an amount, and then changes nothing. The clock starts when the stake
/// stops being empty, so that at any time other than zero the stake clock
/// stays consistent. The stake never goes down.
pub fn stake_tokens(trader: &mut Trader, amount: u64, now: i64) -> (res: Result<(), ErrorCode>)
    ensures
        old(trader).staked_amount + amount <= u64::MAX ==> {
            &&& res == Ok::<(), ErrorCode>(())
            &&& *final(trader) == after_stake(*old(trader), amount, now)
        },
        old(trader).staked_amount + amount > u64::MAX ==> {
            &&& res == Err::<(), ErrorCode>(ErrorCode::Overflow)
            &&& *final(trader) == *old(trader)
        },
        res is Ok && old(trader).stake_clock_consistent() && now != 0
            ==> final(trader).stake_clock_consistent(),
        final(trader).staked_amount >= old(trader).staked_amount,
{
    match trader.staked_amount.checked_add(amount) {
        Some(staked_amount) => {
            trader.staked_amount = staked_amount;
            if trader.stake_start_time == 0 && staked_amount != 0 {
                trader.stake_start_time = now;
            }
            Ok(())
        },
        None => Err(ErrorCode::Overflow),
    }
}

/// Takes `amount` of `trader`'s stake back at `now` and gives what the
/// trader receives of it: the amount less the penalty for the time that the
/// stake has run.
///
/// The call fails with [`ErrorCode::InsufficientStake`] exactly when the
/// stake is smaller than `amount`, and otherwise with
/// [`ErrorCode::Overflow`] exactly when the amount times the penalty
/// percentage does not fit an amount. A call that fails changes nothing.
/// Where the stake clock was consistent it stays so.
pub fn unstake_tokens(trader: &mut Trader, amount: u64, now: i64) -> (res: Result<u64, ErrorCode>)
    ensures
        old(trader).staked_amount < amount ==> {
            &&& res == Err::<u64, ErrorCode>(ErrorCode::InsufficientStake)
            &&& *final(trader) == *old(trader)
        },
        old(trader).staked_amount >= amount && penalty_overflows(
            old(trader).stake_start_time,
            now,
            amount,
        ) ==> {
            &&& res == Err::<u64, ErrorCode>(ErrorCode::Overflow)
            &&& *final(trader) == *old(trader)
        },
        old(trader).staked_amount >= amount && !penalty_overflows(
            old(trader).stake_start_time,
            now,
            amount,
        ) ==> {
            &&& res matches Ok(amount_after_penalty)
            &&& amount_after_penalty == unstake_payout(old(trader).stake_start_time, now, amount)
            &&& *final(trader) == after_unstake(*old(trader), amount)
        },
        res is Ok && old(trader).stake_clock_consistent() ==> final(trader).stake_clock_consistent(),
{
    if trader.staked_amount < amount {
        return Err(ErrorCode::InsufficientStake);
    }
    let penalty: u64 = match calculate_dynamic_unstake_penalty(
        trader.stake_start_time,
        now,
        amount,
    ) {
        Ok(penalty) => penalty,
        Err(reason) => {
            return Err(reason);
        },
    };
    proof {
        lemma_penalty_bounds(trader.stake_start_time, now, amount);
    }
    let amount_after_penalty: u64 = match amount.checked_sub(penalty) {
        Some(rest) => rest,
        None => {
            return Err(ErrorCode::Overflow);
        },
    };
    let staked_amount: u64 = match trader.staked_amount.checked_sub(amount) {
        Some(rest) => rest,
        None => {
            return Err(ErrorCode::Overflow);
        },
    };
    trader.staked_amount = staked_amount;
    if staked_amount == 0 {
        trader.stake_start_time = 0;
    }
    Ok(amount_after_penalty)
}

/// What compounding makes of `trader` under `governance` at `now`: the
/// rebate to mint into custody with the entry after it, or `None` where the
/// rebate or the stake with the rebate added does not fit an amount.
pub open spec fn compound_outcome(trader: Trader, governance: Governance, now: i64) -> Option<
    (u64, Trader),
> {
    match rebate_due(trader, governance) {
        Some(rebate) => if trader.staked_amount + rebate > u64::MAX {
            None
        } else {
            Some((rebate, after_stake(volume_cleared(trader), rebate, now)))
        },
        None => None,
    }
}

/// Turns `trader`'s rebate into stake at `now` and gives the amount of
/// reward tokens to mint into custody.
///
/// The rebate is worked out as for a claim, the rolling volume is set back
/// to zero and the rebate is added to the stake as a stake of that amount
/// would be: a rebate of nothing on an empty stake leaves the clock
/// stopped. The call fails with [`ErrorCode::Overflow`] exactly when the
/// rebate or the new stake does not fit an amount, and then changes nothing.
/// At any time other than zero the stake clock stays consistent.
pub fn auto_compound(trader: &mut Trader, governance: &Governance, now: i64) -> (res: Result<
    u64,
    ErrorCode,
>)
    ensures
        match compound_outcome(*old(trader), *governance, now) {
            Some((rebate, next)) => {
                &&& res == Ok::<u64, ErrorCode>(rebate)
                &&& *final(trader) == next
            },
            None => {
                &&& res == Err::<u64, ErrorCode>(ErrorCode::Overflow)
                &&& *final(trader) == *old(trader)
            },
        },
        res is Ok && old(trader).stake_clock_consistent() && now != 0
            ==> final(trader).stake_clock_consistent(),
{
    let mut next: Trader = *trader;
    let rebate_amount: u64 = match compute_and_clear_rebate(&mut next, governance) {
        Ok(rebate) => rebate,
        Err(reason) => {
            return Err(reason);
        },
    };
    match stake_tokens(&mut next, rebate_amount, now) {
        Ok(()) => {
            *trader = next;
            Ok(rebate_amount)
        },
        Err(reason) => Err(reason),
    }
}

} // verus!
