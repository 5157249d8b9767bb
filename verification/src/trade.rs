//! Recording trades in a trader's rolling volume.
//!
//! A trader's volume accumulates over an accounting window of one day. The
//! window is not a sliding one: the only time kept is that of the last trade,
//! and a trade that comes a day or more after it starts the volume afresh.
//! Two checks guard the volume against inflation: a large trade shortly after
//! another is taken for a wash trade, and any trade very shortly after another
//! is refused as too frequent.

use vstd::prelude::*;
use vstd::seq_lib::{commutative_foldl, lemma_fold_left_permutation};
use crate::error::ErrorCode;
use crate::events::TradeRecorded;
use crate::state::Trader;

verus! {

/// A trade above this size is large.
pub const WASH_TRADE_THRESHOLD: u64 = 1_000_000;

/// Seconds after a trade within which a large trade counts as a wash trade.
pub const WASH_TRADE_INTERVAL: i64 = 10;

/// Seconds that must separate two trades of one trader.
pub const MIN_TRADE_INTERVAL: i64 = 5;

/// Length of the accounting window, in seconds: one day.
pub const VOLUME_WINDOW: i64 = 86_400;

/// Seconds from `earlier` to `later`; negative when `later` lies before.
pub open spec fn seconds_between(earlier: i64, later: i64) -> int {
    later - earlier
}

/// A trade of `trade_amount` at `current_time` is large and follows the trade
/// at `last_trade_time` by less than ten seconds.
pub open spec fn wash_trade(last_trade_time: i64, current_time: i64, trade_amount: u64) -> bool {
    trade_amount > WASH_TRADE_THRESHOLD && seconds_between(last_trade_time, current_time)
        < WASH_TRADE_INTERVAL
}

/// A trade at `current_time` follows the trade at `last_trade_time` by less
/// than five seconds.
pub open spec fn frequent_trades(last_trade_time: i64, current_time: i64) -> bool {
    seconds_between(last_trade_time, current_time) < MIN_TRADE_INTERVAL
}

/// A trade at `current_time` comes a full window or more after the trade at
/// `last_trade_time`, so that the volume starts afresh.
pub open spec fn window_elapsed(last_trade_time: i64, current_time: i64) -> bool {
    seconds_between(last_trade_time, current_time) >= VOLUME_WINDOW
}

/// What recording a trade of `trade_amount` at `now` makes of `trader`: the
/// entry after the trade, or the reason for which the trade is refused.
///
/// The wash-trade check comes first, then the frequency check; both look at
/// the time of the last trade as it was before this one. An accepted trade
/// starts the volume afresh when the window has elapsed and is added to it
/// otherwise, which fails if the sum leaves the range of the volume.
pub open spec fn trade_outcome(trader: Trader, trade_amount: u64, now: i64) -> Result<
    Trader,
    ErrorCode,
> {
    if wash_trade(trader.last_update, now, trade_amount) {
        Err(ErrorCode::WashTrade)
    } else if frequent_trades(trader.last_update, now) {
        Err(ErrorCode::FrequentTrades)
    } else if window_elapsed(trader.last_update, now) {
        Ok(Trader { rolling_volume: trade_amount, last_update: now, ..trader })
    } else if trader.rolling_volume + trade_amount > u64::MAX {
        Err(ErrorCode::Overflow)
    } else {
        Ok(
            Trader {
                rolling_volume: (trader.rolling_volume + trade_amount) as u64,
                last_update: now,
                ..trader
            },
        )
    }
}

/// Whole seconds from `earlier` to `later`, exact for every pair of times.
fn elapsed_seconds(earlier: i64, later: i64) -> (elapsed: i128)
    ensures
        elapsed == seconds_between(earlier, later),
{
    later as i128 - earlier as i128
}

/// Tells whether a trade at `current_time` follows the trade at
/// `last_trade_time` by less than five seconds.
pub fn detect_frequent_trades(last_trade_time: i64, current_time: i64) -> (frequent: bool)
    ensures
        frequent == frequent_trades(last_trade_time, current_time),
{
    elapsed_seconds(last_trade_time, current_time) < MIN_TRADE_INTERVAL as i128
}

/// Tells whether a trade of `trade_amount` at `current_time` is taken for a
/// wash trade: it is above one million and follows the trade at
/// `last_trade_time` by less than ten seconds.
pub fn is_wash_trade(last_trade_time: i64, current_time: i64, trade_amount: u64) -> (wash: bool)
    ensures
        wash == wash_trade(last_trade_time, current_time, trade_amount),
{
    trade_amount > WASH_TRADE_THRESHOLD && elapsed_seconds(last_trade_time, current_time)
        < WASH_TRADE_INTERVAL as i128
}

/// Records a trade of `trade_amount` made at `now` in `trader`'s entry.
///
/// On success the entry is the one that [`trade_outcome`] gives and the
/// notice carries the owner, the trade and the new rolling volume. A refused
/// trade leaves the entry as it was. The volume goes down only where a trade
/// starts it afresh.
pub fn record_trade(trader: &mut Trader, trade_amount: u64, now: i64) -> (res: Result<
    TradeRecorded,
    ErrorCode,
>)
    ensures
        match trade_outcome(*old(trader), trade_amount, now) {
            Ok(next) => {
                &&& *final(trader) == next
                &&& res == Ok::<TradeRecorded, ErrorCode>(
                    TradeRecorded {
                        owner: next.owner,
                        trade_amount,
                        rolling_volume: next.rolling_volume,
                    },
                )
            },
            Err(reason) => {
                &&& *final(trader) == *old(trader)
                &&& res == Err::<TradeRecorded, ErrorCode>(reason)
            },
        },
        window_elapsed(old(trader).last_update, now) || final(trader).rolling_volume >= old(
            trader,
        ).rolling_volume,
{
    if is_wash_trade(trader.last_update, now, trade_amount) {
        return Err(ErrorCode::WashTrade);
    }
    if detect_frequent_trades(trader.last_update, now) {
        return Err(ErrorCode::FrequentTrades);
    }
    let rolling_volume: u64 = if elapsed_seconds(trader.last_update, now) >= VOLUME_WINDOW as i128 {
        trade_amount
    } else {
        match trader.rolling_volume.checked_add(trade_amount) {
            Some(sum) => sum,
            None => {
                return Err(ErrorCode::Overflow);
            },
        }
    };
    trader.rolling_volume = rolling_volume;
    trader.last_update = now;
    Ok(TradeRecorded { owner: trader.owner, trade_amount, rolling_volume })
}

/// A trade as it is submitted: its size and the time at which it is made.
pub struct Trade {
    pub amount: u64,
    pub at: i64,
}

/// The sizes of `trades`, in their order.
pub open spec fn amounts(trades: Seq<Trade>) -> Seq<u64> {
    trades.map_values(|trade: Trade| trade.amount)
}

/// The sum of `amounts`.
pub open spec fn total_volume(amounts: Seq<u64>) -> int {
    amounts.fold_left(0int, |sum: int, amount: u64| sum + amount)
}

/// The entry that `trader` becomes when `trades` are recorded one after the
/// other and each is accepted; `None` as soon as one of them is refused.
pub open spec fn replay(trader: Trader, trades: Seq<Trade>) -> Option<Trader>
    decreases trades.len(),
{
    if trades.len() == 0 {
        Some(trader)
    } else {
        match replay(trader, trades.drop_last()) {
            Some(before) => match trade_outcome(before, trades.last().amount, trades.last().at) {
                Ok(after) => Some(after),
                Err(_) => None,
            },
            None => None,
        }
    }
}

/// The time of the last trade that the entry holds when trade `i` of `trades`
/// arrives: that of trade `i - 1`, or the one that `trader` came with.
pub open spec fn time_before(trader: Trader, trades: Seq<Trade>, i: int) -> i64 {
    if i <= 0 {
        trader.last_update
    } else {
        trades[i - 1].at
    }
}

/// Trade `i` of `trades` starts the volume afresh.
pub open spec fn starts_window(trader: Trader, trades: Seq<Trade>, i: int) -> bool {
    window_elapsed(time_before(trader, trades, i), trades[i].at)
}

/// After accepted trades the entry holds the time of the last of them.
proof fn lemma_replay_keeps_time(trader: Trader, trades: Seq<Trade>)
    requires
        replay(trader, trades) is Some,
    ensures
        replay(trader, trades).unwrap().last_update == time_before(
            trader,
            trades,
            trades.len() as int,
        ),
        replay(trader, trades).unwrap().owner == trader.owner,
        replay(trader, trades).unwrap().staked_amount == trader.staked_amount,
        replay(trader, trades).unwrap().stake_start_time == trader.stake_start_time,
    decreases trades.len(),
{
    if trades.len() > 0 {
        lemma_replay_keeps_time(trader, trades.drop_last());
    }
}

/// Within one accounting window the rolling volume is the exact sum of what
/// was traded: when every trade of `trades` is accepted and none of them
/// starts the volume afresh, the volume has grown by their total.
pub proof fn lemma_volume_accumulates(trader: Trader, trades: Seq<Trade>)
    requires
        replay(trader, trades) is Some,
        forall|i: int| 0 <= i < trades.len() ==> !#[trigger] starts_window(trader, trades, i),
    ensures
        replay(trader, trades).unwrap().rolling_volume == trader.rolling_volume + total_volume(
            amounts(trades),
        ),
    decreases trades.len(),
{
    if trades.len() > 0 {
        let earlier = trades.drop_last();
        let last = trades.len() - 1;
        assert forall|i: int| 0 <= i < earlier.len() implies !#[trigger] starts_window(
            trader,
            earlier,
            i,
        ) by {
            assert(!starts_window(trader, trades, i));
        }
        lemma_volume_accumulates(trader, earlier);
        lemma_replay_keeps_time(trader, earlier);
        assert(!starts_window(trader, trades, last));
        assert(amounts(trades).drop_last() =~= amounts(earlier));
    }
}

/// The rolling volume is the sum of what was traded since the volume last
/// started afresh: when every trade of `trades` is accepted, trade `reset`
/// starts a window and none after it does, the volume is the total of the
/// trades from `reset` on.
pub proof fn lemma_volume_since_reset(trader: Trader, trades: Seq<Trade>, reset: int)
    requires
        replay(trader, trades) is Some,
        0 <= reset < trades.len(),
        starts_window(trader, trades, reset),
        forall|i: int| reset < i < trades.len() ==> !#[trigger] starts_window(trader, trades, i),
    ensures
        replay(trader, trades).unwrap().rolling_volume == total_volume(
            amounts(trades.skip(reset)),
        ),
    decreases trades.len(),
{
    let earlier = trades.drop_last();
    let last = trades.len() - 1;
    lemma_replay_keeps_time(trader, earlier);
    if reset == last {
        let tail = amounts(trades.skip(reset));
        assert(tail.drop_last() =~= Seq::<u64>::empty());
        assert(total_volume(tail.drop_last()) == 0);
    } else {
        assert forall|i: int| reset < i < earlier.len() implies !#[trigger] starts_window(
            trader,
            earlier,
            i,
        ) by {
            assert(!starts_window(trader, trades, i));
        }
        lemma_volume_since_reset(trader, earlier, reset);
        assert(!starts_window(trader, trades, last));
        assert(amounts(trades.skip(reset)).drop_last() =~= amounts(earlier.skip(reset)));
    }
}

/// Accumulation does not depend on the order of the trades: two runs of
/// accepted trades from the same entry, neither of which starts the volume
/// afresh, end with the same rolling volume when they hold the same sizes,
/// each as often as the other.
pub proof fn lemma_volume_order_independent(trader: Trader, first: Seq<Trade>, second: Seq<Trade>)
    requires
        replay(trader, first) is Some,
        replay(trader, second) is Some,
        forall|i: int| 0 <= i < first.len() ==> !#[trigger] starts_window(trader, first, i),
        forall|i: int| 0 <= i < second.len() ==> !#[trigger] starts_window(trader, second, i),
        amounts(first).to_multiset() == amounts(second).to_multiset(),
    ensures
        replay(trader, first).unwrap().rolling_volume == replay(
            trader,
            second,
        ).unwrap().rolling_volume,
{
    lemma_volume_accumulates(trader, first);
    lemma_volume_accumulates(trader, second);
    let plus = |sum: int, amount: u64| sum + amount;
    assert(commutative_foldl(plus));
    lemma_fold_left_permutation(amounts(first), amounts(second), plus, 0int);
}

/// Accumulation since the volume last started afresh does not depend on the
/// order of the trades either: take two runs of accepted trades from the
/// same entry, in each of which one trade starts a window and none after it
/// does. When the trades from those two on hold the same sizes, each as
/// often as the other, both runs end with the same rolling volume.
pub proof fn lemma_volume_order_independent_since_reset(
    trader: Trader,
    first: Seq<Trade>,
    first_reset: int,
    second: Seq<Trade>,
    second_reset: int,
)
    requires
        replay(trader, first) is Some,
        replay(trader, second) is Some,
        0 <= first_reset < first.len(),
        0 <= second_reset < second.len(),
        starts_window(trader, first, first_reset),
        starts_window(trader, second, second_reset),
        forall|i: int| first_reset < i < first.len() ==> !#[trigger] starts_window(trader, first, i),
        forall|i: int|
            second_reset < i < second.len() ==> !#[trigger] starts_window(trader, second, i),
        amounts(first.skip(first_reset)).to_multiset() == amounts(
            second.skip(second_reset),
        ).to_multiset(),
    ensures
        replay(trader, first).unwrap().rolling_volume == replay(
            trader,
            second,
        ).unwrap().rolling_volume,
{
    lemma_volume_since_reset(trader, first, first_reset);
    lemma_volume_since_reset(trader, second, second_reset);
    let plus = |sum: int, amount: u64| sum + amount;
    assert(commutative_foldl(plus));
    lemma_fold_left_permutation(
        amounts(first.skip(first_reset)),
        amounts(second.skip(second_reset)),
        plus,
        0int,
    );
}

} // verus!
