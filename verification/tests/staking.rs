use hfrt::staking::{FULL_PENALTY_PERIOD, REDUCED_PENALTY_PERIOD};
use hfrt::{auto_compound, calculate_dynamic_unstake_penalty, stake_tokens, unstake_tokens};
use hfrt::{initialize_governance, ErrorCode, Governance, Principal, Trader};

const DAY: i64 = 24 * 3600;

fn carol() -> Principal {
    Principal::new([9u8; 32])
}

fn governance(rebate_rate: u8) -> Governance {
    initialize_governance(Principal::new([1u8; 32]), rebate_rate, u8::MAX).unwrap()
}

fn staker(staked_amount: u64, stake_start_time: i64) -> Trader {
    Trader { owner: carol(), rolling_volume: 800, last_update: 33, staked_amount, stake_start_time }
}

#[test]
fn penalty_periods_have_their_documented_values() {
    assert_eq!(FULL_PENALTY_PERIOD, 7 * DAY);
    assert_eq!(REDUCED_PENALTY_PERIOD, 14 * DAY);
}

#[test]
fn first_stake_starts_the_clock() {
    let mut trader = staker(0, 0);
    assert_eq!(stake_tokens(&mut trader, 500, 1_700_000_000), Ok(()));
    assert_eq!(trader.staked_amount, 500);
    assert_eq!(trader.stake_start_time, 1_700_000_000);
    assert_eq!(trader.rolling_volume, 800);
    assert_eq!(trader.last_update, 33);
    assert_eq!(trader.owner, carol());
}

#[test]
fn later_stake_leaves_the_clock_running() {
    let mut trader = staker(500, 1_700_000_000);
    assert_eq!(stake_tokens(&mut trader, 250, 1_800_000_000), Ok(()));
    assert_eq!(trader.staked_amount, 750);
    assert_eq!(trader.stake_start_time, 1_700_000_000);
}

#[test]
fn stake_overflow_is_refused_and_changes_nothing() {
    let mut trader = staker(u64::MAX - 1, 1_000);
    let before = trader;
    assert_eq!(stake_tokens(&mut trader, 2, 2_000), Err(ErrorCode::Overflow));
    assert_eq!(trader, before);
    assert_eq!(stake_tokens(&mut trader, 1, 2_000), Ok(()));
    assert_eq!(trader.staked_amount, u64::MAX);
}

#[test]
fn unstaking_after_five_days_costs_ten_percent() {
    let mut trader = staker(1_000, 1_000);
    assert_eq!(calculate_dynamic_unstake_penalty(1_000, 1_000 + 5 * DAY, 1_000), Ok(100));
    assert_eq!(unstake_tokens(&mut trader, 1_000, 1_000 + 5 * DAY), Ok(900));
}

#[test]
fn unstaking_after_ten_days_costs_five_percent() {
    let mut trader = staker(1_000, 1_000);
    assert_eq!(calculate_dynamic_unstake_penalty(1_000, 1_000 + 10 * DAY, 1_000), Ok(50));
    assert_eq!(unstake_tokens(&mut trader, 1_000, 1_000 + 10 * DAY), Ok(950));
}

#[test]
fn unstaking_after_twenty_days_costs_two_percent() {
    let mut trader = staker(1_000, 1_000);
    assert_eq!(calculate_dynamic_unstake_penalty(1_000, 1_000 + 20 * DAY, 1_000), Ok(20));
    assert_eq!(unstake_tokens(&mut trader, 1_000, 1_000 + 20 * DAY), Ok(980));
}

#[test]
fn penalty_steps_down_exactly_at_seven_and_fourteen_days() {
    assert_eq!(calculate_dynamic_unstake_penalty(0, 7 * DAY - 1, 1_000), Ok(100));
    assert_eq!(calculate_dynamic_unstake_penalty(0, 7 * DAY, 1_000), Ok(50));
    assert_eq!(calculate_dynamic_unstake_penalty(0, 14 * DAY - 1, 1_000), Ok(50));
    assert_eq!(calculate_dynamic_unstake_penalty(0, 14 * DAY, 1_000), Ok(20));
}

#[test]
fn penalty_is_rounded_down() {
    assert_eq!(calculate_dynamic_unstake_penalty(0, DAY, 9), Ok(0));
    assert_eq!(calculate_dynamic_unstake_penalty(0, DAY, 19), Ok(1));
    assert_eq!(calculate_dynamic_unstake_penalty(0, 8 * DAY, 39), Ok(1));
    assert_eq!(calculate_dynamic_unstake_penalty(0, 30 * DAY, 149), Ok(2));
    assert_eq!(calculate_dynamic_unstake_penalty(0, DAY, 0), Ok(0));
}

#[test]
fn penalty_at_the_ends_of_the_time_range_is_exact() {
    assert_eq!(calculate_dynamic_unstake_penalty(i64::MIN, i64::MAX, 1_000), Ok(20));
    assert_eq!(calculate_dynamic_unstake_penalty(i64::MAX, i64::MIN, 1_000), Ok(100));
}

#[test]
fn penalty_on_the_largest_amounts_that_fit() {
    let tenth = u64::MAX / 10;
    assert_eq!(calculate_dynamic_unstake_penalty(0, DAY, tenth), Ok(tenth / 10));
    let fifth = u64::MAX / 5;
    assert_eq!(calculate_dynamic_unstake_penalty(0, 8 * DAY, fifth), Ok(fifth / 20));
    let half = u64::MAX / 2;
    assert_eq!(calculate_dynamic_unstake_penalty(0, 15 * DAY, half), Ok(half / 50));
}

#[test]
fn penalty_that_leaves_the_range_is_refused() {
    assert_eq!(calculate_dynamic_unstake_penalty(0, DAY, u64::MAX), Err(ErrorCode::Overflow));
    assert_eq!(
        calculate_dynamic_unstake_penalty(0, DAY, u64::MAX / 10 + 1),
        Err(ErrorCode::Overflow)
    );
    assert_eq!(
        calculate_dynamic_unstake_penalty(0, 8 * DAY, u64::MAX / 5 + 1),
        Err(ErrorCode::Overflow)
    );
    assert_eq!(
        calculate_dynamic_unstake_penalty(0, 15 * DAY, u64::MAX / 2 + 1),
        Err(ErrorCode::Overflow)
    );
}

#[test]
fn unstaking_the_largest_amount_overflows_and_changes_nothing() {
    let mut trader = Trader {
        owner: carol(),
        rolling_volume: 0,
        last_update: 0,
        staked_amount: u64::MAX,
        stake_start_time: 1_000,
    };
    let before = trader;
    assert_eq!(unstake_tokens(&mut trader, u64::MAX, 2_000), Err(ErrorCode::Overflow));
    assert_eq!(trader, before);
    // The same stake gives back what the penalty step can still hold.
    let tenth = u64::MAX / 10;
    assert_eq!(unstake_tokens(&mut trader, tenth, 2_000), Ok(tenth - tenth / 10));
    assert_eq!(trader.staked_amount, u64::MAX - tenth);
    assert_eq!(trader.stake_start_time, 1_000);
}

#[test]
fn too_small_a_stake_is_reported_before_an_overflow() {
    let mut trader = staker(u64::MAX - 1, 1_000);
    let before = trader;
    assert_eq!(unstake_tokens(&mut trader, u64::MAX, 2_000), Err(ErrorCode::InsufficientStake));
    assert_eq!(trader, before);
}

#[test]
fn staking_nothing_on_an_empty_stake_leaves_the_clock_stopped() {
    let mut trader = staker(0, 0);
    assert_eq!(stake_tokens(&mut trader, 0, 1_700_000_000), Ok(()));
    assert_eq!(trader, staker(0, 0));
    assert_eq!(stake_tokens(&mut trader, 1, 1_700_000_500), Ok(()));
    assert_eq!(trader, staker(1, 1_700_000_500));
}

#[test]
fn staking_nothing_on_a_running_stake_changes_nothing() {
    let mut trader = staker(500, 1_700_000_000);
    assert_eq!(stake_tokens(&mut trader, 0, 1_800_000_000), Ok(()));
    assert_eq!(trader, staker(500, 1_700_000_000));
}

#[test]
fn compounding_a_rebate_of_nothing_leaves_the_clock_stopped() {
    // No volume, a rate of zero, and a volume too small to earn anything.
    for (rolling_volume, rate) in [(0u64, 10u8), (5_000_000, 0), (99, 10)] {
        let mut trader = Trader {
            owner: carol(),
            rolling_volume,
            last_update: 33,
            staked_amount: 0,
            stake_start_time: 0,
        };
        assert_eq!(auto_compound(&mut trader, &governance(rate), 4_000), Ok(0));
        assert_eq!(
            trader,
            Trader {
                owner: carol(),
                rolling_volume: 0,
                last_update: 33,
                staked_amount: 0,
                stake_start_time: 0,
            }
        );
    }
}

#[test]
fn unstaking_more_than_the_stake_is_refused() {
    let mut trader = staker(999, 1_000);
    let before = trader;
    assert_eq!(unstake_tokens(&mut trader, 1_000, 2_000), Err(ErrorCode::InsufficientStake));
    assert_eq!(trader, before);
}

#[test]
fn partial_unstake_keeps_the_clock() {
    let mut trader = staker(1_000, 1_000);
    assert_eq!(unstake_tokens(&mut trader, 400, 1_000 + 8 * DAY), Ok(380));
    assert_eq!(trader.staked_amount, 600);
    assert_eq!(trader.stake_start_time, 1_000);
    assert_eq!(trader.rolling_volume, 800);
}

#[test]
fn full_unstake_stops_the_clock() {
    let mut trader = staker(1_000, 1_000);
    assert_eq!(unstake_tokens(&mut trader, 400, 1_000 + DAY), Ok(360));
    assert_eq!(unstake_tokens(&mut trader, 600, 1_000 + 2 * DAY), Ok(540));
    assert_eq!(trader.staked_amount, 0);
    assert_eq!(trader.stake_start_time, 0);
}

#[test]
fn unstaking_nothing_from_nothing_succeeds() {
    let mut trader = staker(0, 0);
    assert_eq!(unstake_tokens(&mut trader, 0, 50), Ok(0));
    assert_eq!(trader, staker(0, 0));
}

#[test]
fn stake_then_unstake_keeps_stake_and_clock_in_step() {
    let mut trader = staker(0, 0);
    assert_eq!(stake_tokens(&mut trader, 70, 10), Ok(()));
    assert!(trader.staked_amount != 0 && trader.stake_start_time != 0);
    assert_eq!(stake_tokens(&mut trader, 30, 20), Ok(()));
    assert_eq!(unstake_tokens(&mut trader, 50, 30), Ok(45));
    assert!(trader.staked_amount != 0 && trader.stake_start_time != 0);
    assert_eq!(unstake_tokens(&mut trader, 50, 40), Ok(45));
    assert!(trader.staked_amount == 0 && trader.stake_start_time == 0);
}

#[test]
fn compounding_turns_the_rebate_into_stake() {
    let mut trader = Trader {
        owner: carol(),
        rolling_volume: 75_000_000,
        last_update: 33,
        staked_amount: 0,
        stake_start_time: 0,
    };
    assert_eq!(auto_compound(&mut trader, &governance(10), 4_000), Ok(2_250_000));
    assert_eq!(
        trader,
        Trader {
            owner: carol(),
            rolling_volume: 0,
            last_update: 33,
            staked_amount: 2_250_000,
            stake_start_time: 4_000,
        }
    );
}

#[test]
fn compounding_adds_to_a_running_stake_without_touching_the_clock() {
    let mut trader = Trader {
        owner: carol(),
        rolling_volume: 5_000_000,
        last_update: 33,
        staked_amount: 1_000,
        stake_start_time: 2_000,
    };
    assert_eq!(auto_compound(&mut trader, &governance(10), 4_000), Ok(50_000));
    assert_eq!(trader.staked_amount, 51_000);
    assert_eq!(trader.stake_start_time, 2_000);
    assert_eq!(trader.rolling_volume, 0);
    assert_eq!(auto_compound(&mut trader, &governance(10), 5_000), Ok(0));
    assert_eq!(trader.staked_amount, 51_000);
}

#[test]
fn compounding_that_overflows_the_stake_changes_nothing() {
    let mut trader = Trader {
        owner: carol(),
        rolling_volume: 5_000_000,
        last_update: 33,
        staked_amount: u64::MAX - 49_999,
        stake_start_time: 2_000,
    };
    let before = trader;
    assert_eq!(auto_compound(&mut trader, &governance(10), 4_000), Err(ErrorCode::Overflow));
    assert_eq!(trader, before);
    trader.staked_amount = u64::MAX - 50_000;
    assert_eq!(auto_compound(&mut trader, &governance(10), 4_000), Ok(50_000));
    assert_eq!(trader.staked_amount, u64::MAX);
}

#[test]
fn compounding_that_overflows_the_rebate_changes_nothing() {
    let mut trader = Trader {
        owner: carol(),
        rolling_volume: u64::MAX,
        last_update: 33,
        staked_amount: 0,
        stake_start_time: 0,
    };
    let before = trader;
    assert_eq!(auto_compound(&mut trader, &governance(200), 4_000), Err(ErrorCode::Overflow));
    assert_eq!(trader, before);
}
