//! The priority that a balance of reward tokens gives an order.

use vstd::prelude::*;

verus! {

/// The priority class of a holder of `hfrt_balance` reward tokens. A lower
/// number is served first: 1 from a million tokens on, 2 from half a million,
/// 3 from a hundred thousand, 5 below.
pub open spec fn execution_priority(hfrt_balance: u64) -> u8 {
    if hfrt_balance >= 1_000_000 {
        1
    } else if hfrt_balance >= 500_000 {
        2
    } else if hfrt_balance >= 100_000 {
        3
    } else {
        5
    }
}

/// Gives the priority class of a holder of `hfrt_balance` reward tokens.
pub fn calculate_execution_priority(hfrt_balance: u64) -> (priority: u8)
    ensures
        priority == execution_priority(hfrt_balance),
{
    if hfrt_balance >= 1_000_000 {
        1
    } else if hfrt_balance >= 500_000 {
        2
    } else if hfrt_balance >= 100_000 {
        3
    } else {
        5
    }
}

} // verus!
