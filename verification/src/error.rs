//! The reasons for which an operation is refused.

use vstd::prelude::*;

verus! {

/// Why an operation was refused. A refused operation changes nothing.
#[derive(Clone, Copy, Debug, PartialEq, Eq, Structural)]
pub enum ErrorCode {
    /// A checked arithmetic step left the range of its type.
    Overflow,
    /// More was asked back than is staked.
    InsufficientStake,
    /// The proposed rebate rate is above the configured ceiling.
    InvalidRebateRate,
    /// A large trade followed the previous one too closely.
    WashTrade,
    /// The trade followed the previous one too closely.
    FrequentTrades,
    /// The proposal has no strict majority in favour.
    ProposalRejected,
}

} // verus!
