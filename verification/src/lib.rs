//! Accounting engine for volume-based trading incentives.
//!
//! The crate keeps the books of a reward programme for traders: the rolling
//! trade volume of each trader with its anti-abuse checks, the rebate that a
//! volume earns, the stake of reward tokens with its time-dependent withdrawal
//! penalty, and the vote that changes the fee discount. Every operation works
//! on plain records that the caller owns; reading the clock, moving tokens and
//! storing the records are the caller's business.

pub mod error;
pub mod events;
pub mod governance;
pub mod principal;
pub mod priority;
pub mod rebate;
pub mod staking;
pub mod state;
pub mod trade;

pub use crate::error::ErrorCode;
pub use crate::events::{RebateClaimed, TradeRecorded};
pub use crate::governance::{
    create_dao_proposal, execute_dao_proposal, initialize, initialize_governance,
    update_rebate_rate, vote_dao_proposal,
};
pub use crate::principal::Principal;
pub use crate::priority::calculate_execution_priority;
pub use crate::rebate::{calculate_rebate_multiplier, claim_rebate, compute_and_clear_rebate};
pub use crate::staking::{
    auto_compound, calculate_dynamic_unstake_penalty, stake_tokens, unstake_tokens,
};
pub use crate::state::{DAOProposal, GlobalState, Governance, Trader};
pub use crate::trade::{detect_frequent_trades, is_wash_trade, record_trade};
