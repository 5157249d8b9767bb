//! The records that the operations read and change.

use vstd::prelude::*;
use crate::principal::Principal;

verus! {

/// The one global configuration record.
///
/// It is filled once and afterwards changed only by a proposal that carried.
#[derive(Clone, Copy, Debug, PartialEq, Eq)]
pub struct GlobalState {
    /// The party that set the system up.
    pub authority: Principal,
    /// The mint of the reward token.
    pub hfrt_mint: Principal,
    /// The fee discount in force, in percent.
    pub fee_discount: u8,
    /// Addressing data of the record's store, carried along unchanged.
    pub bump: u8,
}

/// The rebate parameters and the party that may change them.
#[derive(Clone, Copy, Debug, PartialEq, Eq)]
pub struct Governance {
    /// The only party that may change the rebate rate.
    pub authority: Principal,
    /// Rebate per thousand units of volume: 10 stands for one percent.
    pub rebate_rate: u8,
    /// The ceiling that a new rebate rate must respect.
    pub max_fee_discount: u8,
}

impl Governance {
    /// The rebate rate respects the ceiling.
    pub open spec fn rate_within_ceiling(&self) -> bool {
        self.rebate_rate <= self.max_fee_discount
    }
}

/// The ledger entry of one trader.
#[derive(Clone, Copy, Debug, PartialEq, Eq)]
pub struct Trader {
    /// The party that the entry belongs to.
    pub owner: Principal,
    /// Volume traded in the current accounting window.
    pub rolling_volume: u64,
    /// Time of the last recorded trade, in seconds.
    pub last_update: i64,
    /// Reward tokens held in custody for the trader.
    pub staked_amount: u64,
    /// Time at which the stake began, in seconds; 0 while nothing is staked.
    pub stake_start_time: i64,
}

impl Trader {
    /// The stake clock runs exactly while something is staked.
    pub open spec fn stake_clock_consistent(&self) -> bool {
        self.staked_amount == 0 <==> self.stake_start_time == 0
    }
}

/// A proposal to change the fee discount, with the votes cast on it.
#[derive(Clone, Copy, Debug, PartialEq, Eq)]
pub struct DAOProposal {
    /// The number under which the proposal is known.
    pub proposal_id: u64,
    /// The party that made the proposal.
    pub proposer: Principal,
    /// The fee discount that the proposal asks for.
    pub new_fee_discount: u8,
    /// Votes cast in favour.
    pub votes_for: u64,
    /// Votes cast against.
    pub votes_against: u64,
}

impl DAOProposal {
    /// The proposal has a strict majority in favour; a tie does not carry.
    pub open spec fn carried(&self) -> bool {
        self.votes_for > self.votes_against
    }
}

} // verus!
