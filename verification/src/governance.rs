//! The global configuration, the rebate parameters and the vote that changes
//! the fee discount.

use vstd::prelude::*;
use crate::error::ErrorCode;
use crate::principal::Principal;
use crate::state::{DAOProposal, GlobalState, Governance};

verus! {

/// Fills the global configuration record at set-up.
pub fn initialize(authority: Principal, hfrt_mint: Principal, fee_discount: u8, bump: u8) -> (state:
    GlobalState)
    ensures
        state == (GlobalState { authority, hfrt_mint, fee_discount, bump }),
{
    GlobalState { authority, hfrt_mint, fee_discount, bump }
}

/// Fills the rebate parameters at set-up, with `authority` as the party that
/// may change the rate later.
///
/// The call fails with [`ErrorCode::InvalidRebateRate`] exactly when
/// `rebate_rate` is above `max_fee_discount`: no record is ever made whose
/// rate is above its ceiling.
pub fn initialize_governance(authority: Principal, rebate_rate: u8, max_fee_discount: u8) -> (res:
    Result<Governance, ErrorCode>)
    ensures
        rebate_rate <= max_fee_discount ==> {
            &&& res matches Ok(gov)
            &&& gov == (Governance { authority, rebate_rate, max_fee_discount })
            &&& gov.rate_within_ceiling()
        },
        rebate_rate > max_fee_discount ==> res == Err::<Governance, ErrorCode>(
            ErrorCode::InvalidRebateRate,
        ),
{
    if rebate_rate > max_fee_discount {
        return Err(ErrorCode::InvalidRebateRate);
    }
    Ok(Governance { authority, rebate_rate, max_fee_discount })
}

/// Sets the rebate rate to `new_rate` on behalf of `caller`.
///
/// Only the authority of `governance` may call this; that the caller is who
/// it claims to be is for the caller's side to establish. The call fails
/// with [`ErrorCode::InvalidRebateRate`] exactly when `new_rate` is above
/// the ceiling, and then changes nothing. A rate that respected the ceiling
/// before the call respects it after, whether the call succeeds or not.
#[allow(unused_variables)]
pub fn update_rebate_rate(governance: &mut Governance, caller: &Principal, new_rate: u8) -> (res:
    Result<(), ErrorCode>)
    requires
        *caller == old(governance).authority,
    ensures
        new_rate <= old(governance).max_fee_discount ==> {
            &&& res == Ok::<(), ErrorCode>(())
            &&& *final(governance) == (Governance { rebate_rate: new_rate, ..*old(governance) })
            &&& final(governance).rate_within_ceiling()
        },
        new_rate > old(governance).max_fee_discount ==> {
            &&& res == Err::<(), ErrorCode>(ErrorCode::InvalidRebateRate)
            &&& *final(governance) == *old(governance)
        },
        old(governance).rate_within_ceiling() ==> final(governance).rate_within_ceiling(),
{
    if new_rate > governance.max_fee_discount {
        return Err(ErrorCode::InvalidRebateRate);
    }
    governance.rebate_rate = new_rate;
    Ok(())
}

/// Opens a proposal of `proposer` to set the fee discount to
/// `new_fee_discount`, with no votes cast yet.
pub fn create_dao_proposal(proposal_id: u64, proposer: Principal, new_fee_discount: u8) -> (proposal:
    DAOProposal)
    ensures
        proposal == (DAOProposal {
            proposal_id,
            proposer,
            new_fee_discount,
            votes_for: 0,
            votes_against: 0,
        }),
        !proposal.carried(),
{
    DAOProposal { proposal_id, proposer, new_fee_discount, votes_for: 0, votes_against: 0 }
}

/// `proposal` after one more vote, in favour if `vote_for` and against
/// otherwise, for a count that fits.
pub open spec fn after_vote(proposal: DAOProposal, vote_for: bool) -> DAOProposal {
    if vote_for {
        DAOProposal { votes_for: (proposal.votes_for + 1) as u64, ..proposal }
    } else {
        DAOProposal { votes_against: (proposal.votes_against + 1) as u64, ..proposal }
    }
}

/// The count that a vote would raise: those in favour if `vote_for`, those
/// against otherwise.
pub open spec fn votes_on_side(proposal: DAOProposal, vote_for: bool) -> u64 {
    if vote_for {
        proposal.votes_for
    } else {
        proposal.votes_against
    }
}

/// Casts one vote on `proposal`.
///
/// Anyone may vote, any number of times. The call fails with
/// [`ErrorCode::Overflow`] exactly when the count to be raised is at its
/// largest value, and then changes nothing. No count ever goes down.
pub fn vote_dao_proposal(proposal: &mut DAOProposal, vote_for: bool) -> (res: Result<
    (),
    ErrorCode,
>)
    ensures
        votes_on_side(*old(proposal), vote_for) < u64::MAX ==> {
            &&& res == Ok::<(), ErrorCode>(())
            &&& *final(proposal) == after_vote(*old(proposal), vote_for)
        },
        votes_on_side(*old(proposal), vote_for) == u64::MAX ==> {
            &&& res == Err::<(), ErrorCode>(ErrorCode::Overflow)
            &&& *final(proposal) == *old(proposal)
        },
        final(proposal).votes_for >= old(proposal).votes_for,
        final(proposal).votes_against >= old(proposal).votes_against,
{
    if vote_for {
        match proposal.votes_for.checked_add(1) {
            Some(votes) => {
                proposal.votes_for = votes;
                Ok(())
            },
            None => Err(ErrorCode::Overflow),
        }
    } else {
        match proposal.votes_against.checked_add(1) {
            Some(votes) => {
                proposal.votes_against = votes;
                Ok(())
            },
            None => Err(ErrorCode::Overflow),
        }
    }
}

/// Puts `proposal` into force: the fee discount of `global_state` becomes
/// the proposed one.
///
/// The call fails with [`ErrorCode::ProposalRejected`] exactly when the
/// votes in favour do not outnumber the votes against, and then changes
/// nothing. A proposal that carried can be put into force again, to the same
/// effect.
pub fn execute_dao_proposal(proposal: &DAOProposal, global_state: &mut GlobalState) -> (res: Result<
    (),
    ErrorCode,
>)
    ensures
        proposal.carried() ==> {
            &&& res == Ok::<(), ErrorCode>(())
            &&& *final(global_state) == (GlobalState {
                fee_discount: proposal.new_fee_discount,
                ..*old(global_state)
            })
        },
        !proposal.carried() ==> {
            &&& res == Err::<(), ErrorCode>(ErrorCode::ProposalRejected)
            &&& *final(global_state) == *old(global_state)
        },
{
    if proposal.votes_for <= proposal.votes_against {
        return Err(ErrorCode::ProposalRejected);
    }
    global_state.fee_discount = proposal.new_fee_discount;
    Ok(())
}

} // verus!
