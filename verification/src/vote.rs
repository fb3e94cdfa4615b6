use vstd::prelude::*;

use crate::AccountId;
use crate::proposal::VoteType;

verus! {

/// One voter's cast ballot on one proposal. There is at most one per
/// (proposal, voter) pair, and a ballot is never mutated after creation.
#[derive(Clone, Copy, Debug, PartialEq)]
pub struct Vote {
    /// The proposal voted on.
    pub proposal: AccountId,
    /// The identity casting the ballot.
    pub voter: AccountId,
    /// Which way the ballot went.
    pub vote_type: VoteType,
    /// The weight the ballot carried, under the flow's voting-power model.
    pub voting_power: u64,
    /// When the ballot was cast.
    pub voted_at: i64,
}

} // verus!
