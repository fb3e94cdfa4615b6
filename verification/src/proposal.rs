use vstd::prelude::*;

use crate::AccountId;
use crate::errors::TitaErrors;

verus! {

/// The action a proposal carries; a closed set, matched exhaustively by the
/// governance engine when the proposal executes.
#[derive(Clone, Copy, Debug, PartialEq)]
pub enum ProposalType {
    /// Mark the milestone with this identifier completed.
    MilestoneCompletion { milestone_id: u32 },
    /// Cancel the flow.
    FlowCancellation,
    /// Change a milestone's amount and/or deadline.
    MilestoneAdjustment { milestone_id: u32, new_amount: Option<u64>, new_deadline: Option<i64> },
    /// Move the flow's end date further out.
    FlowFundingExtension { new_end_date: i64 },
}

/// The lifecycle of a proposal. Transitions are one-directional:
/// `Active` resolves to `Passed` or `Failed` (or is `Canceled` by its
/// proposer), and `Passed` may become `Executed`; `Executed`, `Failed` and
/// `Canceled` are terminal.
#[derive(Clone, Copy, Debug, PartialEq, Eq, Structural)]
pub enum ProposalStatus {
    Active,
    Passed,
    Failed,
    Executed,
    Canceled,
}

/// How a ballot is cast.
#[derive(Clone, Copy, Debug, PartialEq, Eq, Structural)]
pub enum VoteType {
    For,
    Against,
    Abstain,
}

/// A pending or resolved governance decision on one flow.
#[derive(Clone, Copy, Debug, PartialEq)]
pub struct Proposal {
    /// The flow this proposal belongs to.
    pub flow: AccountId,
    /// Who created the proposal; the only identity allowed to cancel it.
    pub proposer: AccountId,
    /// The action applied if the proposal passes.
    pub proposal_type: ProposalType,
    /// Current lifecycle state.
    pub status: ProposalStatus,
    /// When the proposal was created.
    pub created_at: i64,
    /// When voting begins.
    pub voting_starts_at: i64,
    /// When voting ends.
    pub voting_ends_at: i64,
    /// Weighted votes in favor.
    pub votes_for: u64,
    /// Weighted votes against.
    pub votes_against: u64,
    /// Weighted abstentions.
    pub votes_abstain: u64,
    /// Snapshot of the flow's `raised` when the proposal was created; later
    /// contributions do not change this denominator.
    pub total_eligible_votes: u64,
    /// When the proposal was executed, if it was.
    pub executed_at: Option<i64>,
    /// Required participation, in basis points of the eligible votes.
    pub quorum_percentage: u16,
    /// Required share of cast votes in favor, in basis points.
    pub approval_percentage: u16,
}

/// All votes cast on a proposal so far, whichever way.
pub open spec fn total_votes(p: Proposal) -> int {
    p.votes_for + p.votes_against + p.votes_abstain
}

/// The participation a proposal needs before it can resolve.
pub open spec fn quorum_threshold(p: Proposal) -> int {
    p.total_eligible_votes * p.quorum_percentage / 10000
}

/// Whether enough votes were cast for the proposal to resolve.
pub open spec fn quorum_met(p: Proposal) -> bool {
    total_votes(p) >= quorum_threshold(p)
}

/// The share of cast votes that must be in favor for the proposal to pass.
pub open spec fn approval_threshold(p: Proposal) -> int {
    total_votes(p) * p.approval_percentage / 10000
}

/// Whether the votes in favor carry the proposal.
pub open spec fn approval_met(p: Proposal) -> bool {
    p.votes_for >= approval_threshold(p)
}

/// The proposal with one ballot of weight `power` added to the matching
/// tally.
pub open spec fn tallies_updated(p: Proposal, vote_type: VoteType, power: u64) -> Proposal {
    match vote_type {
        VoteType::For => Proposal { votes_for: (p.votes_for + power) as u64, ..p },
        VoteType::Against => Proposal { votes_against: (p.votes_against + power) as u64, ..p },
        VoteType::Abstain => Proposal { votes_abstain: (p.votes_abstain + power) as u64, ..p },
    }
}

/// Whether adding a ballot of weight `power` would wrap the tally.
pub open spec fn tally_overflows(p: Proposal, vote_type: VoteType, power: u64) -> bool {
    match vote_type {
        VoteType::For => p.votes_for + power > u64::MAX,
        VoteType::Against => p.votes_against + power > u64::MAX,
        VoteType::Abstain => p.votes_abstain + power > u64::MAX,
    }
}

impl Proposal {
    /// Whether the proposal is open for voting at `now`.
    pub fn is_active(&self, now: i64) -> (r: bool)
        ensures
            r == (self.status == ProposalStatus::Active && self.voting_starts_at <= now
                <= self.voting_ends_at),
    {
        matches!(self.status, ProposalStatus::Active) && now >= self.voting_starts_at && now
            <= self.voting_ends_at
    }

    /// Whether a ballot may be cast at `current_time`.
    pub fn can_vote(&self, current_time: i64) -> (r: bool)
        ensures
            r == (self.status == ProposalStatus::Active && self.voting_starts_at <= current_time
                <= self.voting_ends_at),
    {
        matches!(self.status, ProposalStatus::Active) && current_time >= self.voting_starts_at
            && current_time <= self.voting_ends_at
    }

    /// Whether a passed proposal is ready for an explicit execution step:
    /// it passed, and its voting window is over.
    pub fn can_execute(&self, now: i64) -> (r: bool)
        ensures
            r == (self.status == ProposalStatus::Passed && now > self.voting_ends_at),
    {
        matches!(self.status, ProposalStatus::Passed) && now > self.voting_ends_at
    }

    /// Resolves an `Active` proposal whose voting window has closed: it
    /// fails without quorum, and otherwise passes or fails on the approval
    /// threshold. Any other state, or an open window, leaves the proposal
    /// unchanged. Thresholds are evaluated in widened arithmetic, so no
    /// product can wrap.
    pub fn update_status(&mut self, now: i64)
        ensures
            *final(self) == if old(self).status != ProposalStatus::Active || now <= old(
                self,
            ).voting_ends_at {
                *old(self)
            } else if !quorum_met(*old(self)) {
                (Proposal { status: ProposalStatus::Failed, ..*old(self) })
            } else if approval_met(*old(self)) {
                (Proposal { status: ProposalStatus::Passed, ..*old(self) })
            } else {
                (Proposal { status: ProposalStatus::Failed, ..*old(self) })
            },
    {
        if !matches!(self.status, ProposalStatus::Active) {
            return ;
        }
        if now <= self.voting_ends_at {
            return ;
        }
        let total: u128 = self.votes_for as u128 + self.votes_against as u128
            + self.votes_abstain as u128;
        let quorum: u128 = mul_div_10000(self.total_eligible_votes as u128,
            self.quorum_percentage);
        if total < quorum {
            self.status = ProposalStatus::Failed;
            return ;
        }
        let approval: u128 = mul_div_10000(total, self.approval_percentage);
        if self.votes_for as u128 >= approval {
            self.status = ProposalStatus::Passed;
        } else {
            self.status = ProposalStatus::Failed;
        }
    }

    /// Adds one ballot of weight `voting_power` to the matching tally.
    /// Fails with `VotingNotActive` outside an open voting window and with
    /// `MathOverflow` when the tally would wrap; on any error the proposal
    /// is unchanged. Tallies only ever grow while the proposal is active.
    pub fn add_vote(&mut self, vote_type: VoteType, voting_power: u64, now: i64) -> (r: Result<
        (),
        TitaErrors,
    >)
        ensures
            if !(old(self).status == ProposalStatus::Active && old(self).voting_starts_at <= now
                <= old(self).voting_ends_at) {
                r == Err::<(), TitaErrors>(TitaErrors::VotingNotActive) && *final(self) == *old(
                    self,
                )
            } else if tally_overflows(*old(self), vote_type, voting_power) {
                r == Err::<(), TitaErrors>(TitaErrors::MathOverflow) && *final(self) == *old(self)
            } else {
                r is Ok && *final(self) == tallies_updated(*old(self), vote_type, voting_power)
            },
    {
        if !self.is_active(now) {
            return Err(TitaErrors::VotingNotActive);
        }
        match vote_type {
            VoteType::For => {
                if self.votes_for > u64::MAX - voting_power {
                    return Err(TitaErrors::MathOverflow);
                }
                self.votes_for = self.votes_for + voting_power;
            },
            VoteType::Against => {
                if self.votes_against > u64::MAX - voting_power {
                    return Err(TitaErrors::MathOverflow);
                }
                self.votes_against = self.votes_against + voting_power;
            },
            VoteType::Abstain => {
                if self.votes_abstain > u64::MAX - voting_power {
                    return Err(TitaErrors::MathOverflow);
                }
                self.votes_abstain = self.votes_abstain + voting_power;
            },
        }
        Ok(())
    }

    /// Cancels the proposal. Only the original proposer may cancel, and an
    /// executed proposal stays executed; any other state may be canceled.
    /// On any error the proposal is unchanged.
    pub fn cancel(&mut self, canceler: AccountId) -> (r: Result<(), TitaErrors>)
        ensures
            if canceler != old(self).proposer {
                r == Err::<(), TitaErrors>(TitaErrors::UnauthorizedCancellation) && *final(self)
                    == *old(self)
            } else if old(self).status == ProposalStatus::Executed {
                r == Err::<(), TitaErrors>(TitaErrors::ProposalAlreadyExecuted) && *final(self)
                    == *old(self)
            } else {
                r is Ok && *final(self) == (Proposal {
                    status: ProposalStatus::Canceled,
                    ..*old(self)
                })
            },
    {
        if canceler != self.proposer {
            return Err(TitaErrors::UnauthorizedCancellation);
        }
        if matches!(self.status, ProposalStatus::Executed) {
            return Err(TitaErrors::ProposalAlreadyExecuted);
        }
        self.status = ProposalStatus::Canceled;
        Ok(())
    }

    /// Evaluates the execution threshold on the current tallies. An
    /// `Active` proposal that has reached quorum resolves at once: `Passed`
    /// when the approval share is reached — the return value `true` tells
    /// the caller to execute — and `Failed` otherwise. Without quorum, or
    /// in any other state, nothing changes and the result is `false`.
    pub fn check_execution_threshold(&mut self) -> (r: bool)
        ensures
            if old(self).status != ProposalStatus::Active || !quorum_met(*old(self)) {
                r == false && *final(self) == *old(self)
            } else if approval_met(*old(self)) {
                r == true && *final(self) == (Proposal {
                    status: ProposalStatus::Passed,
                    ..*old(self)
                })
            } else {
                r == false && *final(self) == (Proposal {
                    status: ProposalStatus::Failed,
                    ..*old(self)
                })
            },
    {
        if !matches!(self.status, ProposalStatus::Active) {
            return false;
        }
        let total: u128 = self.votes_for as u128 + self.votes_against as u128
            + self.votes_abstain as u128;
        let quorum: u128 = mul_div_10000(self.total_eligible_votes as u128,
            self.quorum_percentage);
        if total < quorum {
            return false;
        }
        let approval: u128 = mul_div_10000(total, self.approval_percentage);
        if self.votes_for as u128 >= approval {
            self.status = ProposalStatus::Passed;
            true
        } else {
            self.status = ProposalStatus::Failed;
            false
        }
    }
}

/// `value * basis_points / 10000` in widened arithmetic; the product of a
/// tally (at most three 64-bit counters) and a 16-bit basis-point share
/// cannot wrap 128 bits.
pub fn mul_div_10000(value: u128, basis_points: u16) -> (r: u128)
    requires
        value <= 3 * (u64::MAX as int),
    ensures
        r == value * basis_points / 10000,
{
    proof {
        assert(value * (basis_points as u128) <= 3 * (u64::MAX as int) * (u16::MAX as int))
            by (nonlinear_arith)
            requires
                value <= 3 * (u64::MAX as int),
                basis_points <= u16::MAX,
        ;
    }
    value * (basis_points as u128) / 10000
}

} // verus!
