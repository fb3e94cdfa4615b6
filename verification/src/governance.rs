use vstd::prelude::*;

use crate::AccountId;
use crate::contribution::Contribution;
use crate::errors::TitaErrors;
use crate::flow::{Flow, FlowStatus, VotingPowerModel};
use crate::milestone::{
    adjust, adjust_check, lemma_adjust_preserves_total, lemma_find_from_in_range,
    lemma_mark_completed_preserves_total, mark_completed, mark_completed_check,
};
use crate::proposal::{
    Proposal, ProposalStatus, ProposalType, VoteType, approval_met, quorum_met, tallies_updated,
    tally_overflows,
};
use crate::vote::Vote;

verus! {

/// `r` is the integer square root of `n`: the largest integer whose square
/// does not exceed `n`.
pub open spec fn is_sqrt_floor(n: int, r: int) -> bool {
    &&& 0 <= r
    &&& r * r <= n
    &&& n < (r + 1) * (r + 1)
}

/// The integer square root of `n`, by binary search over the 32-bit range
/// that must contain it.
#[verifier::loop_isolation(false)]
pub fn isqrt64(n: u64) -> (r: u64)
    ensures
        is_sqrt_floor(n as int, r as int),
{
    let mut lo: u64 = 0;
    let mut hi: u64 = 4294967295;
    proof {
        assert((4294967295 + 1) * (4294967295 + 1) > u64::MAX as int);
    }
    while lo < hi
        invariant
            lo <= hi <= 4294967295,
            lo * lo <= n,
            n < (hi + 1) * (hi + 1),
        decreases hi - lo,
    {
        let mid = lo + (hi - lo + 1) / 2;
        proof {
            assert(mid * mid <= 4294967295 * 4294967295) by (nonlinear_arith)
                requires
                    0 <= mid <= 4294967295,
            ;
        }
        if mid * mid <= n {
            lo = mid;
        } else {
            hi = mid - 1;
        }
    }
    lo
}

/// `pw` is the vote weight the model assigns to the position `c`: the full
/// token amount under `TokenWeighted`, the integer square root of the
/// amount under `QuadraticVoting`, and exactly one vote under
/// `IndividualVoting`.
pub open spec fn power_ok(c: Contribution, model: VotingPowerModel, pw: u64) -> bool {
    match model {
        VotingPowerModel::TokenWeighted => pw == c.total_amount,
        VotingPowerModel::QuadraticVoting => is_sqrt_floor(c.total_amount as int, pw as int),
        VotingPowerModel::IndividualVoting => pw == 1,
    }
}

/// Computes a voter's weight from their contribution under the flow's
/// voting-power model. An empty position has no say: it fails with
/// `ZeroVotingPower`. A positive position always carries at least one
/// vote, under every model; under `TokenWeighted` the weight is exactly
/// the contributed amount, under `QuadraticVoting` the integer square root
/// of it (never rounded to zero), and under `IndividualVoting` exactly one.
pub fn calculate_voting_power(contribution: &Contribution, flow: &Flow) -> (r: Result<
    u64,
    TitaErrors,
>)
    ensures
        contribution.total_amount == 0 ==> r == Err::<u64, TitaErrors>(
            TitaErrors::ZeroVotingPower,
        ),
        contribution.total_amount > 0 ==> (r matches Ok(pw) && pw >= 1 && power_ok(
            *contribution,
            flow.voting_power_model,
            pw,
        )),
{
    if contribution.total_amount == 0 {
        return Err(TitaErrors::ZeroVotingPower);
    }
    match flow.voting_power_model {
        VotingPowerModel::TokenWeighted => Ok(contribution.total_amount),
        VotingPowerModel::QuadraticVoting => {
            let s = isqrt64(contribution.total_amount);
            proof {
                assert(s >= 1) by {
                    if s == 0 {
                        assert(contribution.total_amount < 1);
                    }
                };
            }
            let pw = if s < 1 {
                1
            } else {
                s
            };
            Ok(pw)
        },
        VotingPowerModel::IndividualVoting => Ok(1),
    }
}

/// The error `create_proposal` returns, if any.
pub open spec fn create_proposal_err(flow: Flow, voting_duration: i64, now: i64) -> Option<
    TitaErrors,
> {
    if flow.active_proposal is Some {
        Some(TitaErrors::ActiveProposalExists)
    } else if !(i64::MIN <= now + voting_duration <= i64::MAX) {
        Some(TitaErrors::MathOverflow)
    } else if flow.proposal_count + 1 > u8::MAX {
        Some(TitaErrors::MathOverflow)
    } else {
        None
    }
}

/// Opens a proposal against a flow that has none outstanding. The eligible
/// vote total is a snapshot of the flow's `raised` taken now — later
/// contributions do not change this proposal's denominator — and the voting
/// window runs from `now` for `voting_duration`. The flow records the new
/// proposal as its outstanding one. On any error the flow is unchanged.
pub fn create_proposal(
    flow: &mut Flow,
    flow_key: AccountId,
    proposal_key: AccountId,
    proposer: AccountId,
    proposal_type: ProposalType,
    voting_duration: i64,
    quorum_percentage: u16,
    approval_percentage: u16,
    now: i64,
) -> (r: Result<Proposal, TitaErrors>)
    requires
        old(flow).inv(),
    ensures
        final(flow).inv(),
        match create_proposal_err(*old(flow), voting_duration, now) {
            Some(e) => r == Err::<Proposal, TitaErrors>(e) && *final(flow) == *old(flow),
            None => {
                &&& r == Ok::<Proposal, TitaErrors>(Proposal {
                    flow: flow_key,
                    proposer: proposer,
                    proposal_type: proposal_type,
                    status: ProposalStatus::Active,
                    created_at: now,
                    voting_starts_at: now,
                    voting_ends_at: (now + voting_duration) as i64,
                    votes_for: 0,
                    votes_against: 0,
                    votes_abstain: 0,
                    total_eligible_votes: old(flow).raised,
                    executed_at: None,
                    quorum_percentage: quorum_percentage,
                    approval_percentage: approval_percentage,
                })
                &&& *final(flow) == (Flow {
                    active_proposal: Some(proposal_key),
                    proposal_count: (old(flow).proposal_count + 1) as u8,
                    ..*old(flow)
                })
            },
        },
{
    if flow.active_proposal.is_some() {
        return Err(TitaErrors::ActiveProposalExists);
    }
    let ends_at = match now.checked_add(voting_duration) {
        Some(t) => t,
        None => {
            return Err(TitaErrors::MathOverflow);
        },
    };
    if flow.proposal_count == u8::MAX {
        return Err(TitaErrors::MathOverflow);
    }
    let proposal = Proposal {
        flow: flow_key,
        proposer,
        proposal_type,
        status: ProposalStatus::Active,
        created_at: now,
        voting_starts_at: now,
        voting_ends_at: ends_at,
        votes_for: 0,
        votes_against: 0,
        votes_abstain: 0,
        total_eligible_votes: flow.raised,
        executed_at: None,
        quorum_percentage,
        approval_percentage,
    };
    flow.active_proposal = Some(proposal_key);
    flow.proposal_count = flow.proposal_count + 1;
    Ok(proposal)
}

/// The error applying a passed proposal's action to its flow would raise,
/// if any.
pub open spec fn action_err(flow: Flow, action: ProposalType, now: i64) -> Option<TitaErrors> {
    match action {
        ProposalType::MilestoneCompletion { milestone_id } => match flow.milestones {
            None => Some(TitaErrors::NotMilestoneFlow),
            Some(ms) => match mark_completed_check(ms@, milestone_id) {
                Ok(_) => None,
                Err(e) => Some(e),
            },
        },
        ProposalType::FlowCancellation => if flow.flow_status != FlowStatus::Active {
            Some(TitaErrors::CannotCancelFlow)
        } else {
            None
        },
        ProposalType::MilestoneAdjustment { milestone_id, new_amount, new_deadline } => match flow
            .milestones {
            None => Some(TitaErrors::NotMilestoneFlow),
            Some(ms) => match adjust_check(
                ms@,
                milestone_id,
                new_amount,
                new_deadline,
                flow.goal,
                flow.end_date,
                now,
            ) {
                Ok(_) => None,
                Err(e) => Some(e),
            },
        },
        ProposalType::FlowFundingExtension { new_end_date } => if new_end_date <= now {
            Some(TitaErrors::InvalidFlowExtension)
        } else if flow.end_date matches Some(e) && new_end_date <= e {
            Some(TitaErrors::InvalidFlowExtension)
        } else {
            None
        },
    }
}

/// How a flow that an action was applied to relates to the flow before:
/// the action's own effect and nothing else, except that the outstanding
/// proposal reference is left to the caller.
pub open spec fn flow_after_action(pre: Flow, post: Flow, action: ProposalType, now: i64) -> bool {
    match action {
        ProposalType::MilestoneCompletion { milestone_id } => match pre.milestones {
            Some(ms) => match mark_completed_check(ms@, milestone_id) {
                Ok(new_ms) => {
                    &&& post.milestones matches Some(pms) && pms@ == new_ms
                    &&& post == (Flow {
                        milestones: post.milestones,
                        active_proposal: post.active_proposal,
                        ..pre
                    })
                },
                Err(_) => false,
            },
            None => false,
        },
        ProposalType::FlowCancellation => post == (Flow {
            flow_status: FlowStatus::Canceled,
            active_proposal: post.active_proposal,
            ..pre
        }),
        ProposalType::MilestoneAdjustment { milestone_id, new_amount, new_deadline } => match pre
            .milestones {
            Some(ms) => match adjust_check(
                ms@,
                milestone_id,
                new_amount,
                new_deadline,
                pre.goal,
                pre.end_date,
                now,
            ) {
                Ok(new_ms) => {
                    &&& post.milestones matches Some(pms) && pms@ == new_ms
                    &&& post == (Flow {
                        milestones: post.milestones,
                        active_proposal: post.active_proposal,
                        ..pre
                    })
                },
                Err(_) => false,
            },
            None => false,
        },
        ProposalType::FlowFundingExtension { new_end_date } => post == (Flow {
            end_date: Some(new_end_date),
            active_proposal: post.active_proposal,
            ..pre
        }),
    }
}

/// Applies a passed proposal's action to its flow, all or nothing: marking
/// a milestone completed, canceling the flow, adjusting a milestone, or
/// extending the funding window. On any error the flow is unchanged; on
/// success the flow's well-formedness — in particular that milestone
/// amounts still sum to the goal — is preserved.
pub fn apply_action(flow: &mut Flow, action: ProposalType, now: i64) -> (r: Result<(), TitaErrors>)
    requires
        old(flow).inv(),
    ensures
        final(flow).inv(),
        match action_err(*old(flow), action, now) {
            Some(e) => r == Err::<(), TitaErrors>(e) && *final(flow) == *old(flow),
            None => {
                &&& r is Ok
                &&& flow_after_action(*old(flow), *final(flow), action, now)
                &&& final(flow).active_proposal == old(flow).active_proposal
            },
        },
{
    match action {
        ProposalType::MilestoneCompletion { milestone_id } => {
            let ghost pre = *flow;
            let r = match &mut flow.milestones {
                Some(ms) => mark_completed(ms, milestone_id),
                None => Err(TitaErrors::NotMilestoneFlow),
            };
            proof {
                if r is Ok && pre.milestones is Some {
                    let ms = pre.milestones.unwrap()@;
                    lemma_find_from_in_range(ms, milestone_id, 0);
                    lemma_mark_completed_preserves_total(ms, milestone_id);
                }
            }
            r
        },
        ProposalType::FlowCancellation => flow.apply_cancellation(),
        ProposalType::MilestoneAdjustment { milestone_id, new_amount, new_deadline } => {
            let ghost pre = *flow;
            let goal = flow.goal;
            let end_date = flow.end_date;
            let r = match &mut flow.milestones {
                Some(ms) => adjust(ms, milestone_id, new_amount, new_deadline, goal, end_date, now),
                None => Err(TitaErrors::NotMilestoneFlow),
            };
            proof {
                if r is Ok && pre.milestones is Some {
                    let ms = pre.milestones.unwrap()@;
                    lemma_find_from_in_range(ms, milestone_id, 0);
                    lemma_adjust_preserves_total(
                        ms,
                        milestone_id,
                        new_amount,
                        new_deadline,
                        pre.goal,
                        pre.end_date,
                        now,
                    );
                }
            }
            r
        },
        ProposalType::FlowFundingExtension { new_end_date } => {
            if new_end_date <= now {
                return Err(TitaErrors::InvalidFlowExtension);
            }
            if let Some(e) = flow.end_date {
                if new_end_date <= e {
                    return Err(TitaErrors::InvalidFlowExtension);
                }
            }
            flow.end_date = Some(new_end_date);
            Ok(())
        },
    }
}

/// The error `vote` returns before any tally or action comes into play,
/// if any: the proposal must be this flow's outstanding one and open for
/// voting, the ballot must come from the owner of a contribution to this
/// flow who has not voted yet, and an empty position has no say.
pub open spec fn vote_precheck_err(
    flow: Flow,
    flow_key: AccountId,
    proposal: Proposal,
    proposal_key: AccountId,
    contribution: Contribution,
    already_voted: bool,
    voter: AccountId,
    now: i64,
) -> Option<TitaErrors> {
    if proposal.status != ProposalStatus::Active {
        Some(TitaErrors::ProposalNotActive)
    } else if proposal.flow != flow_key {
        Some(TitaErrors::InvalidFlow)
    } else if flow.active_proposal != Some(proposal_key) {
        Some(TitaErrors::InvalidProposal)
    } else if contribution.flow != flow_key {
        Some(TitaErrors::InvalidContribution)
    } else if contribution.contributor != voter {
        Some(TitaErrors::UnauthorizedVoter)
    } else if !(proposal.voting_starts_at <= now <= proposal.voting_ends_at) {
        Some(TitaErrors::ProposalNotActive)
    } else if already_voted {
        Some(TitaErrors::AlreadyVoted)
    } else if contribution.total_amount == 0 {
        Some(TitaErrors::ZeroVotingPower)
    } else {
        None
    }
}

/// What one accepted or rejected ballot of weight `pw` does: the matching
/// tally grows, then the execution threshold is evaluated on the new
/// tallies. Without quorum nothing resolves; with quorum but without the
/// approval share the proposal fails; with both, the action is applied to
/// the flow, the proposal turns `Executed`, and the flow's outstanding
/// reference clears — one atomic step, or, if the action itself cannot
/// apply, one atomic error with nothing changed at all.
pub open spec fn vote_outcome(
    pre_flow: Flow,
    post_flow: Flow,
    pre_prop: Proposal,
    post_prop: Proposal,
    r: Result<Vote, TitaErrors>,
    pw: u64,
    proposal_key: AccountId,
    voter: AccountId,
    vote_type: VoteType,
    now: i64,
) -> bool {
    if tally_overflows(pre_prop, vote_type, pw) {
        &&& r == Err::<Vote, TitaErrors>(TitaErrors::MathOverflow)
        &&& post_flow == pre_flow
        &&& post_prop == pre_prop
    } else {
        let tallied = tallies_updated(pre_prop, vote_type, pw);
        let ballot = Vote {
            proposal: proposal_key,
            voter: voter,
            vote_type: vote_type,
            voting_power: pw,
            voted_at: now,
        };
        if !quorum_met(tallied) {
            &&& r == Ok::<Vote, TitaErrors>(ballot)
            &&& post_flow == pre_flow
            &&& post_prop == tallied
        } else if !approval_met(tallied) {
            &&& r == Ok::<Vote, TitaErrors>(ballot)
            &&& post_flow == pre_flow
            &&& post_prop == (Proposal { status: ProposalStatus::Failed, ..tallied })
        } else {
            match action_err(pre_flow, pre_prop.proposal_type, now) {
                Some(e) => {
                    &&& r == Err::<Vote, TitaErrors>(e)
                    &&& post_flow == pre_flow
                    &&& post_prop == pre_prop
                },
                None => {
                    &&& r == Ok::<Vote, TitaErrors>(ballot)
                    &&& flow_after_action(pre_flow, post_flow, pre_prop.proposal_type, now)
                    &&& post_flow.active_proposal is None
                    &&& post_prop == (Proposal {
                        status: ProposalStatus::Executed,
                        executed_at: Some(now),
                        ..tallied
                    })
                },
            }
        }
    }
}

/// Casts one ballot and, in the same atomic step, resolves and executes
/// the proposal if the ballot crosses both thresholds. Each voter votes at
/// most once: a ballot from a voter who already holds one fails with
/// `AlreadyVoted`. On any error neither the flow nor the proposal changes;
/// a proposal is never left half-executed.
pub fn vote(
    flow: &mut Flow,
    flow_key: AccountId,
    proposal: &mut Proposal,
    proposal_key: AccountId,
    contribution: &Contribution,
    already_voted: bool,
    voter: AccountId,
    vote_type: VoteType,
    now: i64,
) -> (r: Result<Vote, TitaErrors>)
    requires
        old(flow).inv(),
    ensures
        final(flow).inv(),
        match vote_precheck_err(
            *old(flow),
            flow_key,
            *old(proposal),
            proposal_key,
            *contribution,
            already_voted,
            voter,
            now,
        ) {
            Some(e) => {
                &&& r == Err::<Vote, TitaErrors>(e)
                &&& *final(flow) == *old(flow)
                &&& *final(proposal) == *old(proposal)
            },
            None => exists|pw: u64|
                #[trigger] power_ok(*contribution, old(flow).voting_power_model, pw)
                    && vote_outcome(
                    *old(flow),
                    *final(flow),
                    *old(proposal),
                    *final(proposal),
                    r,
                    pw,
                    proposal_key,
                    voter,
                    vote_type,
                    now,
                ),
        },
{
    if !matches!(proposal.status, ProposalStatus::Active) {
        return Err(TitaErrors::ProposalNotActive);
    }
    if proposal.flow != flow_key {
        return Err(TitaErrors::InvalidFlow);
    }
    let references_this = match flow.active_proposal {
        Some(k) => k == proposal_key,
        None => false,
    };
    if !references_this {
        return Err(TitaErrors::InvalidProposal);
    }
    if contribution.flow != flow_key {
        return Err(TitaErrors::InvalidContribution);
    }
    if contribution.contributor != voter {
        return Err(TitaErrors::UnauthorizedVoter);
    }
    if !(now >= proposal.voting_starts_at && now <= proposal.voting_ends_at) {
        return Err(TitaErrors::ProposalNotActive);
    }
    if already_voted {
        return Err(TitaErrors::AlreadyVoted);
    }
    let power = match calculate_voting_power(contribution, flow) {
        Ok(p) => p,
        Err(e) => {
            return Err(e);
        },
    };
    let mut tallied = *proposal;
    if let Err(e) = tallied.add_vote(vote_type, power, now) {
        return Err(e);
    }
    let should_execute = tallied.check_execution_threshold();
    if should_execute {
        let action = proposal.proposal_type;
        if let Err(e) = apply_action(flow, action, now) {
            return Err(e);
        }
        tallied.status = ProposalStatus::Executed;
        tallied.executed_at = Some(now);
        flow.active_proposal = None;
    }
    *proposal = tallied;
    let ballot = Vote { proposal: proposal_key, voter, vote_type, voting_power: power, voted_at: now };
    proof {
        assert(power_ok(*contribution, old(flow).voting_power_model, power));
    }
    Ok(ballot)
}

/// Cancels a proposal on its proposer's demand and, when the flow still
/// references it as outstanding, clears that reference so a new proposal
/// can be opened. Only the proposer may cancel, and never after execution;
/// on any error neither the flow nor the proposal changes.
pub fn cancel_proposal(
    flow: &mut Flow,
    proposal: &mut Proposal,
    proposal_key: AccountId,
    caller: AccountId,
) -> (r: Result<(), TitaErrors>)
    ensures
        old(flow).inv() ==> final(flow).inv(),
        if caller != old(proposal).proposer {
            &&& r == Err::<(), TitaErrors>(TitaErrors::UnauthorizedCancellation)
            &&& *final(flow) == *old(flow)
            &&& *final(proposal) == *old(proposal)
        } else if old(proposal).status == ProposalStatus::Executed {
            &&& r == Err::<(), TitaErrors>(TitaErrors::ProposalAlreadyExecuted)
            &&& *final(flow) == *old(flow)
            &&& *final(proposal) == *old(proposal)
        } else {
            &&& r is Ok
            &&& *final(proposal) == (Proposal { status: ProposalStatus::Canceled, ..*old(proposal) })
            &&& *final(flow) == if old(flow).active_proposal == Some(proposal_key) {
                (Flow { active_proposal: None, ..*old(flow) })
            } else {
                *old(flow)
            }
        },
{
    let r = proposal.cancel(caller);
    if r.is_err() {
        return r;
    }
    let references_this = match flow.active_proposal {
        Some(k) => k == proposal_key,
        None => false,
    };
    if references_this {
        flow.active_proposal = None;
    }
    Ok(())
}

} // verus!
