use tita_flow::contribution::{Contribution, contribute};
use tita_flow::errors::TitaErrors;
use tita_flow::flow::{Flow, FlowStatus, VotingPowerModel, create_flow};
use tita_flow::governance::{
    calculate_voting_power, cancel_proposal, create_proposal, isqrt64, vote,
};
use tita_flow::milestone::Milestone;
use tita_flow::proposal::{Proposal, ProposalStatus, ProposalType, VoteType};

const CREATOR: u64 = 1;
const MINT: u64 = 7;
const FLOW_KEY: u64 = 100;
const PROPOSAL_KEY: u64 = 200;
const ALICE: u64 = 10;
const BOB: u64 = 11;

fn ms(id: u32, amount: u64, deadline: i64) -> Milestone {
    Milestone { id, amount, deadline, completed: false }
}

fn flow_with(model: VotingPowerModel, milestones: Option<Vec<Milestone>>) -> Flow {
    create_flow(String::from("campaign"), CREATOR, MINT, 1000, None, None, milestones, model, 0)
        .unwrap()
}

fn contribution_of(total: u64) -> Contribution {
    Contribution {
        flow: FLOW_KEY,
        contributor: ALICE,
        token_mint: MINT,
        total_amount: total,
        first_contribution: 1,
        last_contribution: 1,
        contribution_count: 1,
        refunded: false,
        refund_amount: 0,
        refunded_at: None,
    }
}

#[test]
fn token_weighted_power_is_the_amount() {
    let flow = flow_with(VotingPowerModel::TokenWeighted, None);
    for amount in [1u64, 5, 100, 12345, u64::MAX] {
        let c = contribution_of(amount);
        assert_eq!(calculate_voting_power(&c, &flow).unwrap(), amount);
    }
}

#[test]
fn individual_power_is_always_one() {
    let flow = flow_with(VotingPowerModel::IndividualVoting, None);
    for amount in [1u64, 5, 100, 12345, u64::MAX] {
        let c = contribution_of(amount);
        assert_eq!(calculate_voting_power(&c, &flow).unwrap(), 1);
    }
}

#[test]
fn quadratic_power_boundaries() {
    let flow = flow_with(VotingPowerModel::QuadraticVoting, None);
    assert_eq!(calculate_voting_power(&contribution_of(100), &flow).unwrap(), 10);
    assert_eq!(calculate_voting_power(&contribution_of(10000), &flow).unwrap(), 100);
    // A positive contribution never rounds down to zero votes.
    assert_eq!(calculate_voting_power(&contribution_of(1), &flow).unwrap(), 1);
    assert_eq!(calculate_voting_power(&contribution_of(99), &flow).unwrap(), 9);
    assert_eq!(calculate_voting_power(&contribution_of(2), &flow).unwrap(), 1);
}

#[test]
fn zero_contribution_has_no_voting_power() {
    let flow = flow_with(VotingPowerModel::TokenWeighted, None);
    let c = contribution_of(0);
    assert_eq!(calculate_voting_power(&c, &flow).unwrap_err(), TitaErrors::ZeroVotingPower);
}

#[test]
fn isqrt_exact_squares_and_neighbors() {
    assert_eq!(isqrt64(0), 0);
    assert_eq!(isqrt64(1), 1);
    assert_eq!(isqrt64(3), 1);
    assert_eq!(isqrt64(4), 2);
    assert_eq!(isqrt64(8), 2);
    assert_eq!(isqrt64(9), 3);
    assert_eq!(isqrt64(u64::MAX), 4294967295);
}

#[test]
fn create_proposal_snapshots_raised_and_claims_the_flow() {
    let mut flow = flow_with(VotingPowerModel::TokenWeighted, None);
    let mut record = None;
    contribute(&mut flow, FLOW_KEY, &mut record, ALICE, MINT, 600, 1).unwrap();
    let p = create_proposal(
        &mut flow,
        FLOW_KEY,
        PROPOSAL_KEY,
        ALICE,
        ProposalType::FlowCancellation,
        100,
        5000,
        5000,
        2,
    )
    .unwrap();
    assert_eq!(p.status, ProposalStatus::Active);
    assert_eq!(p.total_eligible_votes, 600);
    assert_eq!(p.voting_starts_at, 2);
    assert_eq!(p.voting_ends_at, 102);
    assert_eq!(flow.active_proposal, Some(PROPOSAL_KEY));
    assert_eq!(flow.proposal_count, 1);

    let second = create_proposal(
        &mut flow,
        FLOW_KEY,
        PROPOSAL_KEY + 1,
        ALICE,
        ProposalType::FlowCancellation,
        100,
        5000,
        5000,
        3,
    );
    assert_eq!(second.unwrap_err(), TitaErrors::ActiveProposalExists);
}

/// Milestone flow, contributions before the proposal: the 700-power ballot
/// alone crosses a 50% quorum and 50% approval, and the action applies in
/// the same call.
#[test]
fn single_vote_crosses_thresholds_and_executes() {
    let mut flow = flow_with(
        VotingPowerModel::TokenWeighted,
        Some(vec![ms(0, 500, 1000), ms(1, 500, 1000)]),
    );
    let mut alice_rec = None;
    let mut bob_rec = None;
    contribute(&mut flow, FLOW_KEY, &mut alice_rec, ALICE, MINT, 300, 1).unwrap();
    contribute(&mut flow, FLOW_KEY, &mut bob_rec, BOB, MINT, 700, 1).unwrap();
    let mut proposal = create_proposal(
        &mut flow,
        FLOW_KEY,
        PROPOSAL_KEY,
        ALICE,
        ProposalType::MilestoneCompletion { milestone_id: 0 },
        100,
        5000,
        5000,
        2,
    )
    .unwrap();
    assert_eq!(proposal.total_eligible_votes, 1000);

    let ballot = vote(
        &mut flow,
        FLOW_KEY,
        &mut proposal,
        PROPOSAL_KEY,
        &bob_rec.unwrap(),
        false,
        BOB,
        VoteType::For,
        3,
    )
    .unwrap();
    assert_eq!(ballot.voting_power, 700);
    assert_eq!(proposal.status, ProposalStatus::Executed);
    assert_eq!(proposal.executed_at, Some(3));
    assert_eq!(proposal.votes_for, 700);
    assert!(flow.active_proposal.is_none());
    let milestones = flow.milestones.as_ref().unwrap();
    assert!(milestones[0].completed);
    assert!(!milestones[1].completed);
}

/// The proposal may predate every contribution: the eligible-vote snapshot
/// is then zero, quorum is met immediately, and the first For ballot
/// executes the action.
#[test]
fn proposal_created_before_contributions_executes_on_first_vote() {
    let mut flow = flow_with(
        VotingPowerModel::TokenWeighted,
        Some(vec![ms(0, 500, 1000), ms(1, 500, 1000)]),
    );
    let mut proposal = create_proposal(
        &mut flow,
        FLOW_KEY,
        PROPOSAL_KEY,
        ALICE,
        ProposalType::MilestoneCompletion { milestone_id: 0 },
        100,
        5000,
        5000,
        0,
    )
    .unwrap();
    assert_eq!(proposal.total_eligible_votes, 0);

    let mut alice_rec = None;
    let mut bob_rec = None;
    contribute(&mut flow, FLOW_KEY, &mut alice_rec, ALICE, MINT, 300, 1).unwrap();
    contribute(&mut flow, FLOW_KEY, &mut bob_rec, BOB, MINT, 700, 1).unwrap();

    vote(
        &mut flow,
        FLOW_KEY,
        &mut proposal,
        PROPOSAL_KEY,
        &bob_rec.unwrap(),
        false,
        BOB,
        VoteType::For,
        3,
    )
    .unwrap();
    assert_eq!(proposal.status, ProposalStatus::Executed);
    assert!(flow.milestones.as_ref().unwrap()[0].completed);
    assert!(flow.active_proposal.is_none());
}

#[test]
fn below_quorum_vote_only_updates_tallies() {
    let mut flow = flow_with(VotingPowerModel::TokenWeighted, None);
    let mut alice_rec = None;
    let mut bob_rec = None;
    contribute(&mut flow, FLOW_KEY, &mut alice_rec, ALICE, MINT, 300, 1).unwrap();
    contribute(&mut flow, FLOW_KEY, &mut bob_rec, BOB, MINT, 700, 1).unwrap();
    let mut proposal = create_proposal(
        &mut flow,
        FLOW_KEY,
        PROPOSAL_KEY,
        ALICE,
        ProposalType::FlowCancellation,
        100,
        5000,
        5000,
        2,
    )
    .unwrap();

    // 300 of 1000 eligible is below the 50% quorum: nothing resolves.
    vote(
        &mut flow,
        FLOW_KEY,
        &mut proposal,
        PROPOSAL_KEY,
        &alice_rec.unwrap(),
        false,
        ALICE,
        VoteType::For,
        3,
    )
    .unwrap();
    assert_eq!(proposal.status, ProposalStatus::Active);
    assert_eq!(proposal.votes_for, 300);
    assert_eq!(flow.flow_status, FlowStatus::Active);
    assert_eq!(flow.active_proposal, Some(PROPOSAL_KEY));
}

#[test]
fn quorum_without_approval_fails_the_proposal() {
    let mut flow = flow_with(VotingPowerModel::TokenWeighted, None);
    let mut bob_rec = None;
    contribute(&mut flow, FLOW_KEY, &mut bob_rec, BOB, MINT, 700, 1).unwrap();
    let mut proposal = create_proposal(
        &mut flow,
        FLOW_KEY,
        PROPOSAL_KEY,
        ALICE,
        ProposalType::FlowCancellation,
        100,
        5000,
        5000,
        2,
    )
    .unwrap();

    // 700 of 700 eligible meets quorum, but all of it is Against.
    vote(
        &mut flow,
        FLOW_KEY,
        &mut proposal,
        PROPOSAL_KEY,
        &bob_rec.unwrap(),
        false,
        BOB,
        VoteType::Against,
        3,
    )
    .unwrap();
    assert_eq!(proposal.status, ProposalStatus::Failed);
    assert_eq!(proposal.votes_against, 700);
    assert_eq!(flow.flow_status, FlowStatus::Active);
}

#[test]
fn second_ballot_from_same_voter_is_rejected() {
    let mut flow = flow_with(VotingPowerModel::TokenWeighted, None);
    let mut alice_rec = None;
    contribute(&mut flow, FLOW_KEY, &mut alice_rec, ALICE, MINT, 100, 1).unwrap();
    // Give the flow a large eligible base so a single ballot resolves nothing.
    let mut bob_rec = None;
    contribute(&mut flow, FLOW_KEY, &mut bob_rec, BOB, MINT, 900, 1).unwrap();
    let mut proposal = create_proposal(
        &mut flow,
        FLOW_KEY,
        PROPOSAL_KEY,
        ALICE,
        ProposalType::FlowCancellation,
        100,
        5000,
        5000,
        2,
    )
    .unwrap();
    let rec = alice_rec.unwrap();
    vote(&mut flow, FLOW_KEY, &mut proposal, PROPOSAL_KEY, &rec, false, ALICE, VoteType::For, 3)
        .unwrap();
    let before = proposal;
    let r = vote(&mut flow, FLOW_KEY, &mut proposal, PROPOSAL_KEY, &rec, true, ALICE,
        VoteType::For, 4);
    assert_eq!(r.unwrap_err(), TitaErrors::AlreadyVoted);
    assert_eq!(proposal, before);
}

#[test]
fn vote_prechecks_identify_the_caller_and_accounts() {
    let mut flow = flow_with(VotingPowerModel::TokenWeighted, None);
    let mut alice_rec = None;
    contribute(&mut flow, FLOW_KEY, &mut alice_rec, ALICE, MINT, 1000, 1).unwrap();
    let mut proposal = create_proposal(
        &mut flow,
        FLOW_KEY,
        PROPOSAL_KEY,
        ALICE,
        ProposalType::FlowCancellation,
        100,
        5000,
        5000,
        2,
    )
    .unwrap();
    let rec = alice_rec.unwrap();

    let r = vote(&mut flow, 999, &mut proposal, PROPOSAL_KEY, &rec, false, ALICE, VoteType::For, 3);
    assert_eq!(r.unwrap_err(), TitaErrors::InvalidFlow);

    let r = vote(&mut flow, FLOW_KEY, &mut proposal, 999, &rec, false, ALICE, VoteType::For, 3);
    assert_eq!(r.unwrap_err(), TitaErrors::InvalidProposal);

    let mut foreign = rec;
    foreign.flow = 999;
    let r = vote(&mut flow, FLOW_KEY, &mut proposal, PROPOSAL_KEY, &foreign, false, ALICE,
        VoteType::For, 3);
    assert_eq!(r.unwrap_err(), TitaErrors::InvalidContribution);

    let r = vote(&mut flow, FLOW_KEY, &mut proposal, PROPOSAL_KEY, &rec, false, BOB,
        VoteType::For, 3);
    assert_eq!(r.unwrap_err(), TitaErrors::UnauthorizedVoter);

    // Outside the voting window the proposal is not open.
    let r = vote(&mut flow, FLOW_KEY, &mut proposal, PROPOSAL_KEY, &rec, false, ALICE,
        VoteType::For, 103);
    assert_eq!(r.unwrap_err(), TitaErrors::ProposalNotActive);

    proposal.status = ProposalStatus::Canceled;
    let r = vote(&mut flow, FLOW_KEY, &mut proposal, PROPOSAL_KEY, &rec, false, ALICE,
        VoteType::For, 3);
    assert_eq!(r.unwrap_err(), TitaErrors::ProposalNotActive);
}

#[test]
fn passing_cancellation_cancels_the_flow() {
    let mut flow = flow_with(VotingPowerModel::TokenWeighted, None);
    let mut bob_rec = None;
    contribute(&mut flow, FLOW_KEY, &mut bob_rec, BOB, MINT, 700, 1).unwrap();
    let mut proposal = create_proposal(
        &mut flow,
        FLOW_KEY,
        PROPOSAL_KEY,
        BOB,
        ProposalType::FlowCancellation,
        100,
        5000,
        5000,
        2,
    )
    .unwrap();
    vote(
        &mut flow,
        FLOW_KEY,
        &mut proposal,
        PROPOSAL_KEY,
        &bob_rec.unwrap(),
        false,
        BOB,
        VoteType::For,
        3,
    )
    .unwrap();
    assert_eq!(flow.flow_status, FlowStatus::Canceled);
    assert_eq!(proposal.status, ProposalStatus::Executed);
    assert!(flow.active_proposal.is_none());
}

#[test]
fn cancellation_of_inactive_flow_fails_whole_vote() {
    let mut flow = flow_with(VotingPowerModel::TokenWeighted, None);
    let mut bob_rec = None;
    contribute(&mut flow, FLOW_KEY, &mut bob_rec, BOB, MINT, 700, 1).unwrap();
    let mut proposal = create_proposal(
        &mut flow,
        FLOW_KEY,
        PROPOSAL_KEY,
        BOB,
        ProposalType::FlowCancellation,
        100,
        5000,
        5000,
        2,
    )
    .unwrap();
    // The flow is canceled by another path before the vote resolves.
    flow.apply_cancellation().unwrap();
    let flow_before = flow.clone();
    let proposal_before = proposal;
    let r = vote(
        &mut flow,
        FLOW_KEY,
        &mut proposal,
        PROPOSAL_KEY,
        &bob_rec.unwrap(),
        false,
        BOB,
        VoteType::For,
        3,
    );
    // Hard failure of the whole resolution step: the ballot is rejected and
    // the proposal stays active for manual cancellation.
    assert_eq!(r.unwrap_err(), TitaErrors::CannotCancelFlow);
    assert_eq!(flow, flow_before);
    assert_eq!(proposal, proposal_before);
}

#[test]
fn milestone_adjustment_moves_the_deadline() {
    let mut flow = flow_with(
        VotingPowerModel::TokenWeighted,
        Some(vec![ms(0, 500, 1000), ms(1, 500, 1000)]),
    );
    let mut bob_rec = None;
    contribute(&mut flow, FLOW_KEY, &mut bob_rec, BOB, MINT, 700, 1).unwrap();
    let mut proposal = create_proposal(
        &mut flow,
        FLOW_KEY,
        PROPOSAL_KEY,
        BOB,
        ProposalType::MilestoneAdjustment {
            milestone_id: 1,
            new_amount: Some(500),
            new_deadline: Some(900),
        },
        100,
        5000,
        5000,
        2,
    )
    .unwrap();
    vote(
        &mut flow,
        FLOW_KEY,
        &mut proposal,
        PROPOSAL_KEY,
        &bob_rec.unwrap(),
        false,
        BOB,
        VoteType::For,
        3,
    )
    .unwrap();
    assert_eq!(proposal.status, ProposalStatus::Executed);
    let milestones = flow.milestones.as_ref().unwrap();
    assert_eq!(milestones[1].deadline, 900);
    assert_eq!(milestones[1].amount, 500);
    // The schedule still sums to the goal.
    let total: u64 = milestones.iter().map(|m| m.amount).sum();
    assert_eq!(total, flow.goal);
}

#[test]
fn milestone_adjustment_beyond_goal_fails_whole_vote() {
    let mut flow = flow_with(
        VotingPowerModel::TokenWeighted,
        Some(vec![ms(0, 500, 1000), ms(1, 500, 1000)]),
    );
    let mut bob_rec = None;
    contribute(&mut flow, FLOW_KEY, &mut bob_rec, BOB, MINT, 700, 1).unwrap();
    let mut proposal = create_proposal(
        &mut flow,
        FLOW_KEY,
        PROPOSAL_KEY,
        BOB,
        ProposalType::MilestoneAdjustment {
            milestone_id: 1,
            new_amount: Some(600),
            new_deadline: None,
        },
        100,
        5000,
        5000,
        2,
    )
    .unwrap();
    let flow_before = flow.clone();
    let proposal_before = proposal;
    let r = vote(
        &mut flow,
        FLOW_KEY,
        &mut proposal,
        PROPOSAL_KEY,
        &bob_rec.unwrap(),
        false,
        BOB,
        VoteType::For,
        3,
    );
    assert_eq!(r.unwrap_err(), TitaErrors::InvalidMilestoneAdjustment);
    assert_eq!(flow, flow_before);
    assert_eq!(proposal, proposal_before);
}

#[test]
fn funding_extension_moves_the_end_date_out() {
    let mut flow = create_flow(
        String::from("f"),
        CREATOR,
        MINT,
        1000,
        None,
        Some(500),
        None,
        VotingPowerModel::TokenWeighted,
        0,
    )
    .unwrap();
    let mut bob_rec = None;
    contribute(&mut flow, FLOW_KEY, &mut bob_rec, BOB, MINT, 700, 1).unwrap();
    let rec = bob_rec.unwrap();
    let mut proposal = create_proposal(
        &mut flow,
        FLOW_KEY,
        PROPOSAL_KEY,
        BOB,
        ProposalType::FlowFundingExtension { new_end_date: 800 },
        100,
        5000,
        5000,
        2,
    )
    .unwrap();
    vote(&mut flow, FLOW_KEY, &mut proposal, PROPOSAL_KEY, &rec, false, BOB, VoteType::For, 3)
        .unwrap();
    assert_eq!(flow.end_date, Some(800));

    // An extension not beyond the current end date is rejected outright.
    let mut proposal2 = create_proposal(
        &mut flow,
        FLOW_KEY,
        PROPOSAL_KEY + 1,
        BOB,
        ProposalType::FlowFundingExtension { new_end_date: 700 },
        100,
        5000,
        5000,
        4,
    )
    .unwrap();
    let r = vote(&mut flow, FLOW_KEY, &mut proposal2, PROPOSAL_KEY + 1, &rec, false, BOB,
        VoteType::For, 5);
    assert_eq!(r.unwrap_err(), TitaErrors::InvalidFlowExtension);
    assert_eq!(flow.end_date, Some(800));
}

#[test]
fn only_the_proposer_cancels_and_never_after_execution() {
    let mut flow = flow_with(VotingPowerModel::TokenWeighted, None);
    let mut bob_rec = None;
    contribute(&mut flow, FLOW_KEY, &mut bob_rec, BOB, MINT, 700, 1).unwrap();
    let mut proposal = create_proposal(
        &mut flow,
        FLOW_KEY,
        PROPOSAL_KEY,
        ALICE,
        ProposalType::FlowCancellation,
        100,
        5000,
        5000,
        2,
    )
    .unwrap();

    let r = cancel_proposal(&mut flow, &mut proposal, PROPOSAL_KEY, BOB);
    assert_eq!(r.unwrap_err(), TitaErrors::UnauthorizedCancellation);
    assert_eq!(proposal.status, ProposalStatus::Active);

    cancel_proposal(&mut flow, &mut proposal, PROPOSAL_KEY, ALICE).unwrap();
    assert_eq!(proposal.status, ProposalStatus::Canceled);
    assert!(flow.active_proposal.is_none());

    // An executed proposal stays executed.
    let mut executed = proposal;
    executed.status = ProposalStatus::Executed;
    let r = cancel_proposal(&mut flow, &mut executed, PROPOSAL_KEY, ALICE);
    assert_eq!(r.unwrap_err(), TitaErrors::ProposalAlreadyExecuted);
    assert_eq!(executed.status, ProposalStatus::Executed);
}

#[test]
fn update_status_resolves_closed_windows() {
    let base = Proposal {
        flow: FLOW_KEY,
        proposer: ALICE,
        proposal_type: ProposalType::FlowCancellation,
        status: ProposalStatus::Active,
        created_at: 0,
        voting_starts_at: 0,
        voting_ends_at: 100,
        votes_for: 0,
        votes_against: 0,
        votes_abstain: 0,
        total_eligible_votes: 1000,
        executed_at: None,
        quorum_percentage: 5000,
        approval_percentage: 5000,
    };

    // Open window: nothing changes.
    let mut p = base;
    p.update_status(50);
    assert_eq!(p.status, ProposalStatus::Active);

    // Window over without quorum.
    let mut p = base;
    p.votes_for = 300;
    p.update_status(101);
    assert_eq!(p.status, ProposalStatus::Failed);

    // Window over, quorum met, approval met.
    let mut p = base;
    p.votes_for = 600;
    p.update_status(101);
    assert_eq!(p.status, ProposalStatus::Passed);

    // Window over, quorum met, approval missed.
    let mut p = base;
    p.votes_for = 200;
    p.votes_against = 400;
    p.update_status(101);
    assert_eq!(p.status, ProposalStatus::Failed);

    // Already resolved states never move again.
    let mut p = base;
    p.status = ProposalStatus::Canceled;
    p.update_status(101);
    assert_eq!(p.status, ProposalStatus::Canceled);
}

#[test]
fn proposal_queries_follow_status_and_window() {
    let mut p = Proposal {
        flow: FLOW_KEY,
        proposer: ALICE,
        proposal_type: ProposalType::FlowCancellation,
        status: ProposalStatus::Active,
        created_at: 0,
        voting_starts_at: 10,
        voting_ends_at: 100,
        votes_for: 0,
        votes_against: 0,
        votes_abstain: 0,
        total_eligible_votes: 1000,
        executed_at: None,
        quorum_percentage: 5000,
        approval_percentage: 5000,
    };
    assert!(!p.is_active(9));
    assert!(p.is_active(10));
    assert!(p.is_active(100));
    assert!(!p.is_active(101));
    assert!(p.can_vote(50));
    assert!(!p.can_execute(101));
    p.status = ProposalStatus::Passed;
    assert!(!p.is_active(50));
    assert!(!p.can_execute(100));
    assert!(p.can_execute(101));
}

#[test]
fn add_vote_grows_only_the_matching_tally() {
    let mut p = Proposal {
        flow: FLOW_KEY,
        proposer: ALICE,
        proposal_type: ProposalType::FlowCancellation,
        status: ProposalStatus::Active,
        created_at: 0,
        voting_starts_at: 0,
        voting_ends_at: 100,
        votes_for: 0,
        votes_against: 0,
        votes_abstain: 0,
        total_eligible_votes: 1000,
        executed_at: None,
        quorum_percentage: 5000,
        approval_percentage: 5000,
    };
    p.add_vote(VoteType::For, 5, 1).unwrap();
    p.add_vote(VoteType::Against, 7, 2).unwrap();
    p.add_vote(VoteType::Abstain, 11, 3).unwrap();
    assert_eq!((p.votes_for, p.votes_against, p.votes_abstain), (5, 7, 11));

    let r = p.add_vote(VoteType::For, u64::MAX, 4);
    assert_eq!(r.unwrap_err(), TitaErrors::MathOverflow);
    assert_eq!(p.votes_for, 5);

    let r = p.add_vote(VoteType::For, 1, 101);
    assert_eq!(r.unwrap_err(), TitaErrors::VotingNotActive);
}

#[test]
fn check_execution_threshold_resolves_on_quorum() {
    let base = Proposal {
        flow: FLOW_KEY,
        proposer: ALICE,
        proposal_type: ProposalType::FlowCancellation,
        status: ProposalStatus::Active,
        created_at: 0,
        voting_starts_at: 0,
        voting_ends_at: 100,
        votes_for: 600,
        votes_against: 0,
        votes_abstain: 0,
        total_eligible_votes: 1000,
        executed_at: None,
        quorum_percentage: 5000,
        approval_percentage: 5000,
    };

    let mut p = base;
    assert!(p.check_execution_threshold());
    assert_eq!(p.status, ProposalStatus::Passed);

    let mut p = base;
    p.votes_for = 100;
    p.votes_against = 500;
    assert!(!p.check_execution_threshold());
    assert_eq!(p.status, ProposalStatus::Failed);

    let mut p = base;
    p.votes_for = 400;
    assert!(!p.check_execution_threshold());
    assert_eq!(p.status, ProposalStatus::Active);
}
