use vstd::prelude::*;

verus! {

/// Every error the engine can return.
///
/// Errors fall into five groups: validation errors (malformed input caught
/// before any state mutation), state errors (the operation is not legal in
/// the entity's current status), authorization errors (caller identity
/// mismatch), arithmetic errors (`MathOverflow` on any checked operation
/// that would wrap), and resource errors (insufficient available or
/// treasury funds). Every error is scoped to the single requested
/// operation, which then performs no mutation at all.
#[derive(Clone, Copy, Debug, PartialEq, Eq, Structural)]
pub enum TitaErrors {
    InvalidMilestoneAmount,
    EmptyFlowId,
    FlowIdTooLong,
    InvalidGoalAmount,
    InvalidStartTime,
    InvalidTimeframe,
    TooManyMilestones,
    NoMilestonesSpecified,
    InvalidMilestoneDeadline,
    MilestoneCantBeCompletedAtCreation,
    MathOverflow,
    MilestoneTotalMismatch,
    InvalidContributionAmount,
    FlowNotActive,
    InvalidTokenMint,
    FlowEnded,
    VotingNotActive,
    ProposalAlreadyExecuted,
    UnauthorizedCancellation,
    ActiveProposalExists,
    ProposalNotActive,
    InvalidFlow,
    InvalidProposal,
    InvalidContribution,
    UnauthorizedVoter,
    ZeroVotingPower,
    AlreadyVoted,
    NotMilestoneFlow,
    MilestoneNotFound,
    MilestoneAlreadyCompleted,
    CannotCancelFlow,
    InvalidMilestoneAdjustment,
    InvalidFlowExtension,
    UnauthorizedWithdrawal,
    FlowCanceled,
    InsufficientFunds,
    FlowNotCanceled,
    UnauthorizedContributor,
    AlreadyRefunded,
    RefundTooSmall,
    InsufficientTreasuryFunds,
}

} // verus!
