use vstd::prelude::*;

use crate::AccountId;
use crate::errors::TitaErrors;
use crate::milestone::{Milestone, milestone_total, schedule_check, validate_schedule};
use crate::milestone::lemma_scan_from_ok;

verus! {

/// The lifecycle of a funding campaign. Transitions are one-directional:
/// a flow leaves `Active` for `Completed` or `Canceled` and never returns.
#[derive(Clone, Copy, Debug, PartialEq, Eq, Structural)]
pub enum FlowStatus {
    Active,
    Completed,
    Canceled,
}

/// How a contributor's stake maps to vote weight.
#[derive(Clone, Copy, Debug, PartialEq, Eq, Structural)]
pub enum VotingPowerModel {
    /// One donated token is one vote.
    TokenWeighted,
    /// The square root of the token amount, which narrows the gap between
    /// small and large contributors.
    QuadraticVoting,
    /// One contributor is one vote, whatever the amount.
    IndividualVoting,
}

/// A funding campaign: its goal, its accounting counters, its status, its
/// optional milestone schedule and its governance settings.
#[derive(Clone, Debug, PartialEq)]
pub struct Flow {
    /// Identifier chosen by the creator, unique per creator, 1 to 32 characters.
    pub flow_id: String,
    /// The flow's creator, the only identity allowed to withdraw.
    pub creator: AccountId,
    /// The token this flow is funded in.
    pub token_mint: AccountId,
    /// Target amount; always positive.
    pub goal: u64,
    /// Cumulative amount contributed.
    pub raised: u64,
    /// Amount withdrawable now.
    pub available: u64,
    /// Cumulative amount withdrawn.
    pub withdrawn: u64,
    /// Cumulative amount refunded after cancellation.
    pub total_refunded: u64,
    /// Number of refunds paid out.
    pub refunds_count: u32,
    /// When funding starts, if bounded.
    pub start_date: Option<i64>,
    /// When funding ends, if bounded.
    pub end_date: Option<i64>,
    /// Current lifecycle state.
    pub flow_status: FlowStatus,
    /// Number of distinct contributors.
    pub contributor_count: u32,
    /// Milestone schedule; present only for milestone-gated flows.
    pub milestones: Option<Vec<Milestone>>,
    /// Number of proposals ever created against this flow.
    pub proposal_count: u8,
    /// The voting-power model every proposal on this flow is tallied under.
    pub voting_power_model: VotingPowerModel,
    /// The outstanding proposal, if one is referenced.
    pub active_proposal: Option<AccountId>,
}

impl Flow {
    /// Well-formedness, established at creation and preserved by every
    /// operation: the goal is positive, the identifier has 1 to 32
    /// characters, funds are conserved (`raised >= available + withdrawn`),
    /// and a milestone schedule has 1 to 10 milestones with positive
    /// amounts summing to the goal.
    pub open spec fn inv(self) -> bool {
        &&& self.goal > 0
        &&& 1 <= self.flow_id@.len() <= 32
        &&& self.raised as int >= self.available as int + self.withdrawn as int
        &&& match self.milestones {
            Some(ms) => {
                &&& 1 <= ms@.len() <= 10
                &&& milestone_total(ms@) == self.goal as int
                &&& forall|i: int| 0 <= i < ms@.len() ==> (#[trigger] ms@[i]).amount > 0
            },
            None => true,
        }
    }

    /// The error `record_contribution` returns, if any.
    pub open spec fn record_contribution_err(self, amount: u64, now: i64) -> Option<TitaErrors> {
        if self.flow_status != FlowStatus::Active {
            Some(TitaErrors::FlowNotActive)
        } else if self.end_date matches Some(e) && now > e {
            Some(TitaErrors::FlowEnded)
        } else if self.raised + amount > u64::MAX {
            Some(TitaErrors::MathOverflow)
        } else if self.milestones is None && self.available + amount > u64::MAX {
            Some(TitaErrors::MathOverflow)
        } else {
            None
        }
    }

    /// Adds `amount` to `raised`; when the flow has no milestones the amount
    /// is immediately withdrawable, so `available` grows by the same amount.
    /// Fails with `FlowNotActive` or `FlowEnded` when the flow no longer
    /// accepts contributions, and with `MathOverflow` when a counter would
    /// wrap; on any error the flow is unchanged.
    pub fn record_contribution(&mut self, amount: u64, now: i64) -> (r: Result<(), TitaErrors>)
        ensures
            match old(self).record_contribution_err(amount, now) {
                Some(e) => r == Err::<(), TitaErrors>(e) && *final(self) == *old(self),
                None => r is Ok && *final(self) == (Flow {
                    raised: (old(self).raised + amount) as u64,
                    available: if old(self).milestones is None {
                        (old(self).available + amount) as u64
                    } else {
                        old(self).available
                    },
                    ..*old(self)
                }),
            },
            old(self).inv() ==> final(self).inv(),
    {
        if !matches!(self.flow_status, FlowStatus::Active) {
            return Err(TitaErrors::FlowNotActive);
        }
        if let Some(e) = self.end_date {
            if now > e {
                return Err(TitaErrors::FlowEnded);
            }
        }
        if self.raised > u64::MAX - amount {
            return Err(TitaErrors::MathOverflow);
        }
        if self.milestones.is_none() {
            if self.available > u64::MAX - amount {
                return Err(TitaErrors::MathOverflow);
            }
            self.available = self.available + amount;
        }
        self.raised = self.raised + amount;
        Ok(())
    }

    /// Moves `amount` from `available` to `withdrawn`. Fails with
    /// `InsufficientFunds` when more than the available balance is asked
    /// for, leaving the flow unchanged. Conservation keeps the sum
    /// `available + withdrawn` constant, so no counter can wrap.
    pub fn record_withdrawal(&mut self, amount: u64) -> (r: Result<(), TitaErrors>)
        requires
            old(self).inv(),
        ensures
            final(self).inv(),
            if amount > old(self).available {
                r == Err::<(), TitaErrors>(TitaErrors::InsufficientFunds) && *final(self) == *old(
                    self,
                )
            } else {
                r is Ok && *final(self) == (Flow {
                    available: (old(self).available - amount) as u64,
                    withdrawn: (old(self).withdrawn + amount) as u64,
                    ..*old(self)
                })
            },
    {
        if amount > self.available {
            return Err(TitaErrors::InsufficientFunds);
        }
        self.available = self.available - amount;
        self.withdrawn = self.withdrawn + amount;
        Ok(())
    }

    /// Adds a paid refund to `total_refunded` and bumps `refunds_count`.
    /// Only a canceled flow refunds. Fails with `MathOverflow` when a
    /// counter would wrap; on the error the flow is unchanged.
    pub fn record_refund(&mut self, amount: u64) -> (r: Result<(), TitaErrors>)
        requires
            old(self).flow_status == FlowStatus::Canceled,
        ensures
            if old(self).total_refunded + amount > u64::MAX || old(self).refunds_count + 1
                > u32::MAX {
                r == Err::<(), TitaErrors>(TitaErrors::MathOverflow) && *final(self) == *old(self)
            } else {
                r is Ok && *final(self) == (Flow {
                    total_refunded: (old(self).total_refunded + amount) as u64,
                    refunds_count: (old(self).refunds_count + 1) as u32,
                    ..*old(self)
                })
            },
            old(self).inv() ==> final(self).inv(),
    {
        if self.total_refunded > u64::MAX - amount {
            return Err(TitaErrors::MathOverflow);
        }
        if self.refunds_count == u32::MAX {
            return Err(TitaErrors::MathOverflow);
        }
        self.total_refunded = self.total_refunded + amount;
        self.refunds_count = self.refunds_count + 1;
        Ok(())
    }

    /// Turns an `Active` flow `Canceled`. Any other starting status fails
    /// with `CannotCancelFlow` and leaves the flow unchanged; in particular
    /// a second cancellation fails, and a canceled flow never resurrects.
    pub fn apply_cancellation(&mut self) -> (r: Result<(), TitaErrors>)
        ensures
            if old(self).flow_status != FlowStatus::Active {
                r == Err::<(), TitaErrors>(TitaErrors::CannotCancelFlow) && *final(self) == *old(
                    self,
                )
            } else {
                r is Ok && *final(self) == (Flow {
                    flow_status: FlowStatus::Canceled,
                    ..*old(self)
                })
            },
            old(self).inv() ==> final(self).inv(),
    {
        if !matches!(self.flow_status, FlowStatus::Active) {
            return Err(TitaErrors::CannotCancelFlow);
        }
        self.flow_status = FlowStatus::Canceled;
        Ok(())
    }
}

/// The error `create_flow` returns, if any: identifier bounds, a positive
/// goal, a consistent timeframe, then the milestone schedule checks.
pub open spec fn create_flow_err(
    flow_id: Seq<char>,
    goal: u64,
    start_time: Option<i64>,
    end_time: Option<i64>,
    milestones: Option<Seq<Milestone>>,
    now: i64,
) -> Option<TitaErrors> {
    if flow_id.len() == 0 {
        Some(TitaErrors::EmptyFlowId)
    } else if flow_id.len() > 32 {
        Some(TitaErrors::FlowIdTooLong)
    } else if goal == 0 {
        Some(TitaErrors::InvalidGoalAmount)
    } else if start_time matches Some(s) && s < now {
        Some(TitaErrors::InvalidStartTime)
    } else if start_time matches Some(s) && end_time matches Some(e) && e <= s {
        Some(TitaErrors::InvalidTimeframe)
    } else if end_time matches Some(e) && e <= now {
        Some(TitaErrors::InvalidTimeframe)
    } else {
        match milestones {
            Some(ms) => match schedule_check(ms, goal, end_time, now) {
                Ok(_) => None,
                Err(e) => Some(e),
            },
            None => None,
        }
    }
}

/// Opens a funding campaign. On success the flow starts `Active` with all
/// counters zero and, when a schedule is given, milestone amounts that sum
/// exactly to the goal. On any validation error no flow is produced.
pub fn create_flow(
    flow_id: String,
    creator: AccountId,
    token_mint: AccountId,
    goal: u64,
    start_time: Option<i64>,
    end_time: Option<i64>,
    milestones: Option<Vec<Milestone>>,
    voting_power_model: VotingPowerModel,
    now: i64,
) -> (r: Result<Flow, TitaErrors>)
    ensures
        match create_flow_err(
            flow_id@,
            goal,
            start_time,
            end_time,
            match milestones {
                Some(ms) => Some(ms@),
                None => None,
            },
            now,
        ) {
            Some(e) => r == Err::<Flow, TitaErrors>(e),
            None => r matches Ok(f) && f == (Flow {
                flow_id: flow_id,
                creator: creator,
                token_mint: token_mint,
                goal: goal,
                raised: 0,
                available: 0,
                withdrawn: 0,
                total_refunded: 0,
                refunds_count: 0,
                start_date: start_time,
                end_date: end_time,
                flow_status: FlowStatus::Active,
                contributor_count: 0,
                milestones: milestones,
                proposal_count: 0,
                voting_power_model: voting_power_model,
                active_proposal: None,
            }) && f.inv(),
        },
{
    let id_len = flow_id.as_str().unicode_len();
    if id_len == 0 {
        return Err(TitaErrors::EmptyFlowId);
    }
    if id_len > 32 {
        return Err(TitaErrors::FlowIdTooLong);
    }
    if goal == 0 {
        return Err(TitaErrors::InvalidGoalAmount);
    }
    if let Some(s) = start_time {
        if s < now {
            return Err(TitaErrors::InvalidStartTime);
        }
        if let Some(e) = end_time {
            if e <= s {
                return Err(TitaErrors::InvalidTimeframe);
            }
        }
    }
    if let Some(e) = end_time {
        if e <= now {
            return Err(TitaErrors::InvalidTimeframe);
        }
    }
    if let Some(ms) = &milestones {
        if let Err(e) = validate_schedule(ms, goal, end_time, now) {
            return Err(e);
        }
        proof {
            lemma_scan_from_ok(ms@, end_time, now, 0, 0);
        }
    }
    Ok(Flow {
        flow_id,
        creator,
        token_mint,
        goal,
        raised: 0,
        available: 0,
        withdrawn: 0,
        total_refunded: 0,
        refunds_count: 0,
        start_date: start_time,
        end_date: end_time,
        flow_status: FlowStatus::Active,
        contributor_count: 0,
        milestones,
        proposal_count: 0,
        voting_power_model,
        active_proposal: None,
    })
}

} // verus!
