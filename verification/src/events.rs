use vstd::prelude::*;

use crate::AccountId;
use crate::flow::Flow;

verus! {

/// Emitted by the surrounding dispatch layer when a contribution lands.
#[derive(Clone, Debug, PartialEq)]
pub struct ContributionEvent {
    pub flow: AccountId,
    pub contributor: AccountId,
    /// The amount of this single contribution.
    pub amount: u64,
    /// The contributor's cumulative total after it.
    pub total_contributed: u64,
    pub timestamp: i64,
}

/// Emitted by the surrounding dispatch layer when a flow is opened.
#[derive(Clone, Debug, PartialEq)]
pub struct FlowCreatedEvent {
    pub flow_id: String,
    pub creator: AccountId,
    /// Whether fund release is gated behind milestones.
    pub is_milestone: bool,
    pub goal: u64,
    pub timestamp: i64,
}

/// The creation event for a freshly created flow.
pub fn flow_created_event(flow: &Flow, now: i64) -> (ev: FlowCreatedEvent)
    ensures
        ev.flow_id == flow.flow_id,
        ev.creator == flow.creator,
        ev.is_milestone == (flow.milestones is Some),
        ev.goal == flow.goal,
        ev.timestamp == now,
{
    FlowCreatedEvent {
        flow_id: flow.flow_id.clone(),
        creator: flow.creator,
        is_milestone: flow.milestones.is_some(),
        goal: flow.goal,
        timestamp: now,
    }
}

} // verus!
