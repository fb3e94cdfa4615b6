//! A fund-custody and milestone-governance engine.
//!
//! A creator opens a funding campaign (a *flow*) with a goal, contributors
//! build up per-contributor positions, fund release is optionally gated
//! behind milestones, and contributors govern campaign changes (milestone
//! completion, cancellation, milestone adjustment, funding extension)
//! through weighted proposal voting.
//!
//! The engine is the data model, the arithmetic invariants and the state
//! machines only. Moving tokens between custodial accounts, account storage
//! and wallet authentication are the surrounding host's job: every operation
//! here takes plain values (identities, amounts, the current time) and
//! returns plain values, and performs zero mutation whenever it returns an
//! error.

pub mod contribution;
pub mod errors;
pub mod events;
pub mod flow;
pub mod governance;
pub mod milestone;
pub mod proposal;
pub mod treasury;
pub mod vote;

use vstd::prelude::*;

verus! {

/// An opaque identity issued by the surrounding host environment: a wallet,
/// a custodial account, or the stored address of a flow, proposal or
/// contribution record. The engine only ever compares identities.
pub type AccountId = u64;

} // verus!
