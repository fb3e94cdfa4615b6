use vstd::prelude::*;

use crate::AccountId;
use crate::errors::TitaErrors;
use crate::events::ContributionEvent;
use crate::flow::{Flow, FlowStatus};

verus! {

/// One contributor's cumulative position in one flow. There is exactly one
/// record per (flow, contributor) pair: the store creates it on the first
/// contribution and every later contribution updates it in place.
#[derive(Clone, Copy, Debug, PartialEq)]
pub struct Contribution {
    /// The flow contributed to.
    pub flow: AccountId,
    /// Who made the contribution.
    pub contributor: AccountId,
    /// The token the contribution was made in.
    pub token_mint: AccountId,
    /// Cumulative amount contributed; positive, and non-decreasing until
    /// the refund.
    pub total_amount: u64,
    /// When the first contribution landed.
    pub first_contribution: i64,
    /// When the latest contribution landed.
    pub last_contribution: i64,
    /// Number of separate contribution transactions.
    pub contribution_count: u32,
    /// Whether the position has been refunded; flips false to true exactly
    /// once, and only on a canceled flow.
    pub refunded: bool,
    /// The amount refunded, once refunded.
    pub refund_amount: u64,
    /// When the refund was paid, once refunded.
    pub refunded_at: Option<i64>,
}

impl Contribution {
    /// Well-formedness of an initialized record: a positive total over at
    /// least one transaction, and refund fields consistent with the flag.
    pub open spec fn inv(self) -> bool {
        &&& self.total_amount > 0
        &&& self.contribution_count >= 1
        &&& !self.refunded ==> self.refund_amount == 0 && self.refunded_at is None
        &&& self.refunded ==> self.refunded_at is Some
    }

    /// Terminally marks the position refunded. Fails with `AlreadyRefunded`
    /// on a second attempt, leaving the record unchanged; the refund amount
    /// itself is computed by the treasury, not here.
    pub fn mark_refunded(&mut self, refund_amount: u64, now: i64) -> (r: Result<(), TitaErrors>)
        ensures
            if old(self).refunded {
                r == Err::<(), TitaErrors>(TitaErrors::AlreadyRefunded) && *final(self) == *old(
                    self,
                )
            } else {
                r is Ok && *final(self) == (Contribution {
                    refunded: true,
                    refund_amount: refund_amount,
                    refunded_at: Some(now),
                    ..*old(self)
                })
            },
            old(self).inv() ==> final(self).inv(),
    {
        if self.refunded {
            return Err(TitaErrors::AlreadyRefunded);
        }
        self.refunded = true;
        self.refund_amount = refund_amount;
        self.refunded_at = Some(now);
        Ok(())
    }
}

/// The error `contribute` returns, if any.
pub open spec fn contribute_err(
    flow: Flow,
    existing: Option<Contribution>,
    token_mint: AccountId,
    amount: u64,
    now: i64,
) -> Option<TitaErrors> {
    if flow.flow_status != FlowStatus::Active {
        Some(TitaErrors::FlowNotActive)
    } else if flow.token_mint != token_mint {
        Some(TitaErrors::InvalidTokenMint)
    } else if amount == 0 {
        Some(TitaErrors::InvalidContributionAmount)
    } else if flow.end_date matches Some(e) && now > e {
        Some(TitaErrors::FlowEnded)
    } else if (match existing {
        Some(c) => c.total_amount + amount > u64::MAX || c.contribution_count + 1 > u32::MAX,
        None => false,
    }) {
        Some(TitaErrors::MathOverflow)
    } else if flow.raised + amount > u64::MAX {
        Some(TitaErrors::MathOverflow)
    } else if flow.milestones is None && flow.available + amount > u64::MAX {
        Some(TitaErrors::MathOverflow)
    } else if existing is None && flow.contributor_count + 1 > u32::MAX {
        Some(TitaErrors::MathOverflow)
    } else {
        None
    }
}

/// The record `contribute` leaves behind on success: the existing record
/// updated in place, or a fresh one for a first-time contributor.
pub open spec fn contributed_record(
    existing: Option<Contribution>,
    flow_key: AccountId,
    contributor: AccountId,
    token_mint: AccountId,
    amount: u64,
    now: i64,
) -> Contribution {
    match existing {
        Some(c) => Contribution {
            total_amount: (c.total_amount + amount) as u64,
            last_contribution: now,
            contribution_count: (c.contribution_count + 1) as u32,
            ..c
        },
        None => Contribution {
            flow: flow_key,
            contributor: contributor,
            token_mint: token_mint,
            total_amount: amount,
            first_contribution: now,
            last_contribution: now,
            contribution_count: 1,
            refunded: false,
            refund_amount: 0,
            refunded_at: None,
        },
    }
}

/// Accepts a contribution of `amount` against an active flow, after the
/// host has moved the tokens into custody. Creates the contributor's record
/// on their first contribution (bumping the flow's contributor count
/// exactly once) and updates it in place on every later one — never a
/// second record for the same pair. On any error both the flow and the
/// record are unchanged.
pub fn contribute(
    flow: &mut Flow,
    flow_key: AccountId,
    contribution: &mut Option<Contribution>,
    contributor: AccountId,
    token_mint: AccountId,
    amount: u64,
    now: i64,
) -> (r: Result<ContributionEvent, TitaErrors>)
    requires
        old(flow).inv(),
        (*old(contribution)) matches Some(c) ==> c.flow == flow_key && c.contributor == contributor
            && c.inv(),
    ensures
        final(flow).inv(),
        match contribute_err(*old(flow), *old(contribution), token_mint, amount, now) {
            Some(e) => {
                &&& r == Err::<ContributionEvent, TitaErrors>(e)
                &&& *final(flow) == *old(flow)
                &&& *final(contribution) == *old(contribution)
            },
            None => {
                let rec = contributed_record(
                    *old(contribution),
                    flow_key,
                    contributor,
                    token_mint,
                    amount,
                    now,
                );
                &&& *final(contribution) == Some(rec)
                &&& rec.inv()
                &&& *final(flow) == (Flow {
                    raised: (old(flow).raised + amount) as u64,
                    available: if old(flow).milestones is None {
                        (old(flow).available + amount) as u64
                    } else {
                        old(flow).available
                    },
                    contributor_count: if (*old(contribution)) is None {
                        (old(flow).contributor_count + 1) as u32
                    } else {
                        old(flow).contributor_count
                    },
                    ..*old(flow)
                })
                &&& r == Ok::<ContributionEvent, TitaErrors>(ContributionEvent {
                    flow: flow_key,
                    contributor: contributor,
                    amount: amount,
                    total_contributed: rec.total_amount,
                    timestamp: now,
                })
            },
        },
{
    if !matches!(flow.flow_status, FlowStatus::Active) {
        return Err(TitaErrors::FlowNotActive);
    }
    if flow.token_mint != token_mint {
        return Err(TitaErrors::InvalidTokenMint);
    }
    if amount == 0 {
        return Err(TitaErrors::InvalidContributionAmount);
    }
    if let Some(e) = flow.end_date {
        if now > e {
            return Err(TitaErrors::FlowEnded);
        }
    }
    if let Some(c) = &*contribution {
        if c.total_amount > u64::MAX - amount {
            return Err(TitaErrors::MathOverflow);
        }
        if c.contribution_count == u32::MAX {
            return Err(TitaErrors::MathOverflow);
        }
    }
    if flow.raised > u64::MAX - amount {
        return Err(TitaErrors::MathOverflow);
    }
    if flow.milestones.is_none() {
        if flow.available > u64::MAX - amount {
            return Err(TitaErrors::MathOverflow);
        }
    }
    let first_ever = contribution.is_none();
    if first_ever {
        if flow.contributor_count == u32::MAX {
            return Err(TitaErrors::MathOverflow);
        }
    }
    let record_result = flow.record_contribution(amount, now);
    proof {
        assert(record_result is Ok);
    }
    let total = match &*contribution {
        Some(c) => {
            let updated = Contribution {
                total_amount: c.total_amount + amount,
                last_contribution: now,
                contribution_count: c.contribution_count + 1,
                ..*c
            };
            let t = updated.total_amount;
            *contribution = Some(updated);
            t
        },
        None => {
            *contribution = Some(
                Contribution {
                    flow: flow_key,
                    contributor,
                    token_mint,
                    total_amount: amount,
                    first_contribution: now,
                    last_contribution: now,
                    contribution_count: 1,
                    refunded: false,
                    refund_amount: 0,
                    refunded_at: None,
                },
            );
            amount
        },
    };
    if first_ever {
        flow.contributor_count = flow.contributor_count + 1;
    }
    Ok(ContributionEvent {
        flow: flow_key,
        contributor,
        amount,
        total_contributed: total,
        timestamp: now,
    })
}

} // verus!
