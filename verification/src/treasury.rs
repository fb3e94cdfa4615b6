use vstd::prelude::*;

use crate::AccountId;
use crate::contribution::Contribution;
use crate::errors::TitaErrors;
use crate::flow::{Flow, FlowStatus};

verus! {

/// The error `withdraw` returns, if any.
pub open spec fn withdraw_err(flow: Flow, caller: AccountId, amount: u64) -> Option<TitaErrors> {
    if caller != flow.creator {
        Some(TitaErrors::UnauthorizedWithdrawal)
    } else if flow.flow_status == FlowStatus::Canceled {
        Some(TitaErrors::FlowCanceled)
    } else if amount == 0 {
        Some(TitaErrors::InvalidContributionAmount)
    } else if amount > flow.available {
        Some(TitaErrors::InsufficientFunds)
    } else {
        None
    }
}

/// The creator draws `amount` of the flow's available funds, moving it
/// from `available` to `withdrawn`. Only the creator may withdraw, never
/// from a canceled flow, never more than is available — and on any error
/// the flow's counters are untouched. The host performs the actual token
/// transfer and must call this accounting step only after the transfer
/// capability reports success, so a failed transfer can never be spent.
pub fn withdraw(flow: &mut Flow, caller: AccountId, amount: u64) -> (r: Result<(), TitaErrors>)
    requires
        old(flow).inv(),
    ensures
        final(flow).inv(),
        match withdraw_err(*old(flow), caller, amount) {
            Some(e) => r == Err::<(), TitaErrors>(e) && *final(flow) == *old(flow),
            None => r is Ok && *final(flow) == (Flow {
                available: (old(flow).available - amount) as u64,
                withdrawn: (old(flow).withdrawn + amount) as u64,
                ..*old(flow)
            }),
        },
{
    if caller != flow.creator {
        return Err(TitaErrors::UnauthorizedWithdrawal);
    }
    if matches!(flow.flow_status, FlowStatus::Canceled) {
        return Err(TitaErrors::FlowCanceled);
    }
    if amount == 0 {
        return Err(TitaErrors::InvalidContributionAmount);
    }
    flow.record_withdrawal(amount)
}

/// The proportional share of the remaining balance a position is owed back
/// after cancellation: `total_amount * remaining_balance / raised`,
/// computed exactly (the product is taken before the division, in a width
/// where it cannot wrap).
pub open spec fn refund_share(c: Contribution, remaining_balance: u64, raised: u64) -> int {
    if raised == 0 {
        0
    } else {
        (c.total_amount as int) * (remaining_balance as int) / (raised as int)
    }
}

/// The error `withdraw_contribution` returns, if any.
pub open spec fn withdraw_contribution_err(
    flow: Flow,
    flow_key: AccountId,
    c: Contribution,
    caller: AccountId,
    remaining_balance: u64,
    treasury_balance: u64,
) -> Option<TitaErrors> {
    if flow.flow_status != FlowStatus::Canceled {
        Some(TitaErrors::FlowNotCanceled)
    } else if c.flow != flow_key {
        Some(TitaErrors::InvalidContribution)
    } else if c.contributor != caller {
        Some(TitaErrors::UnauthorizedContributor)
    } else if c.refunded {
        Some(TitaErrors::AlreadyRefunded)
    } else {
        let refund = refund_share(c, remaining_balance, flow.raised);
        if refund > u64::MAX {
            Some(TitaErrors::MathOverflow)
        } else if refund == 0 {
            Some(TitaErrors::RefundTooSmall)
        } else if refund > treasury_balance {
            Some(TitaErrors::InsufficientTreasuryFunds)
        } else if flow.total_refunded + refund > u64::MAX {
            Some(TitaErrors::MathOverflow)
        } else if flow.refunds_count + 1 > u32::MAX {
            Some(TitaErrors::MathOverflow)
        } else {
            None
        }
    }
}

/// A contributor reclaims their proportional share of a canceled flow's
/// remaining balance: `total_amount * remaining_balance / raised`, with
/// the product widened to 128 bits before the division so it cannot wrap.
/// A share that would not fit the amount type is an error, never silently
/// truncated; a share that rounds to zero fails with `RefundTooSmall`, and
/// one the custodial balance cannot cover with `InsufficientTreasuryFunds`.
/// On success — after the host's transfer capability has confirmed the
/// payout — the position is terminally marked refunded and the flow's
/// refund counters grow; a second call fails with `AlreadyRefunded`. On
/// any error nothing changes.
pub fn withdraw_contribution(
    flow: &mut Flow,
    flow_key: AccountId,
    contribution: &mut Contribution,
    caller: AccountId,
    remaining_balance: u64,
    treasury_balance: u64,
    now: i64,
) -> (r: Result<u64, TitaErrors>)
    requires
        old(flow).inv(),
    ensures
        final(flow).inv(),
        old(contribution).inv() ==> final(contribution).inv(),
        match withdraw_contribution_err(
            *old(flow),
            flow_key,
            *old(contribution),
            caller,
            remaining_balance,
            treasury_balance,
        ) {
            Some(e) => {
                &&& r == Err::<u64, TitaErrors>(e)
                &&& *final(flow) == *old(flow)
                &&& *final(contribution) == *old(contribution)
            },
            None => {
                let refund = refund_share(*old(contribution), remaining_balance, old(flow).raised);
                &&& r == Ok::<u64, TitaErrors>(refund as u64)
                &&& *final(contribution) == (Contribution {
                    refunded: true,
                    refund_amount: refund as u64,
                    refunded_at: Some(now),
                    ..*old(contribution)
                })
                &&& *final(flow) == (Flow {
                    total_refunded: (old(flow).total_refunded + refund) as u64,
                    refunds_count: (old(flow).refunds_count + 1) as u32,
                    ..*old(flow)
                })
            },
        },
{
    if !matches!(flow.flow_status, FlowStatus::Canceled) {
        return Err(TitaErrors::FlowNotCanceled);
    }
    if contribution.flow != flow_key {
        return Err(TitaErrors::InvalidContribution);
    }
    if contribution.contributor != caller {
        return Err(TitaErrors::UnauthorizedContributor);
    }
    if contribution.refunded {
        return Err(TitaErrors::AlreadyRefunded);
    }
    let refund_wide: u128 = if flow.raised == 0 {
        0
    } else {
        proof {
            assert((contribution.total_amount as int) * (remaining_balance as int) <= (
            u64::MAX as int) * (u64::MAX as int)) by (nonlinear_arith)
                requires
                    contribution.total_amount <= u64::MAX,
                    remaining_balance <= u64::MAX,
            ;
        }
        (contribution.total_amount as u128) * (remaining_balance as u128) / (flow.raised as u128)
    };
    if refund_wide > u64::MAX as u128 {
        return Err(TitaErrors::MathOverflow);
    }
    let refund = refund_wide as u64;
    if refund == 0 {
        return Err(TitaErrors::RefundTooSmall);
    }
    if refund > treasury_balance {
        return Err(TitaErrors::InsufficientTreasuryFunds);
    }
    if flow.total_refunded > u64::MAX - refund {
        return Err(TitaErrors::MathOverflow);
    }
    if flow.refunds_count == u32::MAX {
        return Err(TitaErrors::MathOverflow);
    }
    let marked = contribution.mark_refunded(refund, now);
    proof {
        assert(marked is Ok);
    }
    let recorded = flow.record_refund(refund);
    proof {
        assert(recorded is Ok);
    }
    Ok(refund)
}

} // verus!
