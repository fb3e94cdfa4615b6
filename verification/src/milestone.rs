use vstd::prelude::*;

use crate::errors::TitaErrors;

verus! {

/// A sub-goal gating a portion of a flow's funds, unlockable by governance.
#[derive(Clone, Copy, Debug, PartialEq, Eq, Structural)]
pub struct Milestone {
    /// Identifier, unique within its flow.
    pub id: u32,
    /// Amount of the flow's goal allocated to this milestone.
    pub amount: u64,
    /// When this milestone is due.
    pub deadline: i64,
    /// Whether governance has marked the milestone completed.
    pub completed: bool,
}

/// Sum of the amounts of the milestones from index `i` on.
pub open spec fn total_from(ms: Seq<Milestone>, i: int) -> int
    decreases ms.len() - i,
{
    if i < 0 || i >= ms.len() {
        0
    } else {
        ms[i].amount + total_from(ms, i + 1)
    }
}

/// Sum of all milestone amounts of a schedule.
pub open spec fn milestone_total(ms: Seq<Milestone>) -> int {
    total_from(ms, 0)
}

pub proof fn lemma_total_from_nonneg(ms: Seq<Milestone>, i: int)
    ensures
        total_from(ms, i) >= 0,
    decreases ms.len() - i,
{
    if 0 <= i < ms.len() {
        lemma_total_from_nonneg(ms, i + 1);
    }
}

/// Replacing one milestone changes the schedule total by exactly the
/// difference of the amounts.
pub proof fn lemma_total_from_update(ms: Seq<Milestone>, j: int, m: Milestone, i: int)
    requires
        0 <= j < ms.len(),
        0 <= i <= ms.len(),
    ensures
        total_from(ms.update(j, m), i) == if i <= j {
            total_from(ms, i) - ms[j].amount + m.amount
        } else {
            total_from(ms, i)
        },
    decreases ms.len() - i,
{
    if i < ms.len() {
        lemma_total_from_update(ms, j, m, i + 1);
    }
}

/// Index of the first milestone with identifier `id` at or after index `i`.
pub open spec fn find_from(ms: Seq<Milestone>, id: u32, i: int) -> Option<int>
    decreases ms.len() - i,
{
    if i < 0 || i >= ms.len() {
        None
    } else if ms[i].id == id {
        Some(i)
    } else {
        find_from(ms, id, i + 1)
    }
}

/// Index of the first milestone with identifier `id`, if any.
pub open spec fn find_milestone(ms: Seq<Milestone>, id: u32) -> Option<int> {
    find_from(ms, id, 0)
}

pub proof fn lemma_find_from_in_range(ms: Seq<Milestone>, id: u32, i: int)
    ensures
        find_from(ms, id, i) matches Some(j) ==> i <= j < ms.len() && ms[j].id == id,
    decreases ms.len() - i,
{
    if 0 <= i < ms.len() && ms[i].id != id {
        lemma_find_from_in_range(ms, id, i + 1);
    }
}

/// Walks the schedule from index `i` with partial sum `acc`, returning the
/// first validation error, or the total of the amounts on success.
pub open spec fn scan_from(
    ms: Seq<Milestone>,
    end: Option<i64>,
    now: i64,
    i: int,
    acc: int,
) -> Result<int, TitaErrors>
    decreases ms.len() - i,
{
    if i < 0 || i >= ms.len() {
        Ok(acc)
    } else if ms[i].amount == 0 {
        Err(TitaErrors::InvalidMilestoneAmount)
    } else if ms[i].deadline <= now {
        Err(TitaErrors::InvalidMilestoneDeadline)
    } else if ms[i].completed {
        Err(TitaErrors::MilestoneCantBeCompletedAtCreation)
    } else if end matches Some(e) && ms[i].deadline > e {
        Err(TitaErrors::InvalidTimeframe)
    } else if acc + ms[i].amount > u64::MAX {
        Err(TitaErrors::MathOverflow)
    } else {
        scan_from(ms, end, now, i + 1, acc + ms[i].amount)
    }
}

/// What `validate_schedule` returns: the count bounds, then each milestone's
/// own checks in order, then the requirement that the amounts sum to `goal`.
pub open spec fn schedule_check(
    ms: Seq<Milestone>,
    goal: u64,
    end: Option<i64>,
    now: i64,
) -> Result<(), TitaErrors> {
    if ms.len() > 10 {
        Err(TitaErrors::TooManyMilestones)
    } else if ms.len() == 0 {
        Err(TitaErrors::NoMilestonesSpecified)
    } else {
        match scan_from(ms, end, now, 0, 0) {
            Err(e) => Err(e),
            Ok(total) => if total == goal {
                Ok(())
            } else {
                Err(TitaErrors::MilestoneTotalMismatch)
            },
        }
    }
}

/// A successful scan means every milestone from `i` on is well formed and
/// the returned total is `acc` plus the sum of the remaining amounts.
pub proof fn lemma_scan_from_ok(ms: Seq<Milestone>, end: Option<i64>, now: i64, i: int, acc: int)
    requires
        0 <= i,
    ensures
        scan_from(ms, end, now, i, acc) matches Ok(total) ==> {
            &&& total == acc + total_from(ms, i)
            &&& forall|j: int| i <= j < ms.len() ==> (#[trigger] ms[j]).amount > 0
            &&& forall|j: int| i <= j < ms.len() ==> (#[trigger] ms[j]).deadline > now
            &&& forall|j: int| i <= j < ms.len() ==> !(#[trigger] ms[j]).completed
            &&& end matches Some(e) ==> forall|j: int| i <= j < ms.len() ==> (#[trigger] ms[j]).deadline <= e
        },
    decreases ms.len() - i,
{
    if 0 <= i < ms.len() {
        lemma_scan_from_ok(ms, end, now, i + 1, acc + ms[i].amount);
    }
}

/// Enforces the milestone count bounds (1 to 10), that each amount is
/// positive, each deadline in the future and not past `end` (if set), that
/// no milestone is pre-marked completed, and that the amounts sum to `goal`
/// without overflowing.
pub fn validate_schedule(
    milestones: &Vec<Milestone>,
    goal: u64,
    end: Option<i64>,
    now: i64,
) -> (r: Result<(), TitaErrors>)
    ensures
        r == schedule_check(milestones@, goal, end, now),
{
    let n = milestones.len();
    if n > 10 {
        return Err(TitaErrors::TooManyMilestones);
    }
    if n == 0 {
        return Err(TitaErrors::NoMilestonesSpecified);
    }
    let mut acc: u64 = 0;
    let mut i: usize = 0;
    while i < n
        invariant
            n == milestones@.len(),
            1 <= n <= 10,
            0 <= i <= n,
            scan_from(milestones@, end, now, 0, 0) == scan_from(
                milestones@,
                end,
                now,
                i as int,
                acc as int,
            ),
        decreases n - i,
    {
        let m = milestones[i];
        if m.amount == 0 {
            return Err(TitaErrors::InvalidMilestoneAmount);
        }
        if m.deadline <= now {
            return Err(TitaErrors::InvalidMilestoneDeadline);
        }
        if m.completed {
            return Err(TitaErrors::MilestoneCantBeCompletedAtCreation);
        }
        if let Some(e) = end {
            if m.deadline > e {
                return Err(TitaErrors::InvalidTimeframe);
            }
        }
        if acc > u64::MAX - m.amount {
            return Err(TitaErrors::MathOverflow);
        }
        acc = acc + m.amount;
        i = i + 1;
    }
    if acc == goal {
        Ok(())
    } else {
        Err(TitaErrors::MilestoneTotalMismatch)
    }
}

/// What `mark_completed` does to a schedule: the first milestone with the
/// given identifier gains its completed flag, exactly once.
pub open spec fn mark_completed_check(ms: Seq<Milestone>, id: u32) -> Result<
    Seq<Milestone>,
    TitaErrors,
> {
    match find_milestone(ms, id) {
        None => Err(TitaErrors::MilestoneNotFound),
        Some(j) => if ms[j].completed {
            Err(TitaErrors::MilestoneAlreadyCompleted)
        } else {
            Ok(ms.update(j, (Milestone { completed: true, ..ms[j] })))
        },
    }
}

/// Marking a milestone completed never changes the schedule total: a
/// schedule whose amounts summed to the flow goal still sums to it.
pub proof fn lemma_mark_completed_preserves_total(ms: Seq<Milestone>, id: u32)
    ensures
        mark_completed_check(ms, id) matches Ok(new_ms) ==> milestone_total(new_ms)
            == milestone_total(ms),
{
    lemma_find_from_in_range(ms, id, 0);
    if mark_completed_check(ms, id) is Ok {
        let j = find_milestone(ms, id).unwrap();
        lemma_total_from_update(ms, j, (Milestone { completed: true, ..ms[j] }), 0);
    }
}

/// A successful adjustment against a schedule whose amounts sum to the
/// flow goal keeps that sum exactly equal to the goal: the adjusted total
/// may not exceed the goal, and the delta is never negative, so it is the
/// goal itself.
pub proof fn lemma_adjust_preserves_total(
    ms: Seq<Milestone>,
    id: u32,
    new_amount: Option<u64>,
    new_deadline: Option<i64>,
    goal: u64,
    end: Option<i64>,
    now: i64,
)
    requires
        milestone_total(ms) == goal,
    ensures
        adjust_check(ms, id, new_amount, new_deadline, goal, end, now) matches Ok(new_ms)
            ==> milestone_total(new_ms) == goal,
{
    lemma_find_from_in_range(ms, id, 0);
    match adjust_check(ms, id, new_amount, new_deadline, goal, end, now) {
        Ok(new_ms) => {
            let j = find_milestone(ms, id).unwrap();
            lemma_total_from_update(ms, j, new_ms[j], 0);
        },
        Err(_) => {},
    }
}

/// Position of the first milestone with identifier `id`, if any.
pub fn find_index(milestones: &Vec<Milestone>, id: u32) -> (r: Option<usize>)
    ensures
        match r {
            None => find_milestone(milestones@, id) is None,
            Some(j) => find_milestone(milestones@, id) == Some(j as int),
        },
{
    let n = milestones.len();
    let mut i: usize = 0;
    while i < n
        invariant
            n == milestones@.len(),
            0 <= i <= n,
            find_from(milestones@, id, 0) == find_from(milestones@, id, i as int),
        decreases n - i,
    {
        if milestones[i].id == id {
            return Some(i);
        }
        i = i + 1;
    }
    None
}

/// Marks the milestone with identifier `id` completed. Fails with
/// `MilestoneNotFound` if no milestone carries `id`, and with
/// `MilestoneAlreadyCompleted` if the flag is already set; a completed
/// milestone is never un-completed.
pub fn mark_completed(milestones: &mut Vec<Milestone>, id: u32) -> (r: Result<(), TitaErrors>)
    ensures
        match mark_completed_check(old(milestones)@, id) {
            Ok(ms) => r is Ok && final(milestones)@ == ms,
            Err(e) => r == Err::<(), TitaErrors>(e) && *final(milestones) == *old(milestones),
        },
{
    let j = match find_index(milestones, id) {
        None => {
            return Err(TitaErrors::MilestoneNotFound);
        },
        Some(j) => j,
    };
    proof {
        lemma_find_from_in_range(milestones@, id, 0);
    }
    if milestones[j].completed {
        return Err(TitaErrors::MilestoneAlreadyCompleted);
    }
    milestones[j].completed = true;
    Ok(())
}

/// The amount the adjusted milestone ends up with. A new amount must not be
/// below the current one (the delta is formed by a checked subtraction) and
/// the schedule total with the delta applied must not exceed the flow goal.
pub open spec fn adjusted_amount(
    ms: Seq<Milestone>,
    j: int,
    new_amount: Option<u64>,
    goal: u64,
) -> Result<u64, TitaErrors> {
    match new_amount {
        None => Ok(ms[j].amount),
        Some(a) => if milestone_total(ms) > u64::MAX {
            Err(TitaErrors::MathOverflow)
        } else if a < ms[j].amount {
            Err(TitaErrors::MathOverflow)
        } else if milestone_total(ms) + a - ms[j].amount > u64::MAX {
            Err(TitaErrors::MathOverflow)
        } else if milestone_total(ms) + a - ms[j].amount > goal {
            Err(TitaErrors::InvalidMilestoneAdjustment)
        } else {
            Ok(a)
        },
    }
}

/// The deadline the adjusted milestone ends up with. A new deadline must lie
/// in the future and, when the flow has an end date, strictly before it.
pub open spec fn adjusted_deadline(
    ms: Seq<Milestone>,
    j: int,
    new_deadline: Option<i64>,
    end: Option<i64>,
    now: i64,
) -> Result<i64, TitaErrors> {
    match new_deadline {
        None => Ok(ms[j].deadline),
        Some(d) => if d <= now {
            Err(TitaErrors::InvalidMilestoneDeadline)
        } else if end matches Some(e) && d >= e {
            Err(TitaErrors::InvalidMilestoneDeadline)
        } else {
            Ok(d)
        },
    }
}

/// What `adjust` does to a schedule: the target milestone, which must not be
/// completed, takes its new amount and deadline if both pass their checks.
pub open spec fn adjust_check(
    ms: Seq<Milestone>,
    id: u32,
    new_amount: Option<u64>,
    new_deadline: Option<i64>,
    goal: u64,
    end: Option<i64>,
    now: i64,
) -> Result<Seq<Milestone>, TitaErrors> {
    match find_milestone(ms, id) {
        None => Err(TitaErrors::MilestoneNotFound),
        Some(j) => if ms[j].completed {
            Err(TitaErrors::MilestoneAlreadyCompleted)
        } else {
            match adjusted_amount(ms, j, new_amount, goal) {
                Err(e) => Err(e),
                Ok(a) => match adjusted_deadline(ms, j, new_deadline, end, now) {
                    Err(e) => Err(e),
                    Ok(d) => Ok(ms.update(j, (Milestone { amount: a, deadline: d, ..ms[j] }))),
                },
            }
        },
    }
}

/// Applies a governance-approved adjustment to the milestone with
/// identifier `id`. Effects are applied only if every check passes: the
/// milestone exists and is not completed, a new amount keeps the schedule
/// total within the flow goal, and a new deadline lies in the future and
/// before the flow's end date.
#[verifier::loop_isolation(false)]
pub fn adjust(
    milestones: &mut Vec<Milestone>,
    id: u32,
    new_amount: Option<u64>,
    new_deadline: Option<i64>,
    goal: u64,
    end: Option<i64>,
    now: i64,
) -> (r: Result<(), TitaErrors>)
    ensures
        match adjust_check(old(milestones)@, id, new_amount, new_deadline, goal, end, now) {
            Ok(ms) => r is Ok && final(milestones)@ == ms,
            Err(e) => r == Err::<(), TitaErrors>(e) && *final(milestones) == *old(milestones),
        },
{
    let n = milestones.len();
    let j = match find_index(milestones, id) {
        None => {
            return Err(TitaErrors::MilestoneNotFound);
        },
        Some(j) => j,
    };
    proof {
        lemma_find_from_in_range(milestones@, id, 0);
    }
    if milestones[j].completed {
        return Err(TitaErrors::MilestoneAlreadyCompleted);
    }
    let target_amount: u64 = match new_amount {
        None => milestones[j].amount,
        Some(a) => {
            let mut total: u64 = 0;
            let mut k: usize = 0;
            while k < n
                invariant
                    n == milestones@.len(),
                    0 <= k <= n,
                    milestones@ == old(milestones)@,
                    total as int + total_from(milestones@, k as int) == milestone_total(
                        milestones@,
                    ),
                decreases n - k,
            {
                proof {
                    lemma_total_from_nonneg(milestones@, k as int + 1);
                    assert(total_from(milestones@, k as int) == milestones@[k as int].amount
                        + total_from(milestones@, k as int + 1));
                }
                if total > u64::MAX - milestones[k].amount {
                    return Err(TitaErrors::MathOverflow);
                }
                total = total + milestones[k].amount;
                k = k + 1;
            }
            if a < milestones[j].amount {
                return Err(TitaErrors::MathOverflow);
            }
            let delta = a - milestones[j].amount;
            if total > u64::MAX - delta {
                return Err(TitaErrors::MathOverflow);
            }
            let new_total = total + delta;
            if new_total > goal {
                return Err(TitaErrors::InvalidMilestoneAdjustment);
            }
            a
        },
    };
    let target_deadline: i64 = match new_deadline {
        None => milestones[j].deadline,
        Some(d) => {
            if d <= now {
                return Err(TitaErrors::InvalidMilestoneDeadline);
            }
            if let Some(e) = end {
                if d >= e {
                    return Err(TitaErrors::InvalidMilestoneDeadline);
                }
            }
            d
        },
    };
    milestones[j].amount = target_amount;
    milestones[j].deadline = target_deadline;
    Ok(())
}

} // verus!
