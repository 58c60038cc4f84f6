//! Savings progress calculator: reduces an owner's savings goals into
//! aggregate totals, a completion count, and a completion percentage.
//!
//! The period bounds are accepted and reported but deliberately do not
//! filter the goals; every goal of the owner is included.

use vstd::prelude::*;

verus! {

use vstd::arithmetic::div_mod::{lemma_div_pos_is_pos, lemma_multiply_divide_le};
use crate::arith::{div_trunc, in_i128, div_i128_trunc};
use crate::types::{SavingsGoal, SavingsReport, ReportError};

/// Sum of the goals' target amounts, accumulated in list order.
pub open spec fn sum_target(goals: Seq<SavingsGoal>) -> int
    decreases goals.len(),
{
    if goals.len() == 0 {
        0
    } else {
        sum_target(goals.drop_last()) + goals.last().target_amount
    }
}

/// Sum of the goals' saved amounts, accumulated in list order.
pub open spec fn sum_saved(goals: Seq<SavingsGoal>) -> int
    decreases goals.len(),
{
    if goals.len() == 0 {
        0
    } else {
        sum_saved(goals.drop_last()) + goals.last().current_amount
    }
}

/// Number of goals whose saved amount has reached their target.
pub open spec fn count_completed(goals: Seq<SavingsGoal>) -> int
    decreases goals.len(),
{
    if goals.len() == 0 {
        0
    } else {
        count_completed(goals.drop_last()) + if goals.last().current_amount
            >= goals.last().target_amount {
            1int
        } else {
            0int
        }
    }
}

/// Every running total of target amounts stays in 128-bit range. The totals
/// accumulate in list order, so an intermediate total can overflow even when
/// the final one would not; this predicate rules that out for every prefix.
pub open spec fn target_sums_fit(goals: Seq<SavingsGoal>) -> bool
    decreases goals.len(),
{
    if goals.len() == 0 {
        true
    } else {
        target_sums_fit(goals.drop_last()) && in_i128(sum_target(goals))
    }
}

/// Every running total of saved amounts stays in 128-bit range.
pub open spec fn saved_sums_fit(goals: Seq<SavingsGoal>) -> bool
    decreases goals.len(),
{
    if goals.len() == 0 {
        true
    } else {
        saved_sums_fit(goals.drop_last()) && in_i128(sum_saved(goals))
    }
}

/// Completion percentage: saved times 100 over target, rounded toward zero,
/// when the total target is positive; 0 otherwise.
pub open spec fn spec_completion_percentage(goals: Seq<SavingsGoal>) -> int {
    if sum_target(goals) > 0 {
        div_trunc(sum_saved(goals) * 100, sum_target(goals))
    } else {
        0
    }
}

/// Every figure of the savings report is representable for this goal list.
pub open spec fn savings_report_ok(goals: Seq<SavingsGoal>) -> bool {
    &&& target_sums_fit(goals)
    &&& saved_sums_fit(goals)
    &&& (sum_target(goals) > 0 ==> in_i128(sum_saved(goals) * 100) && 0
        <= spec_completion_percentage(goals) <= u32::MAX)
}

/// Field-by-field statement of a correct savings report for `goals`.
pub open spec fn savings_report_matches(
    rep: SavingsReport,
    goals: Seq<SavingsGoal>,
    period_start: u64,
    period_end: u64,
) -> bool {
    &&& rep.total_goals == goals.len()
    &&& rep.completed_goals == count_completed(goals)
    &&& rep.completed_goals <= rep.total_goals
    &&& rep.total_target == sum_target(goals)
    &&& rep.total_saved == sum_saved(goals)
    &&& rep.completion_percentage == spec_completion_percentage(goals)
    &&& rep.period_start == period_start
    &&& rep.period_end == period_end
}

/// If every running total over the whole list fits, then every running
/// total over any prefix fits as well.
pub(crate) proof fn lemma_fits_prefix(goals: Seq<SavingsGoal>, i: int)
    requires
        0 <= i <= goals.len(),
    ensures
        target_sums_fit(goals) ==> target_sums_fit(goals.take(i)),
        saved_sums_fit(goals) ==> saved_sums_fit(goals.take(i)),
    decreases goals.len(),
{
    if i < goals.len() {
        assert(goals.drop_last().take(i) =~= goals.take(i));
        lemma_fits_prefix(goals.drop_last(), i);
    } else {
        assert(goals.take(i) =~= goals);
    }
}

/// Reduce an owner's goals into a savings report. Fails with `Overflow`
/// exactly when some running total or the completion percentage would not
/// fit its field; otherwise every field is the exact value of the
/// corresponding formula.
pub fn compute_savings_report(
    goals: &Vec<SavingsGoal>,
    period_start: u64,
    period_end: u64,
) -> (r: Result<SavingsReport, ReportError>)
    requires
        goals@.len() <= u32::MAX,
    ensures
        r is Ok <==> savings_report_ok(goals@),
        r matches Ok(rep) ==> savings_report_matches(rep, goals@, period_start, period_end),
        r matches Err(e) ==> e == ReportError::Overflow,
{
    let n = goals.len();
    let mut total_target: i128 = 0;
    let mut total_saved: i128 = 0;
    let mut completed: u32 = 0;
    let mut i: usize = 0;
    while i < n
        invariant
            i <= n,
            n == goals@.len(),
            n <= u32::MAX,
            total_target as int == sum_target(goals@.take(i as int)),
            total_saved as int == sum_saved(goals@.take(i as int)),
            completed as int == count_completed(goals@.take(i as int)),
            completed <= i,
            target_sums_fit(goals@.take(i as int)),
            saved_sums_fit(goals@.take(i as int)),
        decreases n - i,
    {
        let g = &goals[i];
        proof {
            assert(goals@.take(i + 1).drop_last() =~= goals@.take(i as int));
            assert(goals@.take(i + 1).last() == goals@[i as int]);
        }
        let new_target = match total_target.checked_add(g.target_amount) {
            Some(t) => t,
            None => {
                proof {
                    assert(!target_sums_fit(goals@.take(i + 1)));
                    lemma_fits_prefix(goals@, i + 1);
                }
                return Err(ReportError::Overflow);
            },
        };
        let new_saved = match total_saved.checked_add(g.current_amount) {
            Some(s) => s,
            None => {
                proof {
                    assert(!saved_sums_fit(goals@.take(i + 1)));
                    lemma_fits_prefix(goals@, i + 1);
                }
                return Err(ReportError::Overflow);
            },
        };
        total_target = new_target;
        total_saved = new_saved;
        if g.current_amount >= g.target_amount {
            completed = completed + 1;
        }
        i = i + 1;
    }
    proof {
        assert(goals@.take(n as int) =~= goals@);
    }
    let completion_percentage: u32 = if total_target > 0 {
        let prod = match total_saved.checked_mul(100) {
            Some(p) => p,
            None => {
                return Err(ReportError::Overflow);
            },
        };
        let q = div_i128_trunc(prod, total_target);
        if q < 0 || q > u32::MAX as i128 {
            return Err(ReportError::Overflow);
        }
        q as u32
    } else {
        0
    };
    Ok(
        SavingsReport {
            total_goals: n as u32,
            completed_goals: completed,
            total_target,
            total_saved,
            completion_percentage,
            period_start,
            period_end,
        },
    )
}

/// Transfers the per-goal bounds to the aggregate sums and the completion
/// count.
proof fn lemma_sums_ordered(goals: Seq<SavingsGoal>)
    requires
        forall|i: int|
            0 <= i < goals.len() ==> 0 <= #[trigger] goals[i].current_amount
                <= goals[i].target_amount,
    ensures
        0 <= sum_saved(goals) <= sum_target(goals),
        0 <= count_completed(goals) <= goals.len(),
    decreases goals.len(),
{
    if goals.len() > 0 {
        assert forall|i: int|
            0 <= i < goals.drop_last().len() implies 0 <= #[trigger] goals.drop_last()[i].current_amount
            <= goals.drop_last()[i].target_amount by {
            assert(goals.drop_last()[i] == goals[i]);
        }
        lemma_sums_ordered(goals.drop_last());
    }
}

/// For goal lists where no saved amount is negative and no goal has saved
/// more than its target, the completion percentage lies in [0, 100] (when
/// the total target is 0 it is 0 by definition), and the completion count
/// never exceeds the number of goals.
pub proof fn lemma_completion_percentage_bounds(goals: Seq<SavingsGoal>)
    requires
        forall|i: int|
            0 <= i < goals.len() ==> 0 <= #[trigger] goals[i].current_amount
                <= goals[i].target_amount,
    ensures
        0 <= spec_completion_percentage(goals) <= 100,
        0 <= count_completed(goals) <= goals.len(),
{
    lemma_sums_ordered(goals);
    let s = sum_saved(goals);
    let t = sum_target(goals);
    if t > 0 {
        if s > 0 {
            lemma_div_pos_is_pos(s * 100, t);
            lemma_multiply_divide_le(s * 100, t, 100);
        }
    }
}

} // verus!
