//! Health score engine: composes savings, bills, and insurance sub-scores
//! into one weighted 0-100 score.
//!
//! The engine re-derives its figures from freshly fetched goals, unpaid
//! bills, and active policies rather than reusing the domain calculators'
//! outputs, so each report type stays self-contained.

use vstd::prelude::*;

verus! {

use crate::arith::{div_trunc, in_i128, div_i128_trunc};
use crate::savings::{sum_target, sum_saved, target_sums_fit, saved_sums_fit, lemma_fits_prefix};
use crate::types::{SavingsGoal, Bill, InsurancePolicy, HealthScore, ReportError};

/// Savings sub-score (0-40). With a positive total target, progress is
/// saved times 100 over target rounded toward zero, capped: anything above
/// 100 percent scores the full 40, otherwise the score is progress scaled
/// to the 0-40 band. With no positive target at all the score is a neutral
/// 20 rather than 0, deliberately rewarding the absence of goal pressure.
pub open spec fn spec_savings_score(goals: Seq<SavingsGoal>) -> int {
    if sum_target(goals) > 0 {
        let progress = div_trunc(sum_saved(goals) * 100, sum_target(goals));
        if progress > 100 {
            40
        } else {
            progress * 40 / 100
        }
    } else {
        20
    }
}

/// Number of bills in the list that are past due at `now`.
pub open spec fn count_past_due(bills: Seq<Bill>, now: u64) -> int
    decreases bills.len(),
{
    if bills.len() == 0 {
        0
    } else {
        count_past_due(bills.drop_last(), now) + if bills.last().due_date < now {
            1int
        } else {
            0int
        }
    }
}

/// Bills sub-score: 40 with no unpaid bills at all, 35 with unpaid bills
/// but none past due, 20 as soon as any is past due. The threshold is
/// binary, not proportional to the overdue count.
pub open spec fn spec_bills_score(unpaid_bills: Seq<Bill>, now: u64) -> int {
    if unpaid_bills.len() == 0 {
        40
    } else if count_past_due(unpaid_bills, now) == 0 {
        35
    } else {
        20
    }
}

/// Insurance sub-score: 20 with at least one active policy, 0 otherwise.
/// Binary, not proportional to coverage adequacy.
pub open spec fn spec_insurance_score(policies: Seq<InsurancePolicy>) -> int {
    if policies.len() > 0 {
        20
    } else {
        0
    }
}

/// Every figure of the health score is representable: the goal sums stay
/// in 128-bit range and, when progress is actually computed, it is not
/// negative (a negative saved total cannot be scored in an unsigned band).
pub open spec fn health_score_ok(goals: Seq<SavingsGoal>) -> bool {
    &&& target_sums_fit(goals)
    &&& saved_sums_fit(goals)
    &&& (sum_target(goals) > 0 ==> in_i128(sum_saved(goals) * 100) && div_trunc(
        sum_saved(goals) * 100,
        sum_target(goals),
    ) >= 0)
}

/// Field-by-field statement of a correct health score, including the
/// bounds of each sub-score band and of their sum.
pub open spec fn health_score_matches(
    h: HealthScore,
    goals: Seq<SavingsGoal>,
    unpaid_bills: Seq<Bill>,
    policies: Seq<InsurancePolicy>,
    now: u64,
) -> bool {
    &&& h.savings_score == spec_savings_score(goals)
    &&& h.bills_score == spec_bills_score(unpaid_bills, now)
    &&& h.insurance_score == spec_insurance_score(policies)
    &&& h.score == h.savings_score + h.bills_score + h.insurance_score
    &&& h.savings_score <= 40
    &&& (h.bills_score == 20 || h.bills_score == 35 || h.bills_score == 40)
    &&& (h.insurance_score == 0 || h.insurance_score == 20)
    &&& h.score <= 100
    &&& (policies.len() == 0 ==> h.insurance_score == 0)
}

/// Compose the three sub-scores from freshly fetched collaborator data.
/// Fails with `Overflow` exactly when a goal sum leaves the 128-bit range
/// or the savings progress is negative; otherwise the score is the exact
/// weighted composition, always in [0, 100].
pub fn compute_health_score(
    goals: &Vec<SavingsGoal>,
    unpaid_bills: &Vec<Bill>,
    active_policies: &Vec<InsurancePolicy>,
    now: u64,
) -> (r: Result<HealthScore, ReportError>)
    ensures
        r is Ok <==> health_score_ok(goals@),
        r matches Ok(h) ==> health_score_matches(h, goals@, unpaid_bills@, active_policies@, now),
        r matches Err(e) ==> e == ReportError::Overflow,
{
    let n = goals.len();
    let mut total_target: i128 = 0;
    let mut total_saved: i128 = 0;
    let mut i: usize = 0;
    while i < n
        invariant
            i <= n,
            n == goals@.len(),
            total_target as int == sum_target(goals@.take(i as int)),
            total_saved as int == sum_saved(goals@.take(i as int)),
            target_sums_fit(goals@.take(i as int)),
            saved_sums_fit(goals@.take(i as int)),
        decreases n - i,
    {
        let g = &goals[i];
        proof {
            assert(goals@.take(i + 1).drop_last() =~= goals@.take(i as int));
            assert(goals@.take(i + 1).last() == goals@[i as int]);
        }
        let new_target = match total_target.checked_add(g.target_amount) {
            Some(t) => t,
            None => {
                proof {
                    assert(!target_sums_fit(goals@.take(i + 1)));
                    lemma_fits_prefix(goals@, i + 1);
                }
                return Err(ReportError::Overflow);
            },
        };
        let new_saved = match total_saved.checked_add(g.current_amount) {
            Some(s) => s,
            None => {
                proof {
                    assert(!saved_sums_fit(goals@.take(i + 1)));
                    lemma_fits_prefix(goals@, i + 1);
                }
                return Err(ReportError::Overflow);
            },
        };
        total_target = new_target;
        total_saved = new_saved;
        i = i + 1;
    }
    proof {
        assert(goals@.take(n as int) =~= goals@);
    }
    let savings_score: u32 = if total_target > 0 {
        let prod = match total_saved.checked_mul(100) {
            Some(p) => p,
            None => {
                return Err(ReportError::Overflow);
            },
        };
        let progress = div_i128_trunc(prod, total_target);
        if progress < 0 {
            return Err(ReportError::Overflow);
        }
        if progress > 100 {
            40
        } else {
            ((progress as u32) * 40) / 100
        }
    } else {
        20
    };

    let m = unpaid_bills.len();
    let mut past_due: usize = 0;
    let mut j: usize = 0;
    while j < m
        invariant
            j <= m,
            m == unpaid_bills@.len(),
            past_due as int == count_past_due(unpaid_bills@.take(j as int), now),
            past_due <= j,
        decreases m - j,
    {
        proof {
            assert(unpaid_bills@.take(j + 1).drop_last() =~= unpaid_bills@.take(j as int));
            assert(unpaid_bills@.take(j + 1).last() == unpaid_bills@[j as int]);
        }
        if unpaid_bills[j].due_date < now {
            past_due = past_due + 1;
        }
        j = j + 1;
    }
    proof {
        assert(unpaid_bills@.take(m as int) =~= unpaid_bills@);
    }
    let bills_score: u32 = if m == 0 {
        40
    } else if past_due == 0 {
        35
    } else {
        20
    };

    let insurance_score: u32 = if active_policies.len() > 0 {
        20
    } else {
        0
    };

    let score = savings_score + bills_score + insurance_score;
    Ok(
        HealthScore {
            score,
            savings_score,
            bills_score,
            insurance_score,
        },
    )
}

} // verus!
