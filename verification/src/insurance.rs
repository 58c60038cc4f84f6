//! Insurance coverage calculator: reduces an owner's active policies and
//! their total monthly premium into coverage totals and a
//! coverage-to-premium ratio.
//!
//! The period bounds are accepted and reported but deliberately do not
//! filter the policies; every active policy of the owner is included. The
//! premium total is a separate collaborator figure and is trusted as given;
//! the engine does not cross-validate it against the policy list.

use vstd::prelude::*;

verus! {

use crate::arith::{div_trunc, in_i128, div_i128_trunc};
use crate::types::{InsurancePolicy, InsuranceReport, ReportError};

/// Sum of the policies' coverage amounts, accumulated in list order.
pub open spec fn sum_coverage(policies: Seq<InsurancePolicy>) -> int
    decreases policies.len(),
{
    if policies.len() == 0 {
        0
    } else {
        sum_coverage(policies.drop_last()) + policies.last().coverage_amount
    }
}

/// Every running total of coverage amounts stays in 128-bit range.
pub open spec fn coverage_sums_fit(policies: Seq<InsurancePolicy>) -> bool
    decreases policies.len(),
{
    if policies.len() == 0 {
        true
    } else {
        coverage_sums_fit(policies.drop_last()) && in_i128(sum_coverage(policies))
    }
}

/// Coverage-to-premium ratio: coverage times 100 over the annual premium,
/// rounded toward zero, when the annual premium is positive; 0 otherwise.
pub open spec fn spec_coverage_ratio(policies: Seq<InsurancePolicy>, monthly_premium: int) -> int {
    if monthly_premium * 12 > 0 {
        div_trunc(sum_coverage(policies) * 100, monthly_premium * 12)
    } else {
        0
    }
}

/// Every figure of the insurance report is representable.
pub open spec fn insurance_report_ok(policies: Seq<InsurancePolicy>, monthly_premium: int) -> bool {
    &&& coverage_sums_fit(policies)
    &&& in_i128(monthly_premium * 12)
    &&& (monthly_premium * 12 > 0 ==> in_i128(sum_coverage(policies) * 100) && 0
        <= spec_coverage_ratio(policies, monthly_premium) <= u32::MAX)
}

/// Field-by-field statement of a correct insurance report.
pub open spec fn insurance_report_matches(
    rep: InsuranceReport,
    policies: Seq<InsurancePolicy>,
    monthly_premium: i128,
    period_start: u64,
    period_end: u64,
) -> bool {
    &&& rep.active_policies == policies.len()
    &&& rep.total_coverage == sum_coverage(policies)
    &&& rep.monthly_premium == monthly_premium
    &&& rep.annual_premium == monthly_premium * 12
    &&& rep.coverage_to_premium_ratio == spec_coverage_ratio(policies, monthly_premium as int)
    &&& (rep.annual_premium <= 0 ==> rep.coverage_to_premium_ratio == 0)
    &&& rep.period_start == period_start
    &&& rep.period_end == period_end
}

/// If every running coverage total over the whole list fits, every running
/// coverage total over any prefix fits as well.
proof fn lemma_coverage_fits_prefix(policies: Seq<InsurancePolicy>, i: int)
    requires
        0 <= i <= policies.len(),
    ensures
        coverage_sums_fit(policies) ==> coverage_sums_fit(policies.take(i)),
    decreases policies.len(),
{
    if i < policies.len() {
        assert(policies.drop_last().take(i) =~= policies.take(i));
        lemma_coverage_fits_prefix(policies.drop_last(), i);
    } else {
        assert(policies.take(i) =~= policies);
    }
}

/// Reduce an owner's active policies into an insurance report. Fails with
/// `Overflow` exactly when some figure would not fit its field; otherwise
/// every field is the exact value of the corresponding formula.
pub fn compute_insurance_report(
    policies: &Vec<InsurancePolicy>,
    monthly_premium: i128,
    period_start: u64,
    period_end: u64,
) -> (r: Result<InsuranceReport, ReportError>)
    requires
        policies@.len() <= u32::MAX,
    ensures
        r is Ok <==> insurance_report_ok(policies@, monthly_premium as int),
        r matches Ok(rep) ==> insurance_report_matches(
            rep,
            policies@,
            monthly_premium,
            period_start,
            period_end,
        ),
        r matches Err(e) ==> e == ReportError::Overflow,
{
    let n = policies.len();
    let mut total_coverage: i128 = 0;
    let mut i: usize = 0;
    while i < n
        invariant
            i <= n,
            n == policies@.len(),
            total_coverage as int == sum_coverage(policies@.take(i as int)),
            coverage_sums_fit(policies@.take(i as int)),
        decreases n - i,
    {
        let p = &policies[i];
        proof {
            assert(policies@.take(i + 1).drop_last() =~= policies@.take(i as int));
            assert(policies@.take(i + 1).last() == policies@[i as int]);
        }
        let new_coverage = match total_coverage.checked_add(p.coverage_amount) {
            Some(t) => t,
            None => {
                proof {
                    assert(!coverage_sums_fit(policies@.take(i + 1)));
                    lemma_coverage_fits_prefix(policies@, i + 1);
                }
                return Err(ReportError::Overflow);
            },
        };
        total_coverage = new_coverage;
        i = i + 1;
    }
    proof {
        assert(policies@.take(n as int) =~= policies@);
    }
    let annual_premium = match monthly_premium.checked_mul(12) {
        Some(a) => a,
        None => {
            return Err(ReportError::Overflow);
        },
    };
    let coverage_to_premium_ratio: u32 = if annual_premium > 0 {
        let prod = match total_coverage.checked_mul(100) {
            Some(p) => p,
            None => {
                return Err(ReportError::Overflow);
            },
        };
        let q = div_i128_trunc(prod, annual_premium);
        if q < 0 || q > u32::MAX as i128 {
            return Err(ReportError::Overflow);
        }
        q as u32
    } else {
        0
    };
    Ok(
        InsuranceReport {
            active_policies: n as u32,
            total_coverage,
            monthly_premium,
            annual_premium,
            coverage_to_premium_ratio,
            period_start,
            period_end,
        },
    )
}

} // verus!
