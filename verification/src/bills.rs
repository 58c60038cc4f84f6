//! Bill compliance calculator: filters a system-wide bill list down to one
//! owner's bills created inside a period window, and reduces them into
//! paid/unpaid/overdue counts, amounts, and a compliance percentage.

use vstd::prelude::*;

verus! {

use vstd::arithmetic::div_mod::lemma_multiply_divide_le;
use crate::arith::in_i128;
use crate::types::{Bill, BillComplianceReport, ReportError};

/// A bill counts for the report exactly when it belongs to the owner and
/// was created inside the window, both ends inclusive. A bill created
/// outside the window is excluded even if owned by the queried user.
pub open spec fn bill_included(b: Bill, owner: u64, period_start: u64, period_end: u64) -> bool {
    b.owner == owner && period_start <= b.created_at <= period_end
}

/// Number of included bills.
pub open spec fn count_bills(bills: Seq<Bill>, owner: u64, period_start: u64, period_end: u64) -> int
    decreases bills.len(),
{
    if bills.len() == 0 {
        0
    } else {
        count_bills(bills.drop_last(), owner, period_start, period_end) + if bill_included(
            bills.last(),
            owner,
            period_start,
            period_end,
        ) {
            1int
        } else {
            0int
        }
    }
}

/// Number of included bills that are paid.
pub open spec fn count_paid(bills: Seq<Bill>, owner: u64, period_start: u64, period_end: u64) -> int
    decreases bills.len(),
{
    if bills.len() == 0 {
        0
    } else {
        count_paid(bills.drop_last(), owner, period_start, period_end) + if bill_included(
            bills.last(),
            owner,
            period_start,
            period_end,
        ) && bills.last().paid {
            1int
        } else {
            0int
        }
    }
}

/// Number of included bills that are unpaid.
pub open spec fn count_unpaid(bills: Seq<Bill>, owner: u64, period_start: u64, period_end: u64) -> int
    decreases bills.len(),
{
    if bills.len() == 0 {
        0
    } else {
        count_unpaid(bills.drop_last(), owner, period_start, period_end) + if bill_included(
            bills.last(),
            owner,
            period_start,
            period_end,
        ) && !bills.last().paid {
            1int
        } else {
            0int
        }
    }
}

/// Number of included bills that are unpaid and past due at `now`.
pub open spec fn count_overdue(
    bills: Seq<Bill>,
    owner: u64,
    period_start: u64,
    period_end: u64,
    now: u64,
) -> int
    decreases bills.len(),
{
    if bills.len() == 0 {
        0
    } else {
        count_overdue(bills.drop_last(), owner, period_start, period_end, now) + if bill_included(
            bills.last(),
            owner,
            period_start,
            period_end,
        ) && !bills.last().paid && bills.last().due_date < now {
            1int
        } else {
            0int
        }
    }
}

/// Sum of the amounts of the included bills.
pub open spec fn sum_amount(bills: Seq<Bill>, owner: u64, period_start: u64, period_end: u64) -> int
    decreases bills.len(),
{
    if bills.len() == 0 {
        0
    } else {
        sum_amount(bills.drop_last(), owner, period_start, period_end) + if bill_included(
            bills.last(),
            owner,
            period_start,
            period_end,
        ) {
            bills.last().amount as int
        } else {
            0int
        }
    }
}

/// Sum of the amounts of the included paid bills.
pub open spec fn sum_paid_amount(
    bills: Seq<Bill>,
    owner: u64,
    period_start: u64,
    period_end: u64,
) -> int
    decreases bills.len(),
{
    if bills.len() == 0 {
        0
    } else {
        sum_paid_amount(bills.drop_last(), owner, period_start, period_end) + if bill_included(
            bills.last(),
            owner,
            period_start,
            period_end,
        ) && bills.last().paid {
            bills.last().amount as int
        } else {
            0int
        }
    }
}

/// Sum of the amounts of the included unpaid bills.
pub open spec fn sum_unpaid_amount(
    bills: Seq<Bill>,
    owner: u64,
    period_start: u64,
    period_end: u64,
) -> int
    decreases bills.len(),
{
    if bills.len() == 0 {
        0
    } else {
        sum_unpaid_amount(bills.drop_last(), owner, period_start, period_end) + if bill_included(
            bills.last(),
            owner,
            period_start,
            period_end,
        ) && !bills.last().paid {
            bills.last().amount as int
        } else {
            0int
        }
    }
}

/// Every running total of the three amount sums stays in 128-bit range.
pub open spec fn bill_sums_fit(bills: Seq<Bill>, owner: u64, period_start: u64, period_end: u64) -> bool
    decreases bills.len(),
{
    if bills.len() == 0 {
        true
    } else {
        &&& bill_sums_fit(bills.drop_last(), owner, period_start, period_end)
        &&& in_i128(sum_amount(bills, owner, period_start, period_end))
        &&& in_i128(sum_paid_amount(bills, owner, period_start, period_end))
        &&& in_i128(sum_unpaid_amount(bills, owner, period_start, period_end))
    }
}

/// Share of included bills that are paid, in whole percent. With no
/// included bills at all, compliance is vacuously full (100), intentionally
/// different from the 0 default used by the other calculators.
pub open spec fn spec_compliance_percentage(
    bills: Seq<Bill>,
    owner: u64,
    period_start: u64,
    period_end: u64,
) -> int {
    if count_bills(bills, owner, period_start, period_end) > 0 {
        (count_paid(bills, owner, period_start, period_end) * 100) / count_bills(
            bills,
            owner,
            period_start,
            period_end,
        )
    } else {
        100
    }
}

/// Field-by-field statement of a correct bill compliance report.
pub open spec fn bill_report_matches(
    rep: BillComplianceReport,
    bills: Seq<Bill>,
    owner: u64,
    period_start: u64,
    period_end: u64,
    now: u64,
) -> bool {
    &&& rep.total_bills == count_bills(bills, owner, period_start, period_end)
    &&& rep.paid_bills == count_paid(bills, owner, period_start, period_end)
    &&& rep.unpaid_bills == count_unpaid(bills, owner, period_start, period_end)
    &&& rep.overdue_bills == count_overdue(bills, owner, period_start, period_end, now)
    &&& rep.paid_bills + rep.unpaid_bills == rep.total_bills
    &&& rep.overdue_bills <= rep.unpaid_bills
    &&& rep.total_amount == sum_amount(bills, owner, period_start, period_end)
    &&& rep.paid_amount == sum_paid_amount(bills, owner, period_start, period_end)
    &&& rep.unpaid_amount == sum_unpaid_amount(bills, owner, period_start, period_end)
    &&& rep.paid_amount + rep.unpaid_amount == rep.total_amount
    &&& rep.compliance_percentage == spec_compliance_percentage(bills, owner, period_start, period_end)
    &&& rep.compliance_percentage <= 100
    &&& (rep.total_bills == 0 ==> rep.compliance_percentage == 100)
    &&& rep.period_start == period_start
    &&& rep.period_end == period_end
}

/// If every running amount total over the whole list fits, every running
/// amount total over any prefix fits as well.
proof fn lemma_bill_fits_prefix(bills: Seq<Bill>, owner: u64, period_start: u64, period_end: u64, i: int)
    requires
        0 <= i <= bills.len(),
    ensures
        bill_sums_fit(bills, owner, period_start, period_end) ==> bill_sums_fit(
            bills.take(i),
            owner,
            period_start,
            period_end,
        ),
    decreases bills.len(),
{
    if i < bills.len() {
        assert(bills.drop_last().take(i) =~= bills.take(i));
        lemma_bill_fits_prefix(bills.drop_last(), owner, period_start, period_end, i);
    } else {
        assert(bills.take(i) =~= bills);
    }
}

/// Reduce a system-wide bill list into one owner's compliance report for a
/// period window. Fails with `Overflow` exactly when some running amount
/// total would not fit in 128 bits; otherwise every field is the exact
/// value of the corresponding formula.
pub fn compute_bill_compliance_report(
    bills: &Vec<Bill>,
    owner: u64,
    period_start: u64,
    period_end: u64,
    now: u64,
) -> (r: Result<BillComplianceReport, ReportError>)
    requires
        bills@.len() <= u32::MAX,
    ensures
        r is Ok <==> bill_sums_fit(bills@, owner, period_start, period_end),
        r matches Ok(rep) ==> bill_report_matches(rep, bills@, owner, period_start, period_end, now),
        r matches Err(e) ==> e == ReportError::Overflow,
{
    let n = bills.len();
    let mut total_bills: u32 = 0;
    let mut paid_bills: u32 = 0;
    let mut unpaid_bills: u32 = 0;
    let mut overdue_bills: u32 = 0;
    let mut total_amount: i128 = 0;
    let mut paid_amount: i128 = 0;
    let mut unpaid_amount: i128 = 0;
    let mut i: usize = 0;
    while i < n
        invariant
            i <= n,
            n == bills@.len(),
            n <= u32::MAX,
            total_bills as int == count_bills(bills@.take(i as int), owner, period_start, period_end),
            paid_bills as int == count_paid(bills@.take(i as int), owner, period_start, period_end),
            unpaid_bills as int == count_unpaid(bills@.take(i as int), owner, period_start, period_end),
            overdue_bills as int == count_overdue(
                bills@.take(i as int),
                owner,
                period_start,
                period_end,
                now,
            ),
            total_amount as int == sum_amount(bills@.take(i as int), owner, period_start, period_end),
            paid_amount as int == sum_paid_amount(bills@.take(i as int), owner, period_start, period_end),
            unpaid_amount as int == sum_unpaid_amount(
                bills@.take(i as int),
                owner,
                period_start,
                period_end,
            ),
            bill_sums_fit(bills@.take(i as int), owner, period_start, period_end),
            total_bills <= i,
            paid_bills + unpaid_bills == total_bills,
            overdue_bills <= unpaid_bills,
            paid_amount + unpaid_amount == total_amount,
        decreases n - i,
    {
        let b = &bills[i];
        proof {
            assert(bills@.take(i + 1).drop_last() =~= bills@.take(i as int));
            assert(bills@.take(i + 1).last() == bills@[i as int]);
        }
        if b.owner == owner && period_start <= b.created_at && b.created_at <= period_end {
            total_bills = total_bills + 1;
            let new_total = match total_amount.checked_add(b.amount) {
                Some(t) => t,
                None => {
                    proof {
                        assert(!bill_sums_fit(bills@.take(i + 1), owner, period_start, period_end));
                        lemma_bill_fits_prefix(bills@, owner, period_start, period_end, i + 1);
                    }
                    return Err(ReportError::Overflow);
                },
            };
            total_amount = new_total;
            if b.paid {
                paid_bills = paid_bills + 1;
                let new_paid = match paid_amount.checked_add(b.amount) {
                    Some(t) => t,
                    None => {
                        proof {
                            assert(!bill_sums_fit(bills@.take(i + 1), owner, period_start, period_end));
                            lemma_bill_fits_prefix(bills@, owner, period_start, period_end, i + 1);
                        }
                        return Err(ReportError::Overflow);
                    },
                };
                paid_amount = new_paid;
            } else {
                unpaid_bills = unpaid_bills + 1;
                let new_unpaid = match unpaid_amount.checked_add(b.amount) {
                    Some(t) => t,
                    None => {
                        proof {
                            assert(!bill_sums_fit(bills@.take(i + 1), owner, period_start, period_end));
                            lemma_bill_fits_prefix(bills@, owner, period_start, period_end, i + 1);
                        }
                        return Err(ReportError::Overflow);
                    },
                };
                unpaid_amount = new_unpaid;
                if b.due_date < now {
                    overdue_bills = overdue_bills + 1;
                }
            }
        }
        i = i + 1;
    }
    proof {
        assert(bills@.take(n as int) =~= bills@);
    }
    let compliance_percentage: u32 = if total_bills > 0 {
        let q = ((paid_bills as u64) * 100) / (total_bills as u64);
        proof {
            lemma_multiply_divide_le(
                count_paid(bills@, owner, period_start, period_end) * 100,
                count_bills(bills@, owner, period_start, period_end),
                100,
            );
        }
        q as u32
    } else {
        100
    };
    Ok(
        BillComplianceReport {
            total_bills,
            paid_bills,
            unpaid_bills,
            overdue_bills,
            total_amount,
            paid_amount,
            unpaid_amount,
            compliance_percentage,
            period_start,
            period_end,
        },
    )
}

} // verus!
