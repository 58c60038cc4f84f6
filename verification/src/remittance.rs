//! Remittance summary generator: zips the split collaborator's percentage
//! and amount vectors into one breakdown entry per category, in fixed
//! category order.
//!
//! The total is reported both as received and as allocated by construction;
//! this mirrors the assumption that all received funds are always fully
//! allocated, preserved here as specified.

use vstd::prelude::*;

verus! {

use crate::types::{Category, CategoryBreakdown, RemittanceSummary};

/// The breakdown entry for one category. The collaborator vectors are
/// indexed in fixed category order; a missing index defaults amount and
/// percentage to 0 rather than raising an error.
pub open spec fn split_entry(
    category: Category,
    amounts: Seq<i128>,
    percentages: Seq<u32>,
    i: int,
) -> CategoryBreakdown {
    CategoryBreakdown {
        category: category,
        amount: if i < amounts.len() {
            amounts[i]
        } else {
            0
        },
        percentage: if i < percentages.len() {
            percentages[i]
        } else {
            0
        },
    }
}

/// Field-by-field statement of a correct remittance summary: the caller's
/// total reported as both received and allocated, and exactly four
/// breakdown entries in the order Spending, Savings, Bills, Insurance.
pub open spec fn remittance_summary_matches(
    s: RemittanceSummary,
    total_amount: i128,
    period_start: u64,
    period_end: u64,
    percentages: Seq<u32>,
    amounts: Seq<i128>,
) -> bool {
    &&& s.total_received == total_amount
    &&& s.total_allocated == total_amount
    &&& s.category_breakdown@.len() == 4
    &&& s.category_breakdown@[0] == split_entry(Category::Spending, amounts, percentages, 0)
    &&& s.category_breakdown@[1] == split_entry(Category::Savings, amounts, percentages, 1)
    &&& s.category_breakdown@[2] == split_entry(Category::Bills, amounts, percentages, 2)
    &&& s.category_breakdown@[3] == split_entry(Category::Insurance, amounts, percentages, 3)
    &&& s.period_start == period_start
    &&& s.period_end == period_end
}

/// The split amount for one category index, 0 when the vector is shorter.
fn amount_at(amounts: &Vec<i128>, i: usize) -> (r: i128)
    ensures
        r == (if (i as int) < amounts@.len() {
            amounts@[i as int]
        } else {
            0i128
        }),
{
    if i < amounts.len() {
        amounts[i]
    } else {
        0
    }
}

/// The split percentage for one category index, 0 when the vector is
/// shorter.
fn percentage_at(percentages: &Vec<u32>, i: usize) -> (r: u32)
    ensures
        r == (if (i as int) < percentages@.len() {
            percentages@[i as int]
        } else {
            0u32
        }),
{
    if i < percentages.len() {
        percentages[i]
    } else {
        0
    }
}

/// Combine the split collaborator's vectors with a caller-supplied total
/// into a remittance summary. Total computation; never fails.
pub fn compute_remittance_summary(
    total_amount: i128,
    period_start: u64,
    period_end: u64,
    split_percentages: &Vec<u32>,
    split_amounts: &Vec<i128>,
) -> (s: RemittanceSummary)
    ensures
        remittance_summary_matches(
            s,
            total_amount,
            period_start,
            period_end,
            split_percentages@,
            split_amounts@,
        ),
{
    let breakdown: [CategoryBreakdown; 4] = [
        CategoryBreakdown {
            category: Category::Spending,
            amount: amount_at(split_amounts, 0),
            percentage: percentage_at(split_percentages, 0),
        },
        CategoryBreakdown {
            category: Category::Savings,
            amount: amount_at(split_amounts, 1),
            percentage: percentage_at(split_percentages, 1),
        },
        CategoryBreakdown {
            category: Category::Bills,
            amount: amount_at(split_amounts, 2),
            percentage: percentage_at(split_percentages, 2),
        },
        CategoryBreakdown {
            category: Category::Insurance,
            amount: amount_at(split_amounts, 3),
            percentage: percentage_at(split_percentages, 3),
        },
    ];
    RemittanceSummary {
        total_received: total_amount,
        total_allocated: total_amount,
        category_breakdown: breakdown,
        period_start,
        period_end,
    }
}

} // verus!
