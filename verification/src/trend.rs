//! Trend analyzer: stateless comparison of two scalar amounts across periods.

use vstd::prelude::*;

verus! {

use crate::arith::{div_trunc, in_i128, div_i128_trunc};
use crate::types::{TrendData, ReportError};

/// Change relative to the previous period, in whole percent, rounded toward
/// zero. When the previous amount is not positive the comparison is
/// asymmetric by design: a move to a positive amount reports exactly +100,
/// regardless of magnitude, and anything else reports 0.
pub open spec fn spec_change_percentage(current: int, previous: int) -> int {
    if previous > 0 {
        div_trunc((current - previous) * 100, previous)
    } else if current > 0 {
        100
    } else {
        0
    }
}

/// Every intermediate trend figure is representable: the change fits in
/// 128 bits and, when a quotient is actually computed, it fits in 32 bits.
pub open spec fn trend_ok(current: int, previous: int) -> bool {
    &&& in_i128(current - previous)
    &&& (previous > 0 ==> in_i128((current - previous) * 100)
        && i32::MIN <= spec_change_percentage(current, previous) <= i32::MAX)
}

/// Compare an amount across two periods. Fails with `Overflow` exactly when
/// some figure would not fit its field; otherwise every field is the exact
/// value of the corresponding formula.
pub fn compute_trend(current_amount: i128, previous_amount: i128) -> (r: Result<
    TrendData,
    ReportError,
>)
    ensures
        r is Ok <==> trend_ok(current_amount as int, previous_amount as int),
        r matches Ok(t) ==> {
            &&& t.current_amount == current_amount
            &&& t.previous_amount == previous_amount
            &&& t.change_amount == current_amount - previous_amount
            &&& t.change_percentage == spec_change_percentage(
                current_amount as int,
                previous_amount as int,
            )
        },
        r matches Err(e) ==> e == ReportError::Overflow,
{
    let change_opt = current_amount.checked_sub(previous_amount);
    let change_amount = match change_opt {
        Some(c) => c,
        None => {
            return Err(ReportError::Overflow);
        },
    };
    let change_percentage: i32 = if previous_amount > 0 {
        let prod = match change_amount.checked_mul(100) {
            Some(p) => p,
            None => {
                return Err(ReportError::Overflow);
            },
        };
        let q = div_i128_trunc(prod, previous_amount);
        if q < i32::MIN as i128 || q > i32::MAX as i128 {
            return Err(ReportError::Overflow);
        }
        q as i32
    } else if current_amount > 0 {
        100
    } else {
        0
    };
    Ok(
        TrendData {
            current_amount,
            previous_amount,
            change_amount,
            change_percentage,
        },
    )
}

} // verus!
