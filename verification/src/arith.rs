//! Shared arithmetic: the 128-bit range predicate and the round-toward-zero
//! division that every percentage and ratio formula in this crate uses.

use vstd::prelude::*;

verus! {

use vstd::arithmetic::div_mod::{lemma_div_pos_is_pos, lemma_div_nonincreasing};

/// True when `x` is representable as a signed 128-bit value.
pub open spec fn in_i128(x: int) -> bool {
    i128::MIN <= x <= i128::MAX
}

/// Quotient of `x` by `d` under round-toward-zero division, the rounding
/// every report formula uses. For a nonnegative dividend and a positive
/// divisor this coincides with the mathematical floor; for a negative
/// dividend it rounds up toward zero.
pub open spec fn div_trunc(x: int, d: int) -> int
    recommends
        d != 0,
{
    if x == 0 {
        0
    } else if x > 0 && d > 0 {
        x / d
    } else if x < 0 && d < 0 {
        (x * -1) / (d * -1)
    } else if x < 0 {
        ((x * -1) / d) * -1
    } else {
        (x / (d * -1)) * -1
    }
}

/// Round-toward-zero division by a positive divisor never moves a value
/// further from zero, so it can never leave the 128-bit range.
pub proof fn lemma_div_trunc_in_range(x: int, d: int)
    requires
        in_i128(x),
        0 < d,
    ensures
        in_i128(div_trunc(x, d)),
        x >= 0 ==> 0 <= div_trunc(x, d) <= x,
        x < 0 ==> x <= div_trunc(x, d) <= 0,
{
    if x > 0 {
        lemma_div_pos_is_pos(x, d);
        lemma_div_nonincreasing(x, d);
    } else if x < 0 {
        lemma_div_pos_is_pos(x * -1, d);
        lemma_div_nonincreasing(x * -1, d);
    }
}

/// Round-toward-zero division of a 128-bit value by a positive divisor.
pub fn div_i128_trunc(x: i128, d: i128) -> (q: i128)
    requires
        d > 0,
    ensures
        q == div_trunc(x as int, d as int),
{
    proof {
        lemma_div_trunc_in_range(x as int, d as int);
    }
    let q = x.checked_div(d);
    q.unwrap()
}

} // verus!
