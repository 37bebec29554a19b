//! Fixed-point helpers.
use vstd::prelude::*;

verus! {

/// One whole unit in parts per million.
pub const ONE: u64 = 1_000_000;

/// The absolute value of `v`.
pub open spec fn abs(v: int) -> int {
    if v >= 0 { v } else { -v }
}

/// `v * num / den`, rounded toward zero.
pub open spec fn mul_div_trunc(v: int, num: int, den: int) -> int {
    if v >= 0 {
        (v * num) / den
    } else {
        -(((-v) * num) / den)
    }
}

/// Computes `v * num / den` rounded toward zero, as a float product would be
/// truncated.
pub fn scale_toward_zero(v: i128, num: u64, den: u64) -> (r: i128)
    requires
        den > 0,
        v > i128::MIN,
        abs(v as int) * num <= i128::MAX,
    ensures
        r == mul_div_trunc(v as int, num as int, den as int),
        abs(r as int) == (abs(v as int) * num) / (den as int),
{
    let mag: u128 = if v >= 0 { v as u128 } else { (-v) as u128 };
    let q: u128 = (mag * (num as u128)) / (den as u128);
    assert(q <= mag * num) by (nonlinear_arith)
        requires q == (mag * num) / (den as int), den >= 1, mag * num >= 0;
    if v >= 0 {
        q as i128
    } else {
        -(q as i128)
    }
}

} // verus!
