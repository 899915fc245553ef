//! Saturating and truncating 32-bit arithmetic.
//!
//! The averaging and tare filters clamp on overflow instead of wrapping, so
//! that a sign flip can never corrupt a convergence step. The spec
//! functions here give those operations exact mathematical meanings; the
//! executable functions are proved to match them.

use vstd::prelude::*;

verus! {

/// `x` clamped to the value range of `i32`.
pub open spec fn clamp32(x: int) -> int {
    if x > i32::MAX {
        i32::MAX as int
    } else if x < i32::MIN {
        i32::MIN as int
    } else {
        x
    }
}

/// Saturating addition on the `i32` range.
pub open spec fn sat_add(a: int, b: int) -> int {
    clamp32(a + b)
}

/// Saturating subtraction on the `i32` range.
pub open spec fn sat_sub(a: int, b: int) -> int {
    clamp32(a - b)
}

/// Division truncated toward zero (the native behaviour of `i32`
/// division), for a positive divisor.
pub open spec fn div_trunc(a: int, d: int) -> int
    recommends
        d > 0,
{
    if a >= 0 {
        a / d
    } else {
        -((-a) / d)
    }
}

/// Absolute difference of two integers.
pub open spec fn abs_diff(a: int, b: int) -> nat {
    if a >= b {
        (a - b) as nat
    } else {
        (b - a) as nat
    }
}

/// Saturating `i32` addition, exactly [`sat_add`].
pub fn sat_add_i32(a: i32, b: i32) -> (r: i32)
    ensures
        r as int == sat_add(a as int, b as int),
{
    match a.checked_add(b) {
        Some(v) => v,
        None => if b >= 0 {
            i32::MAX
        } else {
            i32::MIN
        },
    }
}

/// Saturating `i32` subtraction, exactly [`sat_sub`].
pub fn sat_sub_i32(a: i32, b: i32) -> (r: i32)
    ensures
        r as int == sat_sub(a as int, b as int),
{
    match a.checked_sub(b) {
        Some(v) => v,
        None => if b >= 0 {
            i32::MIN
        } else {
            i32::MAX
        },
    }
}

/// `i32` division by a positive divisor, exactly [`div_trunc`]. With a
/// positive divisor the result always fits, so this equals the saturating
/// division the filters call for.
pub fn div_i32(a: i32, d: i32) -> (r: i32)
    requires
        d > 0,
    ensures
        r as int == div_trunc(a as int, d as int),
{
    proof {
        lemma_div_trunc_bounds(a as int, d as int);
    }
    match a.checked_div(d) {
        Some(q) => q,
        None => 0,
    }
}

/// Absolute difference of two `i32` values, exactly [`abs_diff`].
pub fn abs_diff_i32(a: i32, b: i32) -> (r: u32)
    ensures
        r as nat == abs_diff(a as int, b as int),
{
    let wide: i64 = (a as i64) - (b as i64);
    if wide >= 0 {
        wide as u32
    } else {
        (-wide) as u32
    }
}

/// Truncating division by a positive divisor moves its argument toward
/// zero and never past it: the quotient lies between 0 and `a`.
pub proof fn lemma_div_trunc_bounds(a: int, d: int)
    requires
        d > 0,
    ensures
        a >= 0 ==> 0 <= div_trunc(a, d) <= a,
        a < 0 ==> a <= div_trunc(a, d) <= 0,
        abs_diff(div_trunc(a, d), 0) <= abs_diff(a, 0),
{
    if a >= 0 {
        lemma_div_nonneg_le(a, d);
    } else {
        lemma_div_nonneg_le(-a, d);
    }
}

/// For a non-negative dividend and positive divisor, Euclidean division
/// stays within `[0, a]`.
proof fn lemma_div_nonneg_le(a: int, d: int)
    requires
        a >= 0,
        d > 0,
    ensures
        0 <= a / d <= a,
{
    vstd::arithmetic::div_mod::lemma_div_pos_is_pos(a, d);
    vstd::arithmetic::div_mod::lemma_div_nonincreasing(a, d);
}

} // verus!
