//! Linear range mapping from a raw axis reading to a tilt angle.

use vstd::arithmetic::div_mod::lemma_div_multiples_vanish;
use vstd::arithmetic::div_mod::lemma_fundamental_div_mod;
use vstd::prelude::*;

verus! {

/// Quotient of `a` by `b` under the truncating division of the
/// executable code: the mathematical quotient rounded toward zero.
pub open spec fn quot_toward_zero(a: int, b: int) -> int {
    if a == 0 {
        0
    } else if a > 0 && b > 0 {
        a / b
    } else if a < 0 && b < 0 {
        (a * -1) / (b * -1)
    } else if a < 0 {
        ((a * -1) / b) * -1
    } else {
        (a / (b * -1)) * -1
    }
}

/// The linear interpolation that `translate` computes, over unbounded
/// integers: the offset of `x` into the input span, rescaled to the
/// output span with truncating division, then shifted to the output
/// origin.  Values of `x` outside `[in_min, in_max]` extrapolate; the
/// result is deliberately not clamped to `[out_min, out_max]`.
pub open spec fn translated(x: int, in_min: int, in_max: int, out_min: int, out_max: int) -> int {
    quot_toward_zero((x - in_min) * (out_max - out_min), in_max - in_min) + out_min
}

/// Every intermediate value of `translate`'s 32-bit evaluation stays in
/// `i32` range, so the executable arithmetic neither overflows nor
/// divides by zero.
pub open spec fn translate_fits(
    x: int,
    in_min: int,
    in_max: int,
    out_min: int,
    out_max: int,
) -> bool {
    &&& in_min != in_max
    &&& i32::MIN <= x - in_min <= i32::MAX
    &&& i32::MIN <= out_max - out_min <= i32::MAX
    &&& i32::MIN <= in_max - in_min <= i32::MAX
    &&& i32::MIN <= (x - in_min) * (out_max - out_min) <= i32::MAX
    &&& i32::MIN <= quot_toward_zero((x - in_min) * (out_max - out_min), in_max - in_min)
        <= i32::MAX
    &&& i32::MIN <= translated(x, in_min, in_max, out_min, out_max) <= i32::MAX
}

/// Maps `x` from the range `[in_min, in_max]` to the range
/// `[out_min, out_max]` by linear interpolation in 32-bit signed
/// arithmetic, truncating at the division.  `x` is not clamped: inputs
/// beyond the input range extrapolate linearly.
pub fn translate(x: i32, in_min: i32, in_max: i32, out_min: i32, out_max: i32) -> (r: i32)
    requires
        translate_fits(x as int, in_min as int, in_max as int, out_min as int, out_max as int),
    ensures
        r == translated(x as int, in_min as int, in_max as int, out_min as int, out_max as int),
{
    let diff = x - in_min;
    let out_span = out_max - out_min;
    let in_span = in_max - in_min;
    let prod = diff * out_span;
    let quot = match prod.checked_div(in_span) {
        Some(q) => q,
        None => unreached(),
    };
    quot + out_min
}

/// Total form of `translate`: `Some` of the mapped value exactly when
/// every intermediate of the 32-bit evaluation fits, `None` where the
/// input span is degenerate or the arithmetic would overflow.
pub fn translate_checked(x: i32, in_min: i32, in_max: i32, out_min: i32, out_max: i32) -> (r:
    Option<i32>)
    ensures
        translate_fits(x as int, in_min as int, in_max as int, out_min as int, out_max as int)
            ==> r == Some(
            (translated(x as int, in_min as int, in_max as int, out_min as int, out_max as int))
                as i32,
        ),
        !translate_fits(x as int, in_min as int, in_max as int, out_min as int, out_max as int)
            ==> r is None,
{
    if in_min == in_max {
        return None;
    }
    let diff = match x.checked_sub(in_min) {
        Some(d) => d,
        None => {
            return None;
        },
    };
    let out_span = match out_max.checked_sub(out_min) {
        Some(s) => s,
        None => {
            return None;
        },
    };
    let in_span = match in_max.checked_sub(in_min) {
        Some(s) => s,
        None => {
            return None;
        },
    };
    let prod = match diff.checked_mul(out_span) {
        Some(p) => p,
        None => {
            return None;
        },
    };
    let quot = match prod.checked_div(in_span) {
        Some(q) => q,
        None => {
            return None;
        },
    };
    quot.checked_add(out_min)
}

/// Endpoint law: the low end of the input range maps exactly to the
/// low end of the output range, for every valid pair of spans.
pub proof fn lemma_endpoint_low(in_min: int, in_max: int, out_min: int, out_max: int)
    requires
        in_min < in_max,
        out_min < out_max,
    ensures
        translated(in_min, in_min, in_max, out_min, out_max) == out_min,
{
}

/// Endpoint law: the high end of the input range maps exactly to the
/// high end of the output range; the mapping does not clamp there, the
/// division is simply exact at that point.
pub proof fn lemma_endpoint_high(in_min: int, in_max: int, out_min: int, out_max: int)
    requires
        in_min < in_max,
        out_min < out_max,
    ensures
        translated(in_max, in_min, in_max, out_min, out_max) == out_max,
{
    let s = in_max - in_min;
    let t = out_max - out_min;
    assert(s * t > 0) by (nonlinear_arith)
        requires
            s >= 1,
            t >= 1,
    ;
    lemma_div_multiples_vanish(t, s);
    assert(quot_toward_zero(s * t, s) == t);
}

/// Midpoint law: when both spans are even, the midpoint of the input
/// range maps exactly to the midpoint of the output range.
pub proof fn lemma_midpoint(in_min: int, in_max: int, out_min: int, out_max: int)
    requires
        in_min < in_max,
        out_min < out_max,
        (in_max - in_min) % 2 == 0,
        (out_max - out_min) % 2 == 0,
    ensures
        translated((in_min + in_max) / 2, in_min, in_max, out_min, out_max) == (out_min + out_max)
            / 2,
{
    let s = in_max - in_min;
    let t = out_max - out_min;
    let hs = s / 2;
    let ht = t / 2;
    let mid = (in_min + in_max) / 2;
    lemma_fundamental_div_mod(s, 2);
    lemma_fundamental_div_mod(t, 2);
    assert(s == 2 * hs);
    assert(t == 2 * ht);
    lemma_div_multiples_vanish(in_min + hs, 2);
    assert(mid == in_min + hs);
    assert(hs * t == s * ht) by (nonlinear_arith)
        requires
            s == 2 * hs,
            t == 2 * ht,
    ;
    assert(hs * t > 0) by (nonlinear_arith)
        requires
            hs >= 1,
            t >= 1,
    ;
    lemma_div_multiples_vanish(ht, s);
    assert(quot_toward_zero(hs * t, s) == ht);
    lemma_div_multiples_vanish(out_min + ht, 2);
    assert((out_min + out_max) / 2 == out_min + ht);
}

} // verus!
