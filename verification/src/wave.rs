//! Fixed-point rectified-wave brightness.
//!
//! An oscillating behavior scales each color channel by the magnitude of a
//! rectified (absolute-value) sine wave. Floating point is avoided: the
//! magnitude is the rational function `16a(d - a) / (5d^2 - 4a(d - a))`,
//! a close sinusoidal easing of `sin(pi * a / d)` on `0 <= a <= d`. It is
//! exactly 0 at both ends, exactly 1 at the midpoint when `d` is even,
//! symmetric about the midpoint, and monotone on each half — the
//! properties the sequencing engine's contracts are stated over.

use vstd::arithmetic::div_mod::{
    lemma_basic_div, lemma_div_by_multiple, lemma_div_is_ordered, lemma_div_pos_is_pos,
    lemma_fundamental_div_mod, lemma_mod_bound,
};
use vstd::arithmetic::mul::{lemma_mul_inequality, lemma_mul_is_commutative};
use vstd::prelude::*;

verus! {

/// Largest wave span (denominator `d`) the executable evaluator accepts.
/// Spans produced by the engine stay at or below `2^34`, well under this.
pub const WAVE_SPAN_MAX: u64 = 0x8_0000_0000;

/// Numerator of the wave magnitude at position `a` of span `d`.
pub open spec fn wave_num(a: int, d: int) -> int {
    16 * a * (d - a)
}

/// Denominator of the wave magnitude at position `a` of span `d`.
pub open spec fn wave_den(a: int, d: int) -> int {
    5 * d * d - 4 * a * (d - a)
}

/// Channel value `c` scaled by the wave magnitude at position `a` of span
/// `d`: the integer part of `c * 16a(d - a) / (5d^2 - 4a(d - a))`.
pub open spec fn wave_level(c: u8, a: int, d: int) -> int
    recommends
        1 <= d,
        0 <= a <= d,
{
    (c * wave_num(a, d)) / wave_den(a, d)
}

/// The numerator stays below the denominator, which stays positive.
proof fn lemma_quad_shape(a: int, d: int)
    by (nonlinear_arith)
    requires
        1 <= d,
        0 <= a <= d,
    ensures
        0 <= 16 * a * (d - a),
        4 * d * d <= 5 * d * d - 4 * a * (d - a),
        0 < 4 * d * d,
        16 * a * (d - a) <= 5 * d * d - 4 * a * (d - a),
{
}

/// The numerator grows and the denominator shrinks over the rising half.
proof fn lemma_quad_monotone(a1: int, a2: int, d: int)
    by (nonlinear_arith)
    requires
        0 <= a1 <= a2,
        a1 + a2 <= d,
    ensures
        16 * a1 * (d - a1) <= 16 * a2 * (d - a2),
        5 * d * d - 4 * a2 * (d - a2) <= 5 * d * d - 4 * a1 * (d - a1),
{
}

/// Both parts of the fraction are unchanged by reflection about `d / 2`.
proof fn lemma_quad_symmetric(a: int, d: int)
    by (nonlinear_arith)
    ensures
        16 * a * (d - a) == 16 * (d - a) * (d - (d - a)),
        5 * d * d - 4 * a * (d - a) == 5 * d * d - 4 * (d - a) * (d - (d - a)),
{
}

/// At the midpoint of an even span the fraction is exactly one.
proof fn lemma_quad_peak(h: int, d: int)
    by (nonlinear_arith)
    requires
        d == 2 * h,
    ensures
        16 * h * (d - h) == 5 * d * d - 4 * h * (d - h),
{
}

/// The scaled channel stays between 0 and the channel value itself.
pub proof fn lemma_wave_level_bounds(c: u8, a: int, d: int)
    requires
        1 <= d,
        0 <= a <= d,
    ensures
        0 <= wave_level(c, a, d) <= c,
{
    lemma_quad_shape(a, d);
    let num = wave_num(a, d);
    let den = wave_den(a, d);
    lemma_mul_inequality(0, num, c as int);
    lemma_mul_is_commutative(num, c as int);
    lemma_div_pos_is_pos(c * num, den);
    lemma_mul_inequality(num, den, c as int);
    lemma_mul_is_commutative(den, c as int);
    lemma_div_is_ordered(c * num, c * den, den);
    lemma_div_by_multiple(c as int, den);
}

/// On the rising half of the span the scaled channel is non-decreasing.
pub proof fn lemma_wave_level_rising(c: u8, a1: int, a2: int, d: int)
    requires
        1 <= d,
        0 <= a1 <= a2,
        a1 + a2 <= d,
    ensures
        wave_level(c, a1, d) <= wave_level(c, a2, d),
{
    lemma_quad_shape(a1, d);
    lemma_quad_shape(a2, d);
    lemma_quad_monotone(a1, a2, d);
    let num1 = wave_num(a1, d);
    let num2 = wave_num(a2, d);
    let den1 = wave_den(a1, d);
    let den2 = wave_den(a2, d);
    let q = (c * num1) / den1;
    lemma_mul_inequality(0, num1, c as int);
    lemma_mul_is_commutative(num1, c as int);
    lemma_div_pos_is_pos(c * num1, den1);
    lemma_fundamental_div_mod(c * num1, den1);
    lemma_mod_bound(c * num1, den1);
    assert(den1 * q <= c * num1);
    lemma_mul_inequality(den2, den1, q);
    lemma_mul_is_commutative(den1, q);
    lemma_mul_is_commutative(den2, q);
    assert(q * den2 <= c * num1);
    lemma_mul_inequality(num1, num2, c as int);
    lemma_mul_is_commutative(num1, c as int);
    lemma_mul_is_commutative(num2, c as int);
    assert(q * den2 <= c * num2);
    lemma_div_is_ordered(q * den2, c * num2, den2);
    lemma_div_by_multiple(q, den2);
}

/// The scaled channel is symmetric about the midpoint of the span.
pub proof fn lemma_wave_level_symmetric(c: u8, a: int, d: int)
    requires
        1 <= d,
        0 <= a <= d,
    ensures
        wave_level(c, a, d) == wave_level(c, d - a, d),
{
    lemma_quad_symmetric(a, d);
}

/// On the falling half of the span the scaled channel is non-increasing.
pub proof fn lemma_wave_level_falling(c: u8, a1: int, a2: int, d: int)
    requires
        1 <= d,
        0 <= a1 <= a2 <= d,
        d <= a1 + a2,
    ensures
        wave_level(c, a2, d) <= wave_level(c, a1, d),
{
    lemma_wave_level_symmetric(c, a1, d);
    lemma_wave_level_symmetric(c, a2, d);
    lemma_wave_level_rising(c, d - a2, d - a1, d);
}

/// At the midpoint of an even span the channel reaches its full value.
pub proof fn lemma_wave_level_peak(c: u8, d: int)
    requires
        1 <= d,
        d % 2 == 0,
    ensures
        wave_level(c, d / 2, d) == c,
{
    let h = d / 2;
    lemma_fundamental_div_mod(d, 2);
    lemma_quad_peak(h, d);
    let den = wave_den(h, d);
    lemma_quad_shape(h, d);
    lemma_div_by_multiple(c as int, den);
    lemma_mul_is_commutative(den, c as int);
}

/// No position of the span exceeds the midpoint level of an even span.
pub proof fn lemma_wave_level_max_at_midpoint(c: u8, a: int, d: int)
    requires
        1 <= d,
        d % 2 == 0,
        0 <= a <= d,
    ensures
        wave_level(c, a, d) <= wave_level(c, d / 2, d),
{
    lemma_fundamental_div_mod(d, 2);
    if a <= d / 2 {
        lemma_wave_level_rising(c, a, d / 2, d);
    } else {
        lemma_wave_level_falling(c, d / 2, a, d);
    }
}

/// At either end of the span the channel is fully dark.
pub proof fn lemma_wave_level_ends(c: u8, d: int)
    requires
        1 <= d,
    ensures
        wave_level(c, 0, d) == 0,
        wave_level(c, d, d) == 0,
{
    lemma_quad_shape(0, d);
    lemma_quad_shape(d, d);
    assert(c * wave_num(0, d) == 0) by (nonlinear_arith)
        requires
            wave_num(0, d) == 0,
    ;
    assert(c * wave_num(d, d) == 0) by (nonlinear_arith)
        requires
            wave_num(d, d) == 0,
    ;
    lemma_basic_div(0, wave_den(0, d));
    lemma_basic_div(0, wave_den(d, d));
}

/// Evaluate the scaled channel in integer arithmetic.
pub fn wave_channel(c: u8, a: u64, d: u64) -> (out: u8)
    requires
        1 <= d <= WAVE_SPAN_MAX,
        a <= d,
    ensures
        out == wave_level(c, a as int, d as int),
{
    let aw: u128 = a as u128;
    let dw: u128 = d as u128;
    proof {
        lemma_wave_level_bounds(c, a as int, d as int);
        assert(0 <= aw * (dw - aw) < 0x20_0000_0000_0000_0000int && 4 * (aw * (dw - aw)) <= 5 * dw
            * dw && 5 * dw * dw < 0x200_0000_0000_0000_0000int) by (nonlinear_arith)
            requires
                aw <= dw <= 0x8_0000_0000u128,
        ;
    }
    let g: u128 = aw * (dw - aw);
    let num: u128 = 16 * g;
    let den: u128 = 5 * dw * dw - 4 * g;
    let cw: u128 = c as u128;
    proof {
        assert(num == wave_num(a as int, d as int) && den == wave_den(a as int, d as int)
            && cw * num == c * wave_num(a as int, d as int)) by (nonlinear_arith)
            requires
                g == aw * (dw - aw),
                num == 16 * g,
                den == 5 * dw * dw - 4 * g,
                aw == a as int,
                dw == d as int,
                cw == c as int,
                wave_num(a as int, d as int) == 16 * (a as int) * ((d as int) - (a as int)),
                wave_den(a as int, d as int) == 5 * (d as int) * (d as int) - 4 * (a as int) * ((d
                    as int) - (a as int)),
        ;
        lemma_quad_shape(a as int, d as int);
        assert(0 < 4 * (d as int) * (d as int)) by (nonlinear_arith)
            requires
                1 <= d,
        ;
        assert(cw * num < 0x1000_0000_0000_0000_0000_0000int) by (nonlinear_arith)
            requires
                cw <= 0xffu128,
                num < 0x2000_0000_0000_0000_0000u128,
        ;
    }
    let scaled: u128 = (cw * num) / den;
    scaled as u8
}

} // verus!
