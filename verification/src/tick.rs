//! Alignment of price ticks to a pool's tick spacing.

use vstd::prelude::*;
use vstd::arithmetic::div_mod::{
    lemma_fundamental_div_mod, lemma_fundamental_div_mod_converse, lemma_mod_bound,
};

verus! {

/// The quotient of `a` by `b` rounded towards zero, which is what machine
/// division of signed integers yields.
pub open spec fn trunc_div(a: int, b: int) -> int
    recommends
        b != 0,
{
    if a >= 0 {
        a / b
    } else {
        -((-a) / b)
    }
}

/// The remainder that goes with [`trunc_div`]; it has the sign of `a`.
pub open spec fn trunc_rem(a: int, b: int) -> int
    recommends
        b != 0,
{
    if a >= 0 {
        a % b
    } else {
        -((-a) % b)
    }
}

/// The tick that `tick` is aligned to for a given spacing: the truncated
/// quotient, lowered by one when `tick` is negative and not a multiple of
/// the spacing, times the spacing.
pub open spec fn aligned_tick(tick: int, tick_spacing: int) -> int
    recommends
        tick_spacing != 0,
{
    let q = trunc_div(tick, tick_spacing);
    if tick < 0 && trunc_rem(tick, tick_spacing) != 0 {
        (q - 1) * tick_spacing
    } else {
        q * tick_spacing
    }
}

/// Truncated quotient and remainder recompose the dividend, and the
/// remainder is smaller in magnitude than the divisor.
pub proof fn lemma_trunc_div_rem(a: int, b: int)
    requires
        b != 0,
    ensures
        a == trunc_div(a, b) * b + trunc_rem(a, b),
        a >= 0 ==> 0 <= trunc_rem(a, b),
        a < 0 ==> trunc_rem(a, b) <= 0,
        b > 0 ==> -b < trunc_rem(a, b) < b,
        b < 0 ==> b < trunc_rem(a, b) < -b,
{
    let n = if a >= 0 { a } else { -a };
    lemma_fundamental_div_mod(n, b);
    let q = n / b;
    let r = n % b;
    assert(n == b * q + r);
    assert(0 <= r);
    assert(b > 0 ==> r < b) by {
        if b > 0 {
            lemma_mod_bound(n, b);
        }
    }
    assert(b < 0 ==> r < -b) by (nonlinear_arith)
        requires
            b != 0,
            r == n % b,
    ;
    assert(b * q == q * b) by (nonlinear_arith);
    assert((-q) * b == -(q * b)) by (nonlinear_arith);
}

/// A truncated quotient is no larger in magnitude than the dividend.
pub proof fn lemma_trunc_div_bound(a: int, b: int)
    requires
        b != 0,
    ensures
        a >= 0 ==> -a <= trunc_div(a, b) <= a,
        a < 0 ==> a <= trunc_div(a, b) <= -a,
        a < 0 && b != -1 ==> trunc_div(a, b) < -a,
{
    lemma_trunc_div_rem(a, b);
    let q = trunc_div(a, b);
    let r = trunc_rem(a, b);
    assert(a >= 0 ==> -a <= q <= a) by (nonlinear_arith)
        requires
            a == q * b + r,
            b != 0,
            a >= 0 ==> 0 <= r,
            b > 0 ==> -b < r < b,
            b < 0 ==> b < r < -b,
    ;
    assert(a < 0 ==> a <= q <= -a && (b != -1 ==> q < -a)) by (nonlinear_arith)
        requires
            a == q * b + r,
            b != 0,
            a < 0 ==> r <= 0,
            b > 0 ==> -b < r < b,
            b < 0 ==> b < r < -b,
    ;
}

/// For a positive spacing the aligned tick is the greatest multiple of the
/// spacing that does not exceed the tick.
pub proof fn lemma_aligned_tick_is_floor(tick: int, tick_spacing: int)
    requires
        tick_spacing > 0,
    ensures
        aligned_tick(tick, tick_spacing) == (tick / tick_spacing) * tick_spacing,
        aligned_tick(tick, tick_spacing) == tick - tick % tick_spacing,
        aligned_tick(tick, tick_spacing) <= tick < aligned_tick(tick, tick_spacing) + tick_spacing,
{
    let s = tick_spacing;
    lemma_trunc_div_rem(tick, s);
    lemma_fundamental_div_mod(tick, s);
    lemma_mod_bound(tick, s);
    let q = trunc_div(tick, s);
    let r = trunc_rem(tick, s);
    assert((tick / s) * s == s * (tick / s)) by (nonlinear_arith);
    if tick < 0 && r != 0 {
        assert((q - 1) * s == q * s - s) by (nonlinear_arith);
        assert(tick == (q - 1) * s + (s + r));
        assert((q - 1) * s == s * (q - 1)) by (nonlinear_arith);
        lemma_fundamental_div_mod_converse(tick, s, q - 1, s + r);
    } else {
        assert(q * s == s * q) by (nonlinear_arith);
        lemma_fundamental_div_mod_converse(tick, s, q, r);
    }
}

/// For a positive spacing an aligned tick is a multiple of the spacing,
/// and aligning it again changes nothing.
pub proof fn lemma_aligned_tick_idempotent(tick: int, tick_spacing: int)
    requires
        tick_spacing > 0,
    ensures
        aligned_tick(tick, tick_spacing) % tick_spacing == 0,
        aligned_tick(aligned_tick(tick, tick_spacing), tick_spacing) == aligned_tick(
            tick,
            tick_spacing,
        ),
{
    let s = tick_spacing;
    let a = aligned_tick(tick, s);
    lemma_aligned_tick_is_floor(tick, s);
    lemma_aligned_tick_is_floor(a, s);
    assert(a == (tick / s) * s);
    vstd::arithmetic::div_mod::lemma_mod_multiples_basic(tick / s, s);
    assert(a % s == 0);
    assert(aligned_tick(a, s) == a - a % s);
}

/// Aligns `tick` downwards to a multiple of `tick_spacing`.
///
/// The spacing must not be zero, and the quotient and the aligned tick must
/// be representable; [`lemma_aligned_tick_is_floor`] bounds the aligned
/// tick for a positive spacing.
pub fn tick_with_spacing(tick: i32, tick_spacing: i32) -> (aligned: i32)
    requires
        tick_spacing != 0,
        !(tick == i32::MIN && tick_spacing == -1),
        i32::MIN <= aligned_tick(tick as int, tick_spacing as int) <= i32::MAX,
    ensures
        aligned == aligned_tick(tick as int, tick_spacing as int),
{
    proof {
        lemma_trunc_div_bound(tick as int, tick_spacing as int);
        lemma_trunc_div_rem(tick as int, tick_spacing as int);
    }
    let mut compressed: i32 = tick / tick_spacing;
    assert(compressed == trunc_div(tick as int, tick_spacing as int));
    let rem: i32 = tick % tick_spacing;
    assert(rem == trunc_rem(tick as int, tick_spacing as int));
    if tick < 0 && rem != 0 {
        proof {
            // A quotient with a remainder is at most half the dividend in
            // magnitude, so one can be taken off it.
            let q = compressed as int;
            let s = tick_spacing as int;
            let r = rem as int;
            assert(q > i32::MIN) by (nonlinear_arith)
                requires
                    tick as int == q * s + r,
                    i32::MIN <= tick,
                    r < 0,
                    s != 0,
                    s > 0 ==> -s < r,
                    s < 0 ==> s < r,
            ;
        }
        compressed -= 1;
    }
    compressed * tick_spacing
}

/// The aligned tick in 64 bits, for ticks and spacings so small that
/// nothing can overflow. It serves to test whether the 32-bit result is
/// representable before that is computed.
pub(crate) fn aligned_tick_wide(tick: i64, tick_spacing: i64) -> (aligned: i64)
    requires
        0 < tick_spacing <= 0x1_0000_0000,
        -0x100_0000_0000 <= tick <= 0x100_0000_0000,
    ensures
        aligned == aligned_tick(tick as int, tick_spacing as int),
        tick - tick_spacing < aligned <= tick,
{
    proof {
        lemma_trunc_div_bound(tick as int, tick_spacing as int);
        lemma_trunc_div_rem(tick as int, tick_spacing as int);
        lemma_aligned_tick_is_floor(tick as int, tick_spacing as int);
    }
    let mut compressed: i64 = tick / tick_spacing;
    let rem: i64 = tick % tick_spacing;
    if tick < 0 && rem != 0 {
        compressed -= 1;
    }
    compressed * tick_spacing
}

} // verus!
