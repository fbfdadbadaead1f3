//! Saturating fixed-point arithmetic in thousandths ("milli" units).
//!
//! The spring animation model works on signed fixed-point numbers with three
//! decimal digits: the value `1500` stands for `1.5`.  One millisecond of
//! elapsed wall-clock time is exactly one milli of elapsed seconds, so
//! millisecond timestamps plug into this arithmetic directly.
//!
//! Every operation saturates at `FX_CAP`, so all results stay representable
//! and the operations are total.  Division truncates toward zero, like
//! machine division.

use vstd::prelude::*;

verus! {

/// The fixed-point representation of `1.0`.
pub const ONE: i64 = 1000;

/// The saturation bound of the arithmetic: every operation clamps its result
/// into `[-FX_CAP, FX_CAP]`.
pub const FX_CAP: i64 = 1_000_000_000_000_000_000;

/// Division rounding toward zero (the rounding of machine division), for a
/// positive divisor.
pub open spec fn tdiv(a: int, b: int) -> int
    recommends
        b > 0,
{
    if a >= 0 {
        a / b
    } else {
        -((-a) / b)
    }
}

/// `v` saturated into `[-FX_CAP, FX_CAP]`.
pub open spec fn spec_clamp(v: int) -> int {
    if v > FX_CAP as int {
        FX_CAP as int
    } else if v < -(FX_CAP as int) {
        -(FX_CAP as int)
    } else {
        v
    }
}

/// Saturating addition.
pub open spec fn spec_fx_add(a: int, b: int) -> int {
    spec_clamp(a + b)
}

/// Saturating subtraction.
pub open spec fn spec_fx_sub(a: int, b: int) -> int {
    spec_clamp(a - b)
}

/// Saturating fixed-point multiplication: `a * b / 1000`, truncated.
pub open spec fn spec_fx_mul(a: int, b: int) -> int {
    spec_clamp(tdiv(a * b, 1000))
}

/// Saturating fixed-point division: `a * 1000 / b`, truncated; zero for a
/// non-positive divisor (callers only divide by positive values).
pub open spec fn spec_fx_div(a: int, b: int) -> int {
    if b <= 0 {
        0
    } else {
        spec_clamp(tdiv(a * 1000, b))
    }
}

/// Saturating addition of two in-range fixed-point values.
pub fn fx_add(a: i64, b: i64) -> (r: i64)
    requires
        -FX_CAP <= a <= FX_CAP,
        -FX_CAP <= b <= FX_CAP,
    ensures
        r == spec_fx_add(a as int, b as int),
        -FX_CAP <= r <= FX_CAP,
{
    let s = a + b;
    if s > FX_CAP {
        FX_CAP
    } else if s < -FX_CAP {
        -FX_CAP
    } else {
        s
    }
}

/// Saturating subtraction of two in-range fixed-point values.
pub fn fx_sub(a: i64, b: i64) -> (r: i64)
    requires
        -FX_CAP <= a <= FX_CAP,
        -FX_CAP <= b <= FX_CAP,
    ensures
        r == spec_fx_sub(a as int, b as int),
        -FX_CAP <= r <= FX_CAP,
{
    let s = a - b;
    if s > FX_CAP {
        FX_CAP
    } else if s < -FX_CAP {
        -FX_CAP
    } else {
        s
    }
}

/// Divides a non-negative 128-bit value by a positive divisor; truncation and
/// flooring agree on non-negative operands.
fn udiv128(a: i128, b: i128) -> (r: i128)
    requires
        a >= 0,
        b >= 1,
    ensures
        r == a / b,
        0 <= r <= a,
{
    let q = ((a as u128) / (b as u128)) as i128;
    proof {
        assert(a as u128 == a as nat && b as u128 == b as nat);
        assert((a as nat) / (b as nat) == (a as int) / (b as int));
        assert((a as int) / (b as int) <= a as int) by (nonlinear_arith)
            requires a >= 0 && b >= 1;
    }
    q
}

/// Truncating division of an in-range 128-bit value by a positive divisor.
pub(crate) fn fxi_tdiv(a: i128, b: i128) -> (r: i128)
    requires
        -0x4000_0000_0000_0000_0000_0000_0000_0000 < a
            < 0x4000_0000_0000_0000_0000_0000_0000_0000,
        1 <= b,
    ensures
        r == tdiv(a as int, b as int),
        (if a >= 0 { r <= a && r >= 0 } else { r >= a && r <= 0 }),
{
    if a >= 0 {
        udiv128(a, b)
    } else {
        -udiv128(-a, b)
    }
}

/// Clamps a 128-bit intermediate into the saturation range.
pub(crate) fn fxi_clamp(v: i128) -> (r: i64)
    ensures
        r == spec_clamp(v as int),
        -FX_CAP <= r <= FX_CAP,
{
    if v > FX_CAP as i128 {
        FX_CAP
    } else if v < -(FX_CAP as i128) {
        -FX_CAP
    } else {
        v as i64
    }
}

/// Saturating fixed-point multiplication.
pub fn fx_mul(a: i64, b: i64) -> (r: i64)
    requires
        -FX_CAP <= a <= FX_CAP,
        -FX_CAP <= b <= FX_CAP,
    ensures
        r == spec_fx_mul(a as int, b as int),
        -FX_CAP <= r <= FX_CAP,
{
    proof {
        assert((a as int) * (b as int) <= (FX_CAP as int) * (FX_CAP as int)
            && (a as int) * (b as int) >= -((FX_CAP as int) * (FX_CAP as int)))
            by (nonlinear_arith)
            requires -FX_CAP <= a <= FX_CAP && -FX_CAP <= b <= FX_CAP;
    }
    let p: i128 = (a as i128) * (b as i128);
    let q = fxi_tdiv(p, 1000);
    fxi_clamp(q)
}

/// Saturating fixed-point division by a positive divisor.
pub fn fx_div(a: i64, b: i64) -> (r: i64)
    requires
        -FX_CAP <= a <= FX_CAP,
        1 <= b <= FX_CAP,
    ensures
        r == spec_fx_div(a as int, b as int),
        -FX_CAP <= r <= FX_CAP,
{
    let p: i128 = (a as i128) * 1000;
    let q = fxi_tdiv(p, b as i128);
    fxi_clamp(q)
}

/// Multiplying by zero gives exactly zero.
pub proof fn lemma_fx_mul_zero(a: int)
    ensures
        spec_fx_mul(a, 0) == 0,
        spec_fx_mul(0, a) == 0,
{
    assert(a * 0 == 0) by (nonlinear_arith);
    assert(0 * a == 0) by (nonlinear_arith);
    assert(tdiv(0, 1000) == 0);
}

/// Multiplying an in-range value by `ONE` gives it back exactly.
pub proof fn lemma_fx_mul_one(a: int)
    requires
        -FX_CAP <= a <= FX_CAP,
    ensures
        spec_fx_mul(a, 1000) == a,
{
    if a >= 0 {
        assert((a * 1000) / 1000 == a) by (nonlinear_arith);
    } else {
        assert(((-a) * 1000) / 1000 == -a) by (nonlinear_arith);
        assert(-(a * 1000) == (-a) * 1000) by (nonlinear_arith);
    }
}

/// The product of non-negative values is non-negative.
pub proof fn lemma_fx_mul_nonneg(a: int, b: int)
    requires
        a >= 0,
        b >= 0,
    ensures
        spec_fx_mul(a, b) >= 0,
{
    assert(a * b >= 0) by (nonlinear_arith)
        requires a >= 0 && b >= 0;
    assert((a * b) / 1000 >= 0) by (nonlinear_arith)
        requires a * b >= 0;
}

/// Scaling by a non-negative factor preserves order of non-negative values.
pub proof fn lemma_fx_mul_monotone(a: int, b1: int, b2: int)
    requires
        a >= 0,
        0 <= b1 <= b2,
    ensures
        0 <= spec_fx_mul(a, b1) <= spec_fx_mul(a, b2),
{
    assert(0 <= a * b1 <= a * b2) by (nonlinear_arith)
        requires a >= 0 && 0 <= b1 <= b2;
    assert((a * b1) / 1000 <= (a * b2) / 1000) by (nonlinear_arith)
        requires 0 <= a * b1 <= a * b2;
    assert((a * b1) / 1000 >= 0) by (nonlinear_arith)
        requires a * b1 >= 0;
}

/// Multiplying and then truncating-dividing by the same positive value
/// cancels exactly.
pub proof fn lemma_tdiv_mul_cancel(a: int, b: int)
    requires
        b >= 1,
    ensures
        tdiv(a * b, b) == a,
{
    if a >= 0 {
        assert(a * b >= 0) by (nonlinear_arith)
            requires a >= 0 && b >= 1;
        assert((a * b) / b == a) by (nonlinear_arith)
            requires b >= 1;
    } else {
        assert(a * b < 0) by (nonlinear_arith)
            requires a < 0 && b >= 1;
        assert(-(a * b) == (-a) * b) by (nonlinear_arith);
        assert(((-a) * b) / b == -a) by (nonlinear_arith)
            requires b >= 1;
    }
}

/// The decay-argument bound beyond which the fixed-point exponential is
/// taken as zero: `e^{-15}` is below the representable resolution.
pub const EXP_CUT: i64 = 15_000;

/// One decay step: `e^{-0.001}` approximated as multiplication by
/// `999/1000`, truncated.  Truncation only loses value, so the computed
/// decay never exceeds the true exponential — the side that keeps damped
/// motion monotone.
pub open spec fn spec_decay_step(v: int) -> int {
    tdiv(v * 999, 1000)
}

/// The decaying exponential at micro precision (one million is `1.0`): one
/// multiplicative step per milli of the argument.
pub open spec fn spec_decay_rec(u: nat) -> int
    decreases u,
{
    if u == 0 {
        1_000_000
    } else {
        spec_decay_step(spec_decay_rec((u - 1) as nat))
    }
}

/// The decaying exponential `e^{-x}` at micro precision, for `x >= 0`:
/// per-milli multiplicative decay, zero from `EXP_CUT` on (the true value is
/// below the representable resolution there).
pub open spec fn spec_decay(x: int) -> int {
    if x >= EXP_CUT as int {
        0
    } else if x >= 0 {
        spec_decay_rec(x as nat)
    } else {
        1_000_000
    }
}

/// The decaying exponential `e^{-x}` at milli precision.
pub open spec fn spec_exp_neg(x: int) -> int {
    tdiv(spec_decay(x), 1000)
}

/// One decay step keeps a value inside `[0, 1_000_000]` and never grows it.
proof fn lemma_decay_step_shrinks(v: int)
    requires
        0 <= v <= 1_000_000,
    ensures
        0 <= spec_decay_step(v) <= v,
{
    assert(0 <= v * 999 <= 999_000_000) by (nonlinear_arith)
        requires 0 <= v <= 1_000_000;
    assert((v * 999) / 1000 <= v) by (nonlinear_arith)
        requires 0 <= v <= 1_000_000;
    assert((v * 999) / 1000 >= 0) by (nonlinear_arith)
        requires v * 999 >= 0;
}

/// The micro decay stays inside `[0, 1_000_000]`.
proof fn lemma_decay_rec_bounds(u: nat)
    ensures
        0 <= spec_decay_rec(u) <= 1_000_000,
    decreases u,
{
    if u > 0 {
        lemma_decay_rec_bounds((u - 1) as nat);
        lemma_decay_step_shrinks(spec_decay_rec((u - 1) as nat));
    }
}

/// The micro decay never rises.
proof fn lemma_decay_rec_monotone(u1: nat, u2: nat)
    requires
        u1 <= u2,
    ensures
        spec_decay_rec(u2) <= spec_decay_rec(u1),
    decreases u2 - u1,
{
    if u1 < u2 {
        lemma_decay_rec_bounds((u2 - 1) as nat);
        lemma_decay_step_shrinks(spec_decay_rec((u2 - 1) as nat));
        lemma_decay_rec_monotone(u1, (u2 - 1) as nat);
    }
}

/// The heart of overshoot-freedom: the decay falls at least as fast as the
/// reciprocal grows, so `(1000 + u) * decay(u)` never exceeds its starting
/// value of one thousand million — the fixed-point form of
/// `(1 + u) * e^{-u} <= 1`.
proof fn lemma_decay_rec_product(u: nat)
    ensures
        (1000 + u) * spec_decay_rec(u) <= 1_000_000_000,
    decreases u,
{
    if u == 0 {
        assert((1000 + 0) * 1_000_000 == 1_000_000_000) by (nonlinear_arith);
    } else {
        lemma_decay_rec_product((u - 1) as nat);
        lemma_decay_rec_bounds((u - 1) as nat);
        let p = spec_decay_rec((u - 1) as nat);
        let q = spec_decay_rec(u);
        assert(q == tdiv(p * 999, 1000));
        assert(p * 999 >= 0) by (nonlinear_arith)
            requires p >= 0;
        assert(q * 1000 <= p * 999) by (nonlinear_arith)
            requires
                q == (p * 999) / 1000,
                p * 999 >= 0,
        ;
        assert((1000 + u) * q * 1000 <= (999 + u) * p * 1000) by (nonlinear_arith)
            requires
                q * 1000 <= p * 999,
                p >= 0,
                q >= 0,
                u >= 1,
                999 * (1000 + u) <= 1000 * (999 + u),
        ;
        assert((999 + u) * p <= 1_000_000_000) by {
            assert((999 + u) * p == (1000 + (u - 1)) * p) by (nonlinear_arith);
        }
        assert((1000 + u) * q <= 1_000_000_000) by (nonlinear_arith)
            requires
                (1000 + u) * q * 1000 <= (999 + u) * p * 1000,
                (999 + u) * p <= 1_000_000_000,
        ;
    }
}

/// The same product, stronger: it never rises step to step, so the damped
/// remainder term `c0 * (1000 + u) * decay(u)` only shrinks with time.
proof fn lemma_decay_rec_product_monotone(u1: nat, u2: nat)
    requires
        u1 <= u2,
    ensures
        (1000 + u2) * spec_decay_rec(u2) <= (1000 + u1) * spec_decay_rec(u1),
    decreases u2 - u1,
{
    if u1 < u2 {
        lemma_decay_rec_bounds((u2 - 1) as nat);
        let p = spec_decay_rec((u2 - 1) as nat);
        let q = spec_decay_rec(u2);
        assert(q == tdiv(p * 999, 1000));
        assert(p * 999 >= 0) by (nonlinear_arith)
            requires p >= 0;
        assert(q * 1000 <= p * 999) by (nonlinear_arith)
            requires
                q == (p * 999) / 1000,
                p * 999 >= 0,
        ;
        lemma_decay_step_shrinks(p);
        assert((1000 + u2) * q <= (999 + u2) * p) by (nonlinear_arith)
            requires
                q * 1000 <= p * 999,
                p >= 0,
                q >= 0,
                999 * (1000 + u2) <= 1000 * (999 + u2),
        ;
        assert((999 + u2) * p == (1000 + (u2 - 1)) * p) by (nonlinear_arith);
        lemma_decay_rec_product_monotone(u1, (u2 - 1) as nat);
    }
}

/// The decay stays inside `[0, 1_000_000]` and starts at exactly one.
pub proof fn lemma_decay_bounds(x: int)
    ensures
        0 <= spec_decay(x) <= 1_000_000,
        x == 0 ==> spec_decay(x) == 1_000_000,
{
    if 0 <= x < EXP_CUT as int {
        lemma_decay_rec_bounds(x as nat);
    }
}

/// Law: the decay never rises.
pub proof fn lemma_decay_monotone(x1: int, x2: int)
    requires
        0 <= x1 <= x2,
    ensures
        spec_decay(x2) <= spec_decay(x1),
{
    lemma_decay_bounds(x1);
    lemma_decay_bounds(x2);
    if x2 < EXP_CUT as int {
        lemma_decay_rec_monotone(x1 as nat, x2 as nat);
    }
}

/// Law: `(1000 + x) * decay(x)` never exceeds a thousand million and never
/// rises — the bound and the slope that keep critically and over-damped
/// motion inside `[start, target]` and headed the right way.
pub proof fn lemma_decay_product_monotone(x1: int, x2: int)
    requires
        0 <= x1 <= x2,
    ensures
        (1000 + x1) * spec_decay(x1) <= 1_000_000_000,
        (1000 + x2) * spec_decay(x2) <= (1000 + x1) * spec_decay(x1),
{
    lemma_decay_rec_product(x1 as nat);
    if x1 < EXP_CUT as int {
        assert((1000 + x1) * spec_decay(x1) == (1000 + x1) * spec_decay_rec(x1 as nat));
    } else {
        assert((1000 + x1) * spec_decay(x1) == (1000 + x1) * 0);
        assert((1000 + x1) * 0 == 0) by (nonlinear_arith);
    }
    if x2 < EXP_CUT as int {
        lemma_decay_rec_product_monotone(x1 as nat, x2 as nat);
    } else {
        assert((1000 + x2) * spec_decay(x2) == (1000 + x2) * 0);
        assert((1000 + x2) * 0 == 0) by (nonlinear_arith);
        lemma_decay_bounds(x1);
        assert((1000 + x1) * spec_decay(x1) >= 0) by (nonlinear_arith)
            requires
                1000 + x1 >= 0,
                spec_decay(x1) >= 0,
        ;
    }
}

/// The milli exponential stays inside `[0, 1000]`, starts at exactly one,
/// and never rises.
pub proof fn lemma_exp_neg_bounds(x: int)
    requires
        x >= 0,
    ensures
        0 <= spec_exp_neg(x) <= 1000,
        x == 0 ==> spec_exp_neg(x) == 1000,
{
    lemma_decay_bounds(x);
    assert(spec_exp_neg(x) == spec_decay(x) / 1000);
    assert(0 <= spec_decay(x) / 1000 <= 1000) by (nonlinear_arith)
        requires 0 <= spec_decay(x) <= 1_000_000;
    if x == 0 {
        assert(tdiv(1_000_000int, 1000) == 1000);
    }
}

/// Law: the milli exponential never rises.
pub proof fn lemma_exp_neg_monotone(x1: int, x2: int)
    requires
        0 <= x1 <= x2,
    ensures
        spec_exp_neg(x1) >= spec_exp_neg(x2),
{
    lemma_decay_monotone(x1, x2);
    lemma_decay_bounds(x1);
    lemma_decay_bounds(x2);
    assert(spec_decay(x2) / 1000 <= spec_decay(x1) / 1000) by (nonlinear_arith)
        requires 0 <= spec_decay(x2) <= spec_decay(x1);
}

/// Evaluates the decaying exponential at micro precision.
pub fn decay_micro(x: i64) -> (r: i64)
    requires
        0 <= x,
    ensures
        r == spec_decay(x as int),
        0 <= r <= 1_000_000,
{
    proof {
        lemma_decay_bounds(x as int);
    }
    if x >= EXP_CUT {
        0
    } else {
        let mut v: i64 = 1_000_000;
        let mut i: i64 = 0;
        while i < x
            invariant
                0 <= i <= x < EXP_CUT,
                0 <= v <= 1_000_000,
                v == spec_decay_rec(i as nat),
            decreases x - i,
        {
            proof {
                lemma_decay_step_shrinks(v as int);
                assert(0 <= v * 999 <= 999_000_000) by (nonlinear_arith)
                    requires 0 <= v <= 1_000_000;
            }
            v = v * 999 / 1000;
            i = i + 1;
        }
        v
    }
}

/// Evaluates the decaying exponential at milli precision.
pub fn exp_neg(x: i64) -> (r: i64)
    requires
        0 <= x,
    ensures
        r == spec_exp_neg(x as int),
        0 <= r <= 1000,
{
    proof {
        lemma_exp_neg_bounds(x as int);
    }
    decay_micro(x) / 1000
}

/// The fixed-point value of pi.
pub const PI_FX: i64 = 3142;

/// The fixed-point value of two pi.
pub const TWO_PI_FX: i64 = 6284;

/// The fixed-point value of pi, squared.
pub const PI_SQ: i64 = 9_872_164;

/// A parabola through the half-wave of the sine: `4 t (pi - t) / pi^2` for
/// `t` in `[0, PI_FX]`; exactly `0` at the ends and exactly `1000` at the
/// crest.
pub open spec fn spec_sin_half(t: int) -> int {
    tdiv(4 * t * ((PI_FX as int) - t) * 1000, PI_SQ as int)
}

/// The sine of `t` (fixed-point radians, `t >= 0`): the argument reduced
/// modulo two pi, the second half-wave negated.
pub open spec fn spec_sin(t: int) -> int {
    let m = t % (TWO_PI_FX as int);
    if m <= PI_FX as int {
        spec_sin_half(m)
    } else {
        -spec_sin_half(m - PI_FX as int)
    }
}

/// The cosine of `t`, as the sine shifted by a quarter turn.
pub open spec fn spec_cos(t: int) -> int {
    spec_sin(t + HALF_PI_FX as int)
}

/// The fixed-point value of half pi.
pub const HALF_PI_FX: i64 = 1571;

/// The half-wave parabola stays inside `[0, 1000]`.
proof fn lemma_sin_half_bounds(t: int)
    requires
        0 <= t <= PI_FX as int,
    ensures
        0 <= spec_sin_half(t) <= 1000,
{
    let num = 4 * t * (3142 - t) * 1000;
    assert(0 <= num <= 9_872_164_000) by (nonlinear_arith)
        requires
            num == 4 * t * (3142 - t) * 1000,
            0 <= t <= 3142,
    ;
    assert(4 * t * ((PI_FX as int) - t) * 1000 == num);
    assert(tdiv(num, 9_872_164) == num / 9_872_164);
    assert(num / 9_872_164 <= 1000) by (nonlinear_arith)
        requires 0 <= num <= 9_872_164_000;
    assert(num / 9_872_164 >= 0) by (nonlinear_arith)
        requires num >= 0;
}

/// The sine stays inside `[-1000, 1000]`, is `0` at `0`, and the cosine is
/// `1000` at `0`.
pub proof fn lemma_sin_bounds(t: int)
    requires
        t >= 0,
    ensures
        -1000 <= spec_sin(t) <= 1000,
        t == 0 ==> spec_sin(t) == 0,
{
    let m = t % (TWO_PI_FX as int);
    assert(0 <= m < TWO_PI_FX as int);
    if m <= PI_FX as int {
        lemma_sin_half_bounds(m);
    } else {
        lemma_sin_half_bounds(m - PI_FX as int);
    }
    if t == 0 {
        assert(spec_sin_half(0) == tdiv(0, PI_SQ as int));
        assert(tdiv(0, PI_SQ as int) == 0);
    }
}

/// The cosine of zero is exactly one.
pub proof fn lemma_cos_zero()
    ensures
        spec_cos(0) == 1000,
{
    assert(spec_sin(1571) == spec_sin_half(1571));
    assert(4 * 1571 * ((PI_FX as int) - 1571) * 1000 == 9_872_164_000);
    assert(spec_sin_half(1571) == tdiv(9_872_164_000, 9_872_164));
    assert(tdiv(9_872_164_000, 9_872_164) == 1000);
}

/// Evaluates the sine of a non-negative fixed-point angle.
pub fn sin_fx(t: i64) -> (r: i64)
    requires
        0 <= t,
    ensures
        r == spec_sin(t as int),
        -1000 <= r <= 1000,
{
    proof {
        lemma_sin_bounds(t as int);
    }
    let m = ((t as u64) % (TWO_PI_FX as u64)) as i64;
    proof {
        assert(m == (t as int) % (TWO_PI_FX as int));
    }
    if m <= PI_FX {
        proof {
            lemma_sin_half_bounds(m as int);
            assert(0 <= 4 * m * (PI_FX - m) * 1000 <= (PI_SQ as int) * 1000)
                by (nonlinear_arith)
                requires 0 <= m <= 3142;
        }
        4 * m * (PI_FX - m) * 1000 / PI_SQ
    } else {
        let u = m - PI_FX;
        proof {
            lemma_sin_half_bounds(u as int);
            assert(0 <= 4 * u * (PI_FX - u) * 1000 <= (PI_SQ as int) * 1000)
                by (nonlinear_arith)
                requires 0 <= u <= 3142;
        }
        -(4 * u * (PI_FX - u) * 1000 / PI_SQ)
    }
}

/// Evaluates the cosine of a non-negative fixed-point angle.
pub fn cos_fx(t: i64) -> (r: i64)
    requires
        0 <= t <= FX_CAP,
    ensures
        r == spec_cos(t as int),
        -1000 <= r <= 1000,
{
    sin_fx(t + HALF_PI_FX)
}

/// The integer square root, by unit steps.
pub open spec fn spec_isqrt(n: nat) -> nat
    decreases n,
{
    if n == 0 {
        0
    } else {
        let r = spec_isqrt((n - 1) as nat);
        if (r + 1) * (r + 1) <= n {
            r + 1
        } else {
            r
        }
    }
}

/// The integer square root is the unique value whose square brackets `n`.
pub proof fn lemma_isqrt_bounds(n: nat)
    ensures
        spec_isqrt(n) * spec_isqrt(n) <= n,
        n < (spec_isqrt(n) + 1) * (spec_isqrt(n) + 1),
    decreases n,
{
    if n == 0 {
        assert(spec_isqrt(n) == 0);
        assert((spec_isqrt(n) + 1) * (spec_isqrt(n) + 1) == 1) by (nonlinear_arith)
            requires spec_isqrt(n) == 0;
    } else {
        lemma_isqrt_bounds((n - 1) as nat);
        let r = spec_isqrt((n - 1) as nat);
        if (r + 1) * (r + 1) <= n {
            assert(spec_isqrt(n) == r + 1);
            assert(n <= (r + 1) * (r + 1)) by {
                assert(n - 1 < (r + 1) * (r + 1));
            }
            assert(n < (r + 2) * (r + 2)) by (nonlinear_arith)
                requires n <= (r + 1) * (r + 1);
            assert((spec_isqrt(n) + 1) * (spec_isqrt(n) + 1) == (r + 2) * (r + 2));
        } else {
            assert(spec_isqrt(n) == r);
            assert(r * r <= n - 1 <= n);
            assert(n < (r + 1) * (r + 1));
            assert((spec_isqrt(n) + 1) * (spec_isqrt(n) + 1) == (r + 1) * (r + 1));
        }
    }
}

/// Two values whose squares both bracket `n` are equal.
proof fn lemma_isqrt_unique(a: nat, b: nat, n: nat)
    requires
        a * a <= n < (a + 1) * (a + 1),
        b * b <= n < (b + 1) * (b + 1),
    ensures
        a == b,
{
    if a < b {
        assert((a + 1) * (a + 1) <= b * b) by (nonlinear_arith)
            requires a + 1 <= b;
    }
    if b < a {
        assert((b + 1) * (b + 1) <= a * a) by (nonlinear_arith)
            requires b + 1 <= a;
    }
}

/// Computes the integer square root of a small value.
pub fn isqrt_u64(n: u64) -> (r: u64)
    requires
        n <= 1_000_000,
    ensures
        r == spec_isqrt(n as nat),
        r * r <= n,
        n < (r + 1) * (r + 1),
{
    let mut r: u64 = 0;
    while (r + 1) * (r + 1) <= n
        invariant
            n <= 1_000_000,
            r <= 1000,
            r * r <= n,
            (r + 1) * (r + 1) <= 2_000_000,
        decreases n - r * r,
    {
        proof {
            assert(r * r < (r + 1) * (r + 1)) by (nonlinear_arith);
            assert(r + 1 <= 1000) by (nonlinear_arith)
                requires (r + 1) * (r + 1) <= 1_000_000;
            assert((r + 2) * (r + 2) <= 2_000_000) by (nonlinear_arith)
                requires r + 1 <= 1000;
        }
        r = r + 1;
    }
    proof {
        lemma_isqrt_bounds(n as nat);
        lemma_isqrt_unique(r as nat, spec_isqrt(n as nat), n as nat);
    }
    r
}

/// The count of `q`-sized steps nearest to `v`, ties rounding away from zero.
/// `spec_round_div(1500, 1000) == 2`, `spec_round_div(-250, 100) == -3`.
pub open spec fn spec_round_div(v: int, q: int) -> int
    recommends
        q >= 1,
{
    if v >= 0 {
        (v + q / 2) / q
    } else {
        -((-v + q / 2) / q)
    }
}

/// Rounds `v` to the nearest multiple of `q` and returns the multiple count,
/// ties away from zero.
pub fn round_div(v: i64, q: i64) -> (r: i64)
    requires
        -FX_CAP <= v <= FX_CAP,
        1 <= q <= 1_000_000,
    ensures
        r == spec_round_div(v as int, q as int),
{
    if v >= 0 {
        let u = ((v as u64) + (q as u64) / 2) / (q as u64);
        u as i64
    } else {
        let m = -v;
        let u = ((m as u64) + (q as u64) / 2) / (q as u64);
        -(u as i64)
    }
}

} // verus!
