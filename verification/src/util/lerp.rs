//! Linear interpolation on fixed-point values.

use vstd::prelude::*;
use vstd::arithmetic::power::pow;
use crate::util::fixed::{abs_spec, div_toward_zero, div_trunc, lemma_div_trunc_bounds, SCALE};

verus! {

/// `a` moved toward `b` by the fraction `t` (in thousandths) of their
/// distance. The step is rounded toward zero.
pub open spec fn lerp_spec(a: int, b: int, t: int) -> int {
    a + div_trunc((b - a) * t, SCALE as int)
}

/// `t` held to the range from zero to one.
pub open spec fn clamp_unit(t: int) -> int {
    if t < 0 {
        0
    } else if t > SCALE {
        SCALE as int
    } else {
        t
    }
}

/// `value` after `n` rounds of smoothing toward `target` with ratio `t`.
pub open spec fn smooth(value: int, target: int, t: int, n: nat) -> int
    decreases n,
{
    if n == 0 {
        value
    } else {
        lerp_spec(smooth(value, target, t, (n - 1) as nat), target, t)
    }
}

/// With a fraction between zero and one the result lies between the two ends:
/// interpolation never overshoots. At zero it is the start, at one the end.
pub proof fn lemma_lerp_between(a: int, b: int, t: int)
    requires
        0 <= t <= SCALE,
    ensures
        a <= b ==> a <= lerp_spec(a, b, t) <= b,
        b <= a ==> b <= lerp_spec(a, b, t) <= a,
        lerp_spec(a, b, 0) == a,
        lerp_spec(a, b, SCALE as int) == b,
{
    let d = b - a;
    lemma_div_trunc_bounds(d * t, SCALE as int);
    lemma_div_trunc_bounds(d * SCALE, SCALE as int);
    lemma_div_trunc_bounds(d * 0, SCALE as int);
    let q = div_trunc(d * t, SCALE as int);
    if d >= 0 {
        assert(0 <= d * t <= d * SCALE) by (nonlinear_arith)
            requires
                d >= 0,
                0 <= t <= SCALE,
        ;
        assert(q <= d) by (nonlinear_arith)
            requires
                q * SCALE <= d * SCALE,
        ;
    } else {
        assert(d * SCALE <= d * t <= 0) by (nonlinear_arith)
            requires
                d < 0,
                0 <= t <= SCALE,
        ;
        assert(q >= d) by (nonlinear_arith)
            requires
                q * SCALE >= d * SCALE,
        ;
    }
    let full = div_trunc(d * SCALE, SCALE as int);
    assert(full == d) by (nonlinear_arith)
        requires
            d >= 0 ==> full * SCALE <= d * SCALE < full * SCALE + SCALE,
            d <= 0 ==> d * SCALE <= full * SCALE && full * SCALE - SCALE < d * SCALE,
    ;
}

/// A value that starts strictly away from its target moves strictly closer
/// whenever the step is at least one thousandth.
pub proof fn lemma_lerp_progress(a: int, b: int, t: int)
    requires
        0 <= t <= SCALE,
        abs_spec(b - a) * t >= SCALE,
    ensures
        abs_spec(b - lerp_spec(a, b, t)) < abs_spec(b - a),
{
    let d = b - a;
    lemma_lerp_between(a, b, t);
    lemma_div_trunc_bounds(d * t, SCALE as int);
    let q = div_trunc(d * t, SCALE as int);
    if d >= 0 {
        assert(q >= 1) by (nonlinear_arith)
            requires
                d * t >= SCALE,
                d * t < q * SCALE + SCALE,
        ;
    } else {
        assert((-d) * t == -(d * t)) by (nonlinear_arith);
        assert(q <= -1) by (nonlinear_arith)
            requires
                d * t <= -SCALE,
                q * SCALE - SCALE < d * t,
        ;
    }
}

/// With a fraction below one a value away from its target stays away from
/// it: smoothing comes as close as the rounding allows and never arrives.
pub proof fn lemma_lerp_never_arrives(a: int, b: int, t: int)
    requires
        0 <= t < SCALE,
        a != b,
    ensures
        lerp_spec(a, b, t) != b,
{
    let d = b - a;
    lemma_div_trunc_bounds(d * t, SCALE as int);
    let q = div_trunc(d * t, SCALE as int);
    if d > 0 {
        assert(d * t < d * SCALE) by (nonlinear_arith)
            requires
                d > 0,
                0 <= t < SCALE,
        ;
        assert(0 <= d * t) by (nonlinear_arith)
            requires
                d > 0,
                0 <= t,
        ;
        assert(q < d) by (nonlinear_arith)
            requires
                q * SCALE <= d * t,
                d * t < d * SCALE,
        ;
    } else {
        assert(d * t > d * SCALE) by (nonlinear_arith)
            requires
                d < 0,
                0 <= t < SCALE,
        ;
        assert(d * t <= 0) by (nonlinear_arith)
            requires
                d < 0,
                0 <= t,
        ;
        assert(q > d) by (nonlinear_arith)
            requires
                q * SCALE >= d * t,
                d * t > d * SCALE,
        ;
    }
}

/// One round of smoothing shrinks the gap to the target by the factor one
/// less the fraction, up to the rounding of the step: the new gap is no
/// smaller than that share of the old one, and larger by less than one
/// thousandth.
pub proof fn lemma_lerp_gap(a: int, b: int, t: int)
    requires
        0 <= t <= SCALE,
    ensures
        (SCALE - t) * abs_spec(b - a) <= SCALE * abs_spec(b - lerp_spec(a, b, t)),
        SCALE * abs_spec(b - lerp_spec(a, b, t)) < (SCALE - t) * abs_spec(b - a) + SCALE,
{
    let d = b - a;
    lemma_lerp_between(a, b, t);
    lemma_div_trunc_bounds(d * t, SCALE as int);
    let q = div_trunc(d * t, SCALE as int);
    if d >= 0 {
        assert(0 <= d * t) by (nonlinear_arith)
            requires
                d >= 0,
                0 <= t,
        ;
        assert((SCALE - t) * d == SCALE * d - d * t) by (nonlinear_arith);
        assert(SCALE * (d - q) == SCALE * d - q * SCALE) by (nonlinear_arith);
    } else {
        assert(d * t <= 0) by (nonlinear_arith)
            requires
                d < 0,
                0 <= t,
        ;
        assert((SCALE - t) * (-d) == d * t - SCALE * d) by (nonlinear_arith);
        assert(SCALE * (q - d) == q * SCALE - SCALE * d) by (nonlinear_arith);
    }
}

/// Over `n` rounds of smoothing the gap to the target shrinks geometrically,
/// by the factor one less the fraction per round. With `q = 1 - t / 1000`,
/// `g` the gap at first and `g_n` the gap after `n` rounds: `g_n` is no less
/// than `q^n * g`, and `g_n - 1000 / t` is no more than `q^n * (g - 1000 / t)`.
/// So the gap tends to less than `1000 / t` thousandths, where the rounded
/// step is nothing, and the value never passes the target.
pub proof fn lemma_smooth_gap(value: int, target: int, t: int, n: nat)
    requires
        0 <= t <= SCALE,
    ensures
        pow(SCALE - t, n) * abs_spec(target - value) <= pow(SCALE as int, n) * abs_spec(
            target - smooth(value, target, t, n),
        ),
        pow(SCALE as int, n) * (t * abs_spec(target - smooth(value, target, t, n)) - SCALE) <= pow(
            SCALE - t,
            n,
        ) * (t * abs_spec(target - value) - SCALE),
    decreases n,
{
    reveal(pow);
    let g0 = abs_spec(target - value);
    if n == 0 {
        assert(pow(SCALE - t, 0) == 1 && pow(SCALE as int, 0) == 1);
    } else {
        let m = (n - 1) as nat;
        lemma_smooth_gap(value, target, t, m);
        let before = smooth(value, target, t, m);
        lemma_lerp_gap(before, target, t);
        let g = abs_spec(target - before);
        let g1 = abs_spec(target - smooth(value, target, t, n));
        let low = pow(SCALE - t, m);
        let high = pow(SCALE as int, m);
        vstd::arithmetic::power::lemma_pow_positive(SCALE as int, m);
        if t < SCALE {
            vstd::arithmetic::power::lemma_pow_positive(SCALE - t, m);
        } else if m > 0 {
            vstd::arithmetic::power::lemma0_pow(m);
        }
        assert(low >= 0);
        assert(pow(SCALE - t, n) == (SCALE - t) * low);
        assert(pow(SCALE as int, n) == SCALE * high);
        assert((SCALE - t) * low * g0 <= SCALE * high * g1) by (nonlinear_arith)
            requires
                low * g0 <= high * g,
                (SCALE - t) * g <= SCALE * g1,
                high > 0,
                0 <= t <= SCALE,
        ;
        assert(SCALE * high * (t * g1 - SCALE) <= (SCALE - t) * low * (t * g0 - SCALE))
            by (nonlinear_arith)
            requires
                high * (t * g - SCALE) <= low * (t * g0 - SCALE),
                SCALE * g1 < (SCALE - t) * g + SCALE,
                high > 0,
                0 <= t <= SCALE,
        ;
    }
}

/// Repeated smoothing toward a target approaches it from one side: every
/// round is at least as close as the one before and none passes the target.
pub proof fn lemma_smooth_monotone(value: int, target: int, t: int, n: nat)
    requires
        0 <= t <= SCALE,
    ensures
        value <= target ==> value <= smooth(value, target, t, n) <= smooth(
            value,
            target,
            t,
            n + 1,
        ) <= target,
        target <= value ==> target <= smooth(value, target, t, n + 1) <= smooth(
            value,
            target,
            t,
            n,
        ) <= value,
    decreases n,
{
    if n > 0 {
        lemma_smooth_monotone(value, target, t, (n - 1) as nat);
    }
    lemma_lerp_between(smooth(value, target, t, n), target, t);
}

/// Interpolation between a value and another of its type.
pub trait Lerp: Sized {
    /// What `lerp` returns.
    spec fn lerp_value(self, other: Self, t: i64) -> Self;

    /// Whether the interpolated value can be represented.
    spec fn lerp_fits(self, other: Self, t: i64) -> bool;

    /// A fraction between zero and one always gives a representable value.
    proof fn lemma_unit_fits(self, other: Self, t: i64)
        requires
            0 <= t <= SCALE,
        ensures
            self.lerp_fits(other, t),
    ;

    /// Interpolates, or extrapolates, from `self` to `other` by the fraction
    /// `t`, in thousandths: at 0 the result is `self`, at 1000 it is `other`.
    fn lerp(self, other: Self, t: i64) -> (r: Self)
        requires
            self.lerp_fits(other, t),
        ensures
            r == self.lerp_value(other, t),
    ;

    /// As `lerp`, with `t` first held to the range from zero to one.
    fn lerp_bounded(self, other: Self, t: i64) -> (r: Self)
        ensures
            r == self.lerp_value(other, clamp_unit(t as int) as i64),
    {
        let bounded: i64 = if t < 0 {
            0
        } else if t > SCALE {
            SCALE
        } else {
            t
        };
        proof {
            self.lemma_unit_fits(other, bounded);
        }
        self.lerp(other, bounded)
    }
}

impl Lerp for i64 {
    open spec fn lerp_value(self, other: Self, t: i64) -> Self {
        lerp_spec(self as int, other as int, t as int) as i64
    }

    open spec fn lerp_fits(self, other: Self, t: i64) -> bool {
        i64::MIN <= lerp_spec(self as int, other as int, t as int) <= i64::MAX
    }

    proof fn lemma_unit_fits(self, other: Self, t: i64) {
        let r = lerp_spec(self as int, other as int, t as int);
        lemma_lerp_between(self as int, other as int, t as int);
        if self <= other {
            assert(self <= r <= other);
        } else {
            assert(other <= r <= self);
        }
        assert(i64::MIN <= r <= i64::MAX);
        assert(self.lerp_fits(other, t) == (i64::MIN <= r <= i64::MAX));
    }

    fn lerp(self, other: Self, t: i64) -> (r: Self) {
        let diff: i128 = (other as i128) - (self as i128);
        assert(-0x8000_0000_0000_0000_0000_0000_0000_0000 < diff * t
            < 0x8000_0000_0000_0000_0000_0000_0000_0000) by (nonlinear_arith)
            requires
                -0x1_0000_0000_0000_0000 < diff < 0x1_0000_0000_0000_0000,
                -0x8000_0000_0000_0000 <= t < 0x8000_0000_0000_0000,
        ;
        let product: i128 = diff * (t as i128);
        let step: i128 = div_toward_zero(product, SCALE as i128);
        proof {
            lemma_div_trunc_bounds(product as int, SCALE as int);
        }
        ((self as i128) + step) as i64
    }
}

} // verus!
