//! Fixed-point numbers: an `i64` counts thousandths of a unit.

use vstd::prelude::*;

verus! {

/// How many steps make one unit.
pub const SCALE: i64 = 1000;

/// Largest magnitude of a coordinate, a speed or a window size, in thousandths.
pub const MAX_COORD: i64 = 1_000_000_000_000;

/// Largest sprite or atlas extent, in thousandths.
pub const MAX_EXTENT: i64 = 1_000_000_000;

/// `n / d` rounded toward zero, for a positive divisor.
pub open spec fn div_trunc(n: int, d: int) -> int
    recommends
        d > 0,
{
    if n >= 0 {
        n / d
    } else {
        -((-n) / d)
    }
}

/// The magnitude of `x`.
pub open spec fn abs_spec(x: int) -> int {
    if x >= 0 {
        x
    } else {
        -x
    }
}

/// Whether `x` lies within `bound` of zero.
pub open spec fn within(x: int, bound: int) -> bool {
    -bound <= x <= bound
}

/// The product of two fixed-point numbers, rounded toward zero.
pub open spec fn mul_fixed_spec(a: int, b: int) -> int {
    div_trunc(a * b, SCALE as int)
}

/// Truncation never moves a quotient away from zero, and loses less than one.
pub proof fn lemma_div_trunc_bounds(n: int, d: int)
    requires
        d > 0,
    ensures
        n >= 0 ==> 0 <= div_trunc(n, d) * d <= n < div_trunc(n, d) * d + d,
        n <= 0 ==> n <= div_trunc(n, d) * d <= 0 && div_trunc(n, d) * d - d < n,
        abs_spec(div_trunc(n, d)) <= abs_spec(n),
{
    if n >= 0 {
        vstd::arithmetic::div_mod::lemma_fundamental_div_mod(n, d);
        vstd::arithmetic::div_mod::lemma_mod_bound(n, d);
        vstd::arithmetic::div_mod::lemma_div_pos_is_pos(n, d);
        assert(n == d * (n / d) + n % d);
        assert(d * (n / d) == (n / d) * d) by (nonlinear_arith);
        assert((n / d) <= n) by (nonlinear_arith)
            requires
                0 <= n / d,
                (n / d) * d <= n,
                d >= 1,
        ;
    } else {
        let m = -n;
        vstd::arithmetic::div_mod::lemma_fundamental_div_mod(m, d);
        vstd::arithmetic::div_mod::lemma_mod_bound(m, d);
        vstd::arithmetic::div_mod::lemma_div_pos_is_pos(m, d);
        assert(m == d * (m / d) + m % d);
        assert(d * (m / d) == (m / d) * d) by (nonlinear_arith);
        assert((-(m / d)) * d == -((m / d) * d)) by (nonlinear_arith);
        assert((m / d) <= m) by (nonlinear_arith)
            requires
                0 <= m / d,
                (m / d) * d <= m,
                d >= 1,
        ;
    }
}

/// The magnitude of `x`.
pub fn abs(x: i64) -> (r: i64)
    requires
        x > i64::MIN,
    ensures
        r == abs_spec(x as int),
{
    if x >= 0 {
        x
    } else {
        -x
    }
}

/// `n / d` rounded toward zero.
pub fn div_toward_zero(n: i128, d: i128) -> (r: i128)
    requires
        d > 0,
        n > i128::MIN,
    ensures
        r == div_trunc(n as int, d as int),
{
    if n >= 0 {
        n / d
    } else {
        let m: i128 = -n;
        proof {
            lemma_div_trunc_bounds(n as int, d as int);
        }
        -(m / d)
    }
}

/// The product of two fixed-point numbers, rounded toward zero.
pub fn mul_fixed(a: i64, b: i64) -> (r: i64)
    requires
        i64::MIN <= mul_fixed_spec(a as int, b as int) <= i64::MAX,
    ensures
        r == mul_fixed_spec(a as int, b as int),
{
    let wide: i128 = (a as i128) * (b as i128);
    let q: i128 = div_toward_zero(wide, SCALE as i128);
    q as i64
}

} // verus!
