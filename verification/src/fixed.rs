//! Fixed-point scalar primitives shared by every effect.
//!
//! A *milli* value carries thousandths: intensities and normalized
//! coordinates live in `[0, 1000]`, phases in thousandths of a full turn
//! (so `1000` is one whole revolution), and screen positions in thousandths
//! of a cell.

use vstd::prelude::*;

verus! {

/// Sine of a phase in `[0, 500]` milliturns (the first half turn), in
/// milli-units, by the Bhaskara I rational approximation.
pub open spec fn spec_half_sin(t: int) -> int {
    let u = t * (500 - t);
    4000 * u / (312500 - u)
}

/// Sine of a phase in `[0, 1000)` milliturns, in milli-units.
pub open spec fn spec_sin_milli(t: int) -> int {
    if t <= 500 {
        spec_half_sin(t)
    } else {
        -spec_half_sin(t - 500)
    }
}

pub proof fn lemma_half_sin_bounds(t: int)
    requires
        0 <= t <= 500,
    ensures
        0 <= spec_half_sin(t) <= 1000,
{
    let u = t * (500 - t);
    assert(0 <= t * (500 - t) <= 62500) by (nonlinear_arith)
        requires 0 <= t <= 500;
    assert(250000 <= 312500 - u <= 312500);
    vstd::arithmetic::div_mod::lemma_div_pos_is_pos(4000 * u, 312500 - u);
    assert(4000 * u <= 1000 * (312500 - u)) by (nonlinear_arith)
        requires 0 <= u <= 62500;
    vstd::arithmetic::div_mod::lemma_div_is_ordered(4000 * u, 1000 * (312500 - u), 312500 - u);
    vstd::arithmetic::div_mod::lemma_div_by_multiple(1000, 312500 - u);
}

fn half_sin(t: u64) -> (r: u64)
    requires
        t <= 500,
    ensures
        r == spec_half_sin(t as int),
        r <= 1000,
{
    proof {
        assert(t * (500 - t) <= 62500) by (nonlinear_arith)
            requires 0 <= t <= 500;
        lemma_half_sin_bounds(t as int);
    }
    let u = t * (500 - t);
    (4000 * u) / (312500 - u)
}

/// Sine of an arbitrary phase given in milliturns, in milli-units.
/// The phase is reduced modulo one full turn.
pub fn sin_milli(t: u64) -> (r: i64)
    ensures
        r == spec_sin_milli((t % 1000) as int),
        -1000 <= r <= 1000,
{
    let tm = t % 1000;
    if tm <= 500 {
        let h = half_sin(tm);
        h as i64
    } else {
        proof {
            lemma_half_sin_bounds((tm - 500) as int);
        }
        let h = half_sin(tm - 500);
        -(h as i64)
    }
}

/// Scaling a non-negative value by a fraction at most one never enlarges
/// it and never drops below zero.
pub proof fn lemma_scale_le(a: int, b: int, c: int)
    requires
        0 <= a,
        0 <= b <= c,
        0 < c,
    ensures
        0 <= a * b / c <= a,
{
    vstd::arithmetic::div_mod::lemma_div_pos_is_pos(a * b, c);
    assert(a * b <= a * c) by (nonlinear_arith)
        requires 0 <= a, b <= c;
    vstd::arithmetic::div_mod::lemma_div_is_ordered(a * b, a * c, c);
    vstd::arithmetic::div_mod::lemma_div_by_multiple(a, c);
}

/// Reduction modulo one u64 revolution, for seed mixing that deliberately
/// wraps.
pub open spec fn wrap64(n: int) -> int {
    n % 0x1_0000_0000_0000_0000
}

pub proof fn lemma_wrap64_id(n: int)
    requires
        0 <= n < 0x1_0000_0000_0000_0000,
    ensures
        wrap64(n) == n,
{
    vstd::arithmetic::div_mod::lemma_small_mod(n as nat, 0x1_0000_0000_0000_0000);
}

/// Adding with u64 wraparound computes the sum modulo one revolution.
pub fn wrap_add64(a: u64, b: u64) -> (r: u64)
    ensures
        r == wrap64(a + b),
{
    proof {
        if a + b <= u64::MAX {
            lemma_wrap64_id(a + b);
        } else {
            vstd::arithmetic::div_mod::lemma_mod_sub_multiples_vanish(
                a + b - 0x1_0000_0000_0000_0000,
                0x1_0000_0000_0000_0000,
            );
            lemma_wrap64_id(a + b - 0x1_0000_0000_0000_0000);
        }
    }
    a.wrapping_add(b)
}

/// Multiplying with u64 wraparound computes the product modulo one
/// revolution.
pub fn wrap_mul64(a: u64, b: u64) -> (r: u64)
    ensures
        r == wrap64(a * b),
{
    a.wrapping_mul(b)
}

/// `r` is the integer square root of `n`.
pub open spec fn is_isqrt(n: int, r: int) -> bool {
    &&& 0 <= r
    &&& r * r <= n
    &&& (r + 1) * (r + 1) > n
}

pub proof fn lemma_isqrt_unique(n: int, r1: int, r2: int)
    requires
        is_isqrt(n, r1),
        is_isqrt(n, r2),
    ensures
        r1 == r2,
{
    if r1 < r2 {
        assert((r1 + 1) * (r1 + 1) <= r2 * r2) by (nonlinear_arith)
            requires 0 <= r1, 0 <= r2, r1 < r2;
    }
    if r2 < r1 {
        assert((r2 + 1) * (r2 + 1) <= r1 * r1) by (nonlinear_arith)
            requires 0 <= r1, 0 <= r2, r2 < r1;
    }
}

pub proof fn lemma_isqrt_monotone(n1: int, r1: int, n2: int, r2: int)
    requires
        is_isqrt(n1, r1),
        is_isqrt(n2, r2),
        n1 <= n2,
    ensures
        r1 <= r2,
{
    if r2 < r1 {
        assert((r2 + 1) * (r2 + 1) <= r1 * r1) by (nonlinear_arith)
            requires 0 <= r1, 0 <= r2, r2 < r1;
    }
}

/// The integer square root, as a spec-level function.
pub open spec fn spec_isqrt(n: int) -> int {
    choose|r: int| is_isqrt(n, r)
}

pub proof fn lemma_isqrt_val(n: int, r: int)
    requires
        is_isqrt(n, r),
    ensures
        spec_isqrt(n) == r,
{
    assert(exists|r2: int| is_isqrt(n, r2)) by {
        assert(is_isqrt(n, r));
    }
    lemma_isqrt_unique(n, spec_isqrt(n), r);
}

/// Integer square root by bisection.
pub fn isqrt(n: u64) -> (r: u64)
    ensures
        is_isqrt(n as int, r as int),
        r == spec_isqrt(n as int),
        r <= 0xFFFF_FFFF,
{
    let mut lo: u64 = 0;
    let mut hi: u64 = 0x1_0000_0000;
    proof {
        assert((0x1_0000_0000u64 as int) * (0x1_0000_0000u64 as int) > n as int);
    }
    while lo + 1 < hi
        invariant
            lo < hi <= 0x1_0000_0000,
            lo * lo <= n,
            (hi as int) * (hi as int) > n as int,
        decreases hi - lo,
    {
        let mid = lo + (hi - lo) / 2;
        assert(lo < mid < hi);
        proof {
            assert(mid * mid <= 0xFFFF_FFFFu64 * 0xFFFF_FFFFu64) by (nonlinear_arith)
                requires mid <= 0xFFFF_FFFFu64;
        }
        if mid * mid <= n {
            lo = mid;
        } else {
            hi = mid;
        }
    }
    proof {
        lemma_isqrt_val(n as int, lo as int);
    }
    lo
}

/// Square root of a milli-value: for `v` thousandths, the integer square
/// root of `1000 * v`, so that a perfect fraction `v = x^2 / 1000` comes
/// back as `x`.
pub open spec fn spec_sqrt_milli(v: int) -> int {
    spec_isqrt(1000 * v)
}

pub fn sqrt_milli(v: u64) -> (r: u64)
    requires
        v <= 1_000_000,
    ensures
        is_isqrt(1000 * v as int, r as int),
        r == spec_sqrt_milli(v as int),
        v <= 1000 ==> r <= 1000,
{
    let r = isqrt(1000 * v);
    proof {
        if v <= 1000 {
            assert(is_isqrt(1_000_000, 1000));
            lemma_isqrt_monotone(1000 * v as int, r as int, 1_000_000, 1000);
        }
    }
    r
}

/// Approximation of `v^(3/4)` on milli-values: two nested integer square
/// roots of `1000 * v^3`.
pub open spec fn spec_pow34_milli(v: int) -> int {
    spec_isqrt(spec_isqrt(1000 * v * v * v))
}

pub fn pow34_milli(v: u64) -> (r: u64)
    requires
        v <= 1000,
    ensures
        r == spec_pow34_milli(v as int),
        r <= 1000,
{
    proof {
        assert(v * v <= 1_000_000 && v * v * v <= 1_000_000_000) by (nonlinear_arith)
            requires v <= 1000;
    }
    let c = v * v * v;
    let s = isqrt(1000 * c);
    proof {
        assert(is_isqrt(1_000_000_000_000, 1_000_000));
        lemma_isqrt_monotone(1000 * c as int, s as int, 1_000_000_000_000, 1_000_000);
    }
    let r = isqrt(s);
    proof {
        assert(is_isqrt(1_000_000, 1000));
        lemma_isqrt_monotone(s as int, r as int, 1_000_000, 1000);
        assert(1000 * (v * v * v) == 1000 * v * v * v) by (nonlinear_arith);
    }
    r
}

/// Approximation of `v^(3/8)` on milli-values, as a spec-level function.
pub open spec fn spec_pow38_milli(v: int) -> int {
    spec_sqrt_milli(spec_pow34_milli(v))
}

/// Approximation of `v^(3/8)` on milli-values: the milli square root of
/// `pow34_milli(v)`.
pub fn pow38_milli(v: u64) -> (r: u64)
    requires
        v <= 1000,
    ensures
        r == spec_pow38_milli(v as int),
        r <= 1000,
{
    let p = pow34_milli(v);
    sqrt_milli(p)
}

/// Octant-linear pseudo-angle of the vector `(dx, dy)`, in milliturns:
/// 0 points along positive x, 250 along positive y, monotone around the
/// circle.  The zero vector maps to 0.
pub open spec fn spec_angle_milli(dx: int, dy: int) -> int {
    let ax = if dx < 0 { -dx } else { dx };
    let ay = if dy < 0 { -dy } else { dy };
    if ax + ay == 0 {
        0
    } else {
        let f = 250 * ay / (ax + ay);
        if dx >= 0 && dy >= 0 {
            f
        } else if dx < 0 && dy >= 0 {
            500 - f
        } else if dx < 0 {
            500 + f
        } else {
            (1000 - f) % 1000
        }
    }
}

pub fn angle_milli(dx: i64, dy: i64) -> (r: u64)
    requires
        -1_000_000_000_000 <= dx <= 1_000_000_000_000,
        -1_000_000_000_000 <= dy <= 1_000_000_000_000,
    ensures
        r == spec_angle_milli(dx as int, dy as int),
        r < 1000,
{
    let ax: u64 = if dx < 0 { (-dx) as u64 } else { dx as u64 };
    let ay: u64 = if dy < 0 { (-dy) as u64 } else { dy as u64 };
    if ax + ay == 0 {
        0
    } else {
        let f = (250 * ay) / (ax + ay);
        proof {
            vstd::arithmetic::div_mod::lemma_div_pos_is_pos(250 * ay as int, ax as int + ay);
            assert(250 * ay <= 250 * (ax + ay)) by (nonlinear_arith)
                requires ay >= 0, ax >= 0;
            vstd::arithmetic::div_mod::lemma_div_is_ordered(
                250 * ay as int,
                250 * (ax as int + ay),
                ax as int + ay,
            );
            vstd::arithmetic::div_mod::lemma_div_by_multiple(250, ax as int + ay);
        }
        if dx >= 0 && dy >= 0 {
            f
        } else if dx < 0 && dy >= 0 {
            500 - f
        } else if dx < 0 {
            500 + f
        } else {
            (1000 - f) % 1000
        }
    }
}

/// A coordinate normalized against a dimension, in thousandths; a zero
/// dimension counts as one, so the result is always defined.
pub open spec fn spec_norm_milli(v: int, d: int) -> int {
    v * 1000 / (if d < 1 { 1 } else { d })
}

pub fn norm_milli(v: u16, d: u16) -> (r: u64)
    ensures
        r == spec_norm_milli(v as int, d as int),
        r <= 65_535_000,
{
    let dd: u64 = if d < 1 { 1 } else { d as u64 };
    let r = (v as u64) * 1000 / dd;
    proof {
        vstd::arithmetic::div_mod::lemma_div_is_ordered(0, (v as u64 * 1000) as int, dd as int);
        vstd::arithmetic::div_mod::lemma_div_nonincreasing((v as u64 * 1000) as int, dd as int);
    }
    r
}

/// Where a moment falls within a repeating period, in milliturns.
pub open spec fn spec_phase_milli(elapsed: int, period: int) -> int {
    elapsed % period * 1000 / period
}

pub fn phase_milli(elapsed: u64, period: u64) -> (r: u64)
    requires
        1 <= period <= 1_000_000,
    ensures
        r == spec_phase_milli(elapsed as int, period as int),
        r < 1000,
{
    let m = elapsed % period;
    let r = m * 1000 / period;
    proof {
        assert(m * 1000 < period * 1000) by (nonlinear_arith)
            requires m < period;
        vstd::arithmetic::div_mod::lemma_multiply_divide_lt(
            m * 1000 as int,
            period as int,
            1000,
        );
        assert(period as int * 1000 == 1000 * (period as int)) by (nonlinear_arith);
    }
    r
}

} // verus!
