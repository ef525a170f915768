//! Saturating fixed-point scalars.
//!
//! Every quantity in the simulation (coordinates, velocities, masses,
//! times) is a fixed-point number: an `i128` holding the real value
//! multiplied by [`SCALE`].  Products and quotients round toward zero and
//! every result is clamped to the range `[-LIM, LIM]`, so all operations
//! are total and their results are stated exactly by the spec functions
//! below.  A quotient with zero divisor is defined to be zero; callers for
//! whom that case is meaningful say so in their own contracts.

use vstd::prelude::*;

verus! {

/// Number of fixed-point units per whole unit.
pub const SCALE: i128 = 1_000_000_000;

/// Largest magnitude a scalar may hold.
pub const LIM: i128 = 1_000_000_000_000_000_000;

/// The scalar is within the representable range.
pub open spec fn s_ok(a: int) -> bool {
    -(LIM as int) <= a <= LIM as int
}

/// Magnitude of a mathematical integer.
pub open spec fn abs_i(a: int) -> int {
    if a < 0 { -a } else { a }
}

/// Saturate to the representable range.
pub open spec fn clamp_s(a: int) -> int {
    if a > LIM as int {
        LIM as int
    } else if a < -(LIM as int) {
        -(LIM as int)
    } else {
        a
    }
}

/// Fixed-point product before saturation: the magnitudes multiply, the
/// extra factor of `SCALE` divides out, rounding toward zero.
pub open spec fn mul_down(a: int, b: int) -> int {
    let m = (abs_i(a) * abs_i(b)) / (SCALE as int);
    if (a < 0) != (b < 0) { -m } else { m }
}

/// Saturating fixed-point product.
pub open spec fn fmul_s(a: int, b: int) -> int {
    clamp_s(mul_down(a, b))
}

/// Fixed-point quotient before saturation, rounding toward zero.
pub open spec fn div_down(a: int, b: int) -> int
    recommends b != 0,
{
    let m = (abs_i(a) * (SCALE as int)) / abs_i(b);
    if (a < 0) != (b < 0) { -m } else { m }
}

/// Saturating fixed-point quotient; a zero divisor yields zero.
pub open spec fn fdiv_s(a: int, b: int) -> int {
    if b == 0 { 0 } else { clamp_s(div_down(a, b)) }
}

/// Saturating sum.
pub open spec fn fadd_s(a: int, b: int) -> int {
    clamp_s(a + b)
}

/// Saturating difference.
pub open spec fn fsub_s(a: int, b: int) -> int {
    clamp_s(a - b)
}

/// Saturating negation (the range is symmetric, so this is exact).
pub open spec fn fneg_s(a: int) -> int {
    clamp_s(-a)
}

/// `r` is the floor of the square root of `n`.
pub open spec fn is_sqrt(n: int, r: int) -> bool {
    0 <= r && r * r <= n && n < (r + 1) * (r + 1)
}

/// Floor square root of a non-negative integer.
pub open spec fn sqrt_floor(n: int) -> int {
    choose|r: int| is_sqrt(n, r)
}

/// Fixed-point square root of a non-negative scalar, rounding down.
pub open spec fn fsqrt_s(v: int) -> int
    recommends 0 <= v,
{
    sqrt_floor(v * (SCALE as int))
}

/// The floor square root is unique.
pub proof fn lemma_sqrt_unique(n: int, r: int)
    requires
        is_sqrt(n, r),
    ensures
        r == sqrt_floor(n),
{
    assert(exists|q: int| is_sqrt(n, q));
    let s = sqrt_floor(n);
    assert(is_sqrt(n, s));
    if r < s {
        assert(false) by (nonlinear_arith)
            requires
                is_sqrt(n, r),
                is_sqrt(n, s),
                r < s;
    }
    if s < r {
        assert(false) by (nonlinear_arith)
            requires
                is_sqrt(n, r),
                is_sqrt(n, s),
                s < r;
    }
}

/// Negating either factor negates the fixed-point product exactly:
/// rounding toward zero and the symmetric clamp range are both odd.
pub proof fn lemma_mul_down_neg(a: int, b: int)
    ensures
        mul_down(-a, b) == -mul_down(a, b),
        mul_down(a, -b) == -mul_down(a, b),
        mul_down(-a, -b) == mul_down(a, b),
{
    assert(abs_i(-a) == abs_i(a));
    assert(abs_i(-b) == abs_i(b));
    if a == 0 || b == 0 {
        assert(abs_i(a) * abs_i(b) == 0) by (nonlinear_arith)
            requires
                abs_i(a) == 0 || abs_i(b) == 0;
    }
}

/// Saturated form of the same fact.
pub proof fn lemma_fmul_neg(a: int, b: int)
    ensures
        fmul_s(-a, b) == -fmul_s(a, b),
        fmul_s(a, -b) == -fmul_s(a, b),
        fmul_s(-a, -b) == fmul_s(a, b),
{
    lemma_mul_down_neg(a, b);
}

/// Runtime check that a raw value is a representable scalar.
pub fn scalar_ok(a: i128) -> (r: bool)
    ensures
        r == s_ok(a as int),
{
    -LIM <= a && a <= LIM
}

/// Saturate a raw value to the representable range.
pub fn clamp(a: i128) -> (r: i128)
    ensures
        r as int == clamp_s(a as int),
{
    if a > LIM {
        LIM
    } else if a < -LIM {
        -LIM
    } else {
        a
    }
}

/// Saturating fixed-point sum.
pub fn fadd(a: i128, b: i128) -> (r: i128)
    requires
        s_ok(a as int),
        s_ok(b as int),
    ensures
        r as int == fadd_s(a as int, b as int),
        s_ok(r as int),
{
    clamp(a + b)
}

/// Saturating fixed-point difference.
pub fn fsub(a: i128, b: i128) -> (r: i128)
    requires
        s_ok(a as int),
        s_ok(b as int),
    ensures
        r as int == fsub_s(a as int, b as int),
        s_ok(r as int),
{
    clamp(a - b)
}

/// Saturating fixed-point negation.
pub fn fneg(a: i128) -> (r: i128)
    requires
        s_ok(a as int),
    ensures
        r as int == fneg_s(a as int),
        s_ok(r as int),
{
    clamp(-a)
}

/// Saturating fixed-point product, rounding toward zero.
pub fn fmul(a: i128, b: i128) -> (r: i128)
    requires
        s_ok(a as int),
        s_ok(b as int),
    ensures
        r as int == fmul_s(a as int, b as int),
        s_ok(r as int),
{
    let sign_neg = (a < 0) != (b < 0);
    let ma: i128 = if a < 0 { -a } else { a };
    let mb: i128 = if b < 0 { -b } else { b };
    proof {
        assert((ma as int) * (mb as int) <= (LIM as int) * (LIM as int)) by (nonlinear_arith)
            requires
                0 <= ma as int <= LIM as int,
                0 <= mb as int <= LIM as int;
    }
    let p: i128 = ma * mb;
    let q: i128 = p / SCALE;
    clamp(if sign_neg { -q } else { q })
}

/// Saturating fixed-point quotient, rounding toward zero; divisor zero
/// yields zero.
pub fn fdiv(a: i128, b: i128) -> (r: i128)
    requires
        s_ok(a as int),
        s_ok(b as int),
    ensures
        r as int == fdiv_s(a as int, b as int),
        s_ok(r as int),
{
    if b == 0 {
        return 0;
    }
    let sign_neg = (a < 0) != (b < 0);
    let ma: i128 = if a < 0 { -a } else { a };
    let mb: i128 = if b < 0 { -b } else { b };
    let p: i128 = ma * SCALE;
    let q: i128 = p / mb;
    clamp(if sign_neg { -q } else { q })
}

/// Floor square root by bisection.
pub fn isqrt(n: i128) -> (r: i128)
    requires
        0 <= n <= 1_000_000_000_000_000_000_000_000_000,
    ensures
        r as int == sqrt_floor(n as int),
        is_sqrt(n as int, r as int),
{
    let mut lo: i128 = 0;
    let mut hi: i128 = 40_000_000_000_000;
    proof {
        assert((hi as int) * (hi as int) > n as int);
    }
    while hi - lo > 1
        invariant
            0 <= lo < hi <= 40_000_000_000_000,
            (lo as int) * (lo as int) <= n as int,
            (n as int) < (hi as int) * (hi as int),
        decreases hi - lo,
    {
        let mid: i128 = lo + (hi - lo) / 2;
        proof {
            assert((mid as int) * (mid as int) <= 1_600_000_000_000_000_000_000_000_000)
                by (nonlinear_arith)
                requires
                    0 <= mid as int <= 40_000_000_000_000;
        }
        if mid * mid <= n {
            lo = mid;
        } else {
            hi = mid;
        }
    }
    proof {
        assert(is_sqrt(n as int, lo as int));
        lemma_sqrt_unique(n as int, lo as int);
    }
    lo
}

/// Fixed-point square root of a non-negative scalar.
pub fn fsqrt(v: i128) -> (r: i128)
    requires
        0 <= v <= LIM,
    ensures
        r as int == fsqrt_s(v as int),
        is_sqrt((v as int) * (SCALE as int), r as int),
        0 <= r <= LIM,
{
    let r = isqrt(v * SCALE);
    proof {
        assert(r as int <= LIM as int) by (nonlinear_arith)
            requires
                is_sqrt((v as int) * (SCALE as int), r as int),
                (v as int) * (SCALE as int) <= 1_000_000_000_000_000_000_000_000_000,
                LIM as int == 1_000_000_000_000_000_000;
    }
    r
}

} // verus!
