//! Saturating fixed-point scalars.
//!
//! A scalar is an `i64` holding a real value scaled by [`SCALE`]: the stored
//! integer `v` stands for the real number `v / SCALE`.  Every operation
//! computes the exact mathematical result, truncates fractions toward zero,
//! and saturates at [`FIX_MAX`] / [`FIX_MIN`], so all operations are total
//! and their results are pinned down exactly by the spec functions below.

use vstd::prelude::*;

verus! {

/// Number of fractional steps per unit: the stored `i64` is the real value
/// times `SCALE`.
pub const SCALE: i64 = 65536;

/// The scalar representing one.
pub const ONE: i64 = 65536;

/// The scalar representing one half.
pub const HALF: i64 = 32768;

/// The scalar representing two.
pub const TWO: i64 = 131072;

/// Largest representable scalar; saturation clamps here.
pub const FIX_MAX: i64 = 0x7fff_ffff_ffff_ffff;

/// Smallest representable scalar (the negation of `FIX_MAX`, so that
/// negation never overflows).
pub const FIX_MIN: i64 = -0x7fff_ffff_ffff_ffff;

/// Clamp an unbounded integer into the representable scalar range.
pub open spec fn sat(x: int) -> int {
    if x > FIX_MAX {
        FIX_MAX as int
    } else if x < FIX_MIN {
        FIX_MIN as int
    } else {
        x
    }
}

/// Division truncated toward zero (the rounding of the scalar operations),
/// defined for `d != 0` in terms of Euclidean division on magnitudes.
pub open spec fn tdiv(x: int, d: int) -> int {
    if x >= 0 && d > 0 {
        x / d
    } else if x < 0 && d > 0 {
        -((-x) / d)
    } else if x >= 0 {
        -(x / (-d))
    } else {
        (-x) / (-d)
    }
}

/// Saturating scalar addition.
pub open spec fn fadd(a: int, b: int) -> int {
    sat(a + b)
}

/// Saturating scalar subtraction.
pub open spec fn fsub(a: int, b: int) -> int {
    sat(a - b)
}

/// Saturating scalar negation.
pub open spec fn fneg(a: int) -> int {
    sat(-a)
}

/// Saturating scalar multiplication: the exact product, rescaled with
/// truncation toward zero.
pub open spec fn fmul(a: int, b: int) -> int {
    sat(tdiv(a * b, SCALE as int))
}

/// Saturating scalar division.  Division by zero saturates to the signed
/// infinity stand-in (`FIX_MAX` / `FIX_MIN`), mirroring how a float would
/// hand back an infinity that then propagates.
pub open spec fn fdiv(a: int, b: int) -> int {
    if b == 0 {
        if a > 0 {
            FIX_MAX as int
        } else if a < 0 {
            FIX_MIN as int
        } else {
            0
        }
    } else {
        sat(tdiv(a * SCALE, b))
    }
}

/// Scalar minimum.
pub open spec fn fmin(a: int, b: int) -> int {
    if a <= b {
        a
    } else {
        b
    }
}

/// Scalar absolute value: exact for every representable scalar, since the
/// range is symmetric (only the unrepresentable `i64::MIN` saturates).
pub open spec fn fabs(a: int) -> int {
    if a >= 0 {
        sat(a)
    } else {
        sat(-a)
    }
}

/// Floor of the square root, as a function of the unscaled integer argument.
pub open spec fn sqrt_floor(x: int) -> int
    decreases x,
{
    if x <= 0 {
        0
    } else {
        let p = sqrt_floor(x - 1);
        if (p + 1) * (p + 1) <= x {
            p + 1
        } else {
            p
        }
    }
}

/// Scalar square root: the scaled floor of the square root of a nonnegative
/// scalar (`fsqrt(rep of v) == rep of floor_to_resolution(sqrt(v))`).
pub open spec fn fsqrt(a: int) -> int {
    sqrt_floor(a * SCALE)
}

/// `r` is the integer square root of `x`.
pub open spec fn is_sqrt_floor(x: int, r: int) -> bool {
    r >= 0 && r * r <= x && (r + 1) * (r + 1) > x
}

/// `sqrt_floor` meets its defining property for nonnegative arguments.
pub proof fn lemma_sqrt_floor_is(x: int)
    requires
        x >= 0,
    ensures
        is_sqrt_floor(x, sqrt_floor(x)),
    decreases x,
{
    if x == 0 {
        assert(sqrt_floor(0) == 0);
    } else {
        lemma_sqrt_floor_is(x - 1);
        let p = sqrt_floor(x - 1);
        assert(p >= 0 && p * p <= x - 1 && (p + 1) * (p + 1) > x - 1);
        if (p + 1) * (p + 1) <= x {
            assert((p + 2) * (p + 2) > x) by (nonlinear_arith)
                requires
                    p >= 0,
                    (p + 1) * (p + 1) > x - 1,
                    (p + 1) * (p + 1) <= x,
            ;
        }
    }
}

/// The integer square root is unique.
pub proof fn lemma_sqrt_floor_unique(x: int, a: int, b: int)
    requires
        is_sqrt_floor(x, a),
        is_sqrt_floor(x, b),
    ensures
        a == b,
{
    if a < b {
        assert((a + 1) * (a + 1) <= b * b) by (nonlinear_arith)
            requires
                0 <= a < b,
        ;
    }
    if b < a {
        assert((b + 1) * (b + 1) <= a * a) by (nonlinear_arith)
            requires
                0 <= b < a,
        ;
    }
}

/// Multiplying by zero gives exactly zero.
pub proof fn lemma_fmul_zero()
    ensures
        forall|a: int| #[trigger] fmul(a, 0) == 0,
{
    assert forall|a: int| #[trigger] fmul(a, 0) == 0 by {
        assert(a * 0 == 0) by (nonlinear_arith);
        vstd::arithmetic::div_mod::lemma_div_of0(65536);
    };
}

/// Multiplying a representable scalar by one gives it back exactly.
pub proof fn lemma_fmul_one()
    ensures
        forall|a: int|
            (-(FIX_MAX as int) <= a <= FIX_MAX as int) ==> #[trigger] fmul(a, ONE as int) == a,
{
    assert forall|a: int|
        (-(FIX_MAX as int) <= a <= FIX_MAX as int) implies #[trigger] fmul(a, ONE as int)
        == a by {
        if a >= 0 {
            vstd::arithmetic::div_mod::lemma_div_multiples_vanish(a, 65536);
            assert(a * 65536 == 65536 * a) by (nonlinear_arith);
        } else {
            vstd::arithmetic::div_mod::lemma_div_multiples_vanish(-a, 65536);
            assert(a * 65536 < 0 && (-(a * 65536)) == 65536 * (-a)) by (nonlinear_arith)
                requires
                    a < 0,
            ;
        }
    };
}

/// Truncating division is monotone in the dividend, for a positive divisor.
pub proof fn lemma_tdiv_mono(x1: int, x2: int, d: int)
    requires
        x1 <= x2,
        d > 0,
    ensures
        tdiv(x1, d) <= tdiv(x2, d),
{
    if x1 >= 0 {
        vstd::arithmetic::div_mod::lemma_div_is_ordered(x1, x2, d);
    } else if x2 >= 0 {
        vstd::arithmetic::div_mod::lemma_div_pos_is_pos(-x1, d);
        vstd::arithmetic::div_mod::lemma_div_pos_is_pos(x2, d);
    } else {
        vstd::arithmetic::div_mod::lemma_div_is_ordered(-x2, -x1, d);
    }
}

/// Scalar division is monotone in the numerator, for a nonnegative
/// denominator (division by zero saturates by the numerator's sign, which
/// is monotone as well).
pub proof fn lemma_fdiv_mono(n1: int, n2: int, d: int)
    requires
        n1 <= n2,
        d >= 0,
    ensures
        fdiv(n1, d) <= fdiv(n2, d),
{
    if d > 0 {
        lemma_tdiv_mono(n1 * 65536, n2 * 65536, d);
    }
}

/// The scalar square root is never negative.
pub proof fn lemma_fsqrt_nonneg(a: int)
    ensures
        fsqrt(a) >= 0,
{
    if a >= 0 {
        lemma_sqrt_floor_is(a * 65536);
    }
}

/// Saturate a wide intermediate into a scalar.
pub fn sat_narrow(x: i128) -> (r: i64)
    ensures
        r as int == sat(x as int),
{
    if x > FIX_MAX as i128 {
        FIX_MAX
    } else if x < FIX_MIN as i128 {
        FIX_MIN
    } else {
        x as i64
    }
}

/// Scalar addition.
pub fn fx_add(a: i64, b: i64) -> (r: i64)
    ensures
        r as int == fadd(a as int, b as int),
{
    sat_narrow(a as i128 + b as i128)
}

/// Scalar subtraction.
pub fn fx_sub(a: i64, b: i64) -> (r: i64)
    ensures
        r as int == fsub(a as int, b as int),
{
    sat_narrow(a as i128 - b as i128)
}

/// Scalar negation.
pub fn fx_neg(a: i64) -> (r: i64)
    ensures
        r as int == fneg(a as int),
{
    sat_narrow(-(a as i128))
}

/// Truncating division on wide intermediates, for a positive divisor.
fn tdiv_wide(x: i128, d: i128) -> (r: i128)
    requires
        d > 0,
        x > i128::MIN,
    ensures
        r as int == tdiv(x as int, d as int),
        x >= 0 ==> 0 <= r <= x,
        x < 0 ==> x <= r <= 0,
{
    broadcast use vstd::arithmetic::div_mod::lemma_div_nonincreasing;
    broadcast use vstd::arithmetic::div_mod::lemma_div_pos_is_pos;

    if x >= 0 {
        let q: u128 = (x as u128) / (d as u128);
        q as i128
    } else {
        let xm: u128 = (-x) as u128;
        let q: u128 = xm / (d as u128);
        -(q as i128)
    }
}

/// Scalar multiplication.
pub fn fx_mul(a: i64, b: i64) -> (r: i64)
    ensures
        r as int == fmul(a as int, b as int),
{
    proof {
        assert(-0x40000000000000000000000000000000 <= (a as int) * (b as int)
            <= 0x40000000000000000000000000000000) by (nonlinear_arith)
            requires
                -0x8000_0000_0000_0000 <= a as int <= 0x7fff_ffff_ffff_ffff,
                -0x8000_0000_0000_0000 <= b as int <= 0x7fff_ffff_ffff_ffff,
        ;
    }
    let p: i128 = (a as i128) * (b as i128);
    let q: i128 = tdiv_wide(p, 65536);
    sat_narrow(q)
}

/// Scalar division.
pub fn fx_div(a: i64, b: i64) -> (r: i64)
    ensures
        r as int == fdiv(a as int, b as int),
{
    if b == 0 {
        if a > 0 {
            FIX_MAX
        } else if a < 0 {
            FIX_MIN
        } else {
            0i64
        }
    } else {
        let p: i128 = (a as i128) * 65536;
        if b > 0 {
            sat_narrow(tdiv_wide(p, b as i128))
        } else {
            sat_narrow(tdiv_wide(-p, -(b as i128)))
        }
    }
}

/// Scalar minimum.
pub fn fx_min(a: i64, b: i64) -> (r: i64)
    ensures
        r as int == fmin(a as int, b as int),
{
    if a <= b {
        a
    } else {
        b
    }
}

/// Scalar absolute value.
pub fn fx_abs(a: i64) -> (r: i64)
    ensures
        r as int == fabs(a as int),
{
    if a >= 0 {
        a
    } else {
        sat_narrow(-(a as i128))
    }
}

/// Clamp a scalar into `[lo, hi]`.
pub open spec fn fclamp(x: int, lo: int, hi: int) -> int {
    if x < lo {
        lo
    } else if x > hi {
        hi
    } else {
        x
    }
}

/// Clamp a scalar into `[lo, hi]`.
pub fn fx_clamp(x: i64, lo: i64, hi: i64) -> (r: i64)
    requires
        lo <= hi,
    ensures
        r as int == fclamp(x as int, lo as int, hi as int),
{
    if x < lo {
        lo
    } else if x > hi {
        hi
    } else {
        x
    }
}

/// Scalar square root, by binary search for the floor of the square root
/// of the widened argument.  A negative argument (where floating-point
/// arithmetic would produce NaN) yields zero.
pub fn fx_sqrt(a: i64) -> (r: i64)
    ensures
        r as int == fsqrt(a as int),
        r >= 0,
{
    if a < 0 {
        proof {
            assert((a as int) * 65536 < 0) by (nonlinear_arith)
                requires
                    (a as int) < 0,
            ;
        }
        return 0i64;
    }
    let v: u128 = (a as u128) * 65536;
    let mut lo: u128 = 0;
    let mut hi: u128 = 0x200_0000_0000;
    proof {
        assert(0x200_0000_0000 * 0x200_0000_0000 > v as int) by (nonlinear_arith)
            requires
                v as int <= 0x7fff_ffff_ffff_ffff * 65536,
        ;
    }
    while lo + 1 < hi
        invariant
            lo < hi <= 0x200_0000_0000,
            (lo as int) * (lo as int) <= v as int,
            (hi as int) * (hi as int) > v as int,
        decreases hi - lo,
    {
        proof {
            vstd::arithmetic::div_mod::lemma_div_is_ordered(2, hi as int - lo as int, 2);
            vstd::arithmetic::div_mod::lemma_div_decreases(hi as int - lo as int, 2);
        }
        let mid: u128 = lo + (hi - lo) / 2;
        proof {
            assert((mid as int) * (mid as int) <= 0x200_0000_0000 * 0x200_0000_0000)
                by (nonlinear_arith)
                requires
                    0 <= mid as int <= 0x200_0000_0000,
            ;
        }
        if mid * mid <= v {
            lo = mid;
        } else {
            hi = mid;
        }
    }
    proof {
        lemma_sqrt_floor_is(v as int);
        lemma_sqrt_floor_unique(v as int, lo as int, sqrt_floor(v as int));
    }
    lo as i64
}

} // verus!
