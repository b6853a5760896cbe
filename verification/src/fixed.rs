//! Fixed-point scalar arithmetic.
//!
//! Every scalar of the simulation is an [`Fx`]: an `i64` raw value read as
//! the real number `raw / SCALE`, with 16 fractional bits.  The arithmetic
//! policy is total and exactly specified:
//! - additions, subtractions, multiplications and divisions saturate at the
//!   `i64` range instead of overflowing;
//! - multiplication and division truncate toward zero;
//! - division by zero yields zero;
//! - the square root of a non-positive value is zero.

use vstd::prelude::*;

verus! {

/// Number of fractional steps per unit: scalars carry 16 fractional bits.
pub const SCALE: i64 = 65536;

/// A fixed-point scalar standing for the real number `raw / SCALE`.
#[derive(Clone, Copy, PartialEq, Eq, Structural, Debug)]
pub struct Fx {
    pub raw: i64,
}

/// Clamp an unbounded integer into the `i64` range.
pub open spec fn sat64(x: int) -> int {
    if x > i64::MAX as int {
        i64::MAX as int
    } else if x < i64::MIN as int {
        i64::MIN as int
    } else {
        x
    }
}

/// Truncating division: the quotient rounded toward zero, and zero when the
/// divisor is zero.
pub open spec fn div_trunc(a: int, b: int) -> int {
    if b == 0 {
        0
    } else {
        let q = (vstd::math::abs(a) / vstd::math::abs(b)) as int;
        if (a < 0) != (b < 0) {
            -q
        } else {
            q
        }
    }
}

/// The scalar whose raw value is `v` clamped into the `i64` range.
pub open spec fn fx_from(v: int) -> Fx {
    Fx { raw: sat64(v) as i64 }
}

pub open spec fn fx_add(a: Fx, b: Fx) -> Fx {
    fx_from(a.raw + b.raw)
}

pub open spec fn fx_sub(a: Fx, b: Fx) -> Fx {
    fx_from(a.raw - b.raw)
}

pub open spec fn fx_neg(a: Fx) -> Fx {
    fx_from(-(a.raw as int))
}

pub open spec fn fx_mul(a: Fx, b: Fx) -> Fx {
    fx_from(div_trunc(a.raw * b.raw, SCALE as int))
}

pub open spec fn fx_div(a: Fx, b: Fx) -> Fx {
    fx_from(div_trunc(a.raw * SCALE, b.raw as int))
}

/// `r` is the integer square root of `x`: the greatest integer whose square
/// does not exceed `x`.
pub open spec fn is_isqrt(x: int, r: int) -> bool {
    &&& r >= 0
    &&& r * r <= x
    &&& x < (r + 1) * (r + 1)
}

/// The integer square root of `x` (meaningful for `x >= 0`).
pub open spec fn sqrt_floor(x: int) -> int {
    choose|r: int| is_isqrt(x, r)
}

/// Fixed-point square root: zero on non-positive input, else the floor of
/// the square root in the same representation.
pub open spec fn fx_sqrt(a: Fx) -> Fx {
    if a.raw <= 0 {
        Fx { raw: 0 }
    } else {
        Fx { raw: sqrt_floor(a.raw * SCALE) as i64 }
    }
}

/// How the sign and magnitude of a product follow from its factors.
proof fn lemma_mul_sign_abs(a: int, b: int)
    by (nonlinear_arith)
    ensures
        vstd::math::abs(a * b) == vstd::math::abs(a) * vstd::math::abs(b),
        ((a < 0) != (b < 0)) && a != 0 && b != 0 ==> a * b < 0,
        ((a < 0) == (b < 0)) ==> a * b >= 0,
        ((a < 0) == (b < 0)) && a != 0 && b != 0 ==> a * b > 0,
        a == 0 || b == 0 ==> a * b == 0,
{
}

/// Truncating division undoes an exact multiplication: `(a*b) / b == a`
/// for a positive divisor.
pub proof fn lemma_div_trunc_exact(a: int, b: int)
    requires
        b > 0,
    ensures
        div_trunc(a * b, b) == a,
{
    lemma_mul_sign_abs(a, b);
    vstd::arithmetic::div_mod::lemma_div_by_multiple(
        vstd::math::abs(a) as int,
        vstd::math::abs(b) as int,
    );
    assert(vstd::math::abs(a * b) / vstd::math::abs(b) == vstd::math::abs(a));
}

/// The integer square root exists for every non-negative value, so
/// `sqrt_floor` returns it.
pub proof fn lemma_sqrt_floor_props(x: int)
    requires
        x >= 0,
    ensures
        is_isqrt(x, sqrt_floor(x)),
{
    lemma_isqrt_exists(x);
}

proof fn lemma_isqrt_exists(x: int)
    requires
        x >= 0,
    ensures
        exists|r: int| is_isqrt(x, r),
    decreases x,
{
    if x == 0 {
        assert(is_isqrt(0, 0));
    } else {
        let y = x - 1;
        lemma_isqrt_exists(y);
        let r = choose|r: int| is_isqrt(y, r);
        if x < (r + 1) * (r + 1) {
            assert(is_isqrt(x, r));
        } else {
            assert((r + 1) * (r + 1) < (r + 2) * (r + 2)) by (nonlinear_arith)
                requires
                    r >= 0,
            ;
            assert(is_isqrt(x, r + 1));
        }
    }
}

/// Saturating addition of a non-negative increment never decreases the
/// value.
pub proof fn lemma_fx_add_mono(a: Fx, d: Fx)
    requires
        d.raw >= 0,
    ensures
        fx_add(a, d).raw >= a.raw,
{
}

/// The product of non-negative scalars is non-negative.
pub proof fn lemma_fx_mul_nonneg(a: Fx, b: Fx)
    requires
        a.raw >= 0,
        b.raw >= 0,
    ensures
        fx_mul(a, b).raw >= 0,
{
    lemma_mul_sign_abs(a.raw as int, b.raw as int);
}

/// The quotient of non-negative scalars is non-negative.
pub proof fn lemma_fx_div_nonneg(a: Fx, b: Fx)
    requires
        a.raw >= 0,
        b.raw >= 0,
    ensures
        fx_div(a, b).raw >= 0,
{
}

/// A fixed-point square root is never negative.
pub proof fn lemma_fx_sqrt_nonneg(a: Fx)
    ensures
        fx_sqrt(a).raw >= 0,
{
    if a.raw > 0 {
        lemma_sqrt_floor_props(a.raw * SCALE);
        assert(sqrt_floor(a.raw * SCALE) < 0x10000000000int) by (nonlinear_arith)
            requires
                is_isqrt(a.raw * SCALE, sqrt_floor(a.raw * SCALE)),
                a.raw * SCALE < 0x100000000000000000000int,
        ;
    }
}

/// Any two integer square roots of the same value agree, so `sqrt_floor`
/// picks exactly the root a witness exhibits.
pub proof fn lemma_isqrt_unique(x: int, r: int)
    requires
        is_isqrt(x, r),
    ensures
        sqrt_floor(x) == r,
{
    assert(exists|s: int| is_isqrt(x, s)) by {
        assert(is_isqrt(x, r));
    }
    let s = choose|s: int| is_isqrt(x, s);
    if s < r {
        assert((s + 1) * (s + 1) <= r * r) by (nonlinear_arith)
            requires
                0 <= s + 1 <= r,
        ;
        assert(false);
    }
    if s > r {
        assert((r + 1) * (r + 1) <= s * s) by (nonlinear_arith)
            requires
                0 <= r + 1 <= s,
        ;
        assert(false);
    }
}

/// Magnitude of an `i64` as an unsigned 128-bit value.
fn mag_i64(x: i64) -> (r: u128)
    ensures
        r == vstd::math::abs(x as int),
{
    if x >= 0 {
        x as u128
    } else {
        (-(x as i128)) as u128
    }
}

/// Clamp a sign-magnitude value into the `i64` range.
fn sat_signed(neg: bool, m: u128) -> (r: i64)
    ensures
        r as int == sat64(
            if neg {
                -(m as int)
            } else {
                m as int
            },
        ),
{
    if neg {
        if m >= 9223372036854775808u128 {
            i64::MIN
        } else {
            -(m as i64)
        }
    } else {
        if m > 9223372036854775807u128 {
            i64::MAX
        } else {
            m as i64
        }
    }
}

/// Integer square root by bisection.
fn isqrt(x: u128) -> (r: u128)
    requires
        x < 0x100000000000000000000u128,
    ensures
        is_isqrt(x as int, r as int),
{
    let mut lo: u128 = 0;
    let mut hi: u128 = 0x10000000000u128;
    assert((0x10000000000u128 as int) * (0x10000000000u128 as int) == 0x100000000000000000000int)
        by (nonlinear_arith);
    while lo + 1 < hi
        invariant
            lo < hi <= 0x10000000000u128,
            (lo as int) * (lo as int) <= x as int,
            (x as int) < (hi as int) * (hi as int),
        decreases hi - lo,
    {
        let mid = lo + (hi - lo) / 2;
        assert((mid as int) * (mid as int) <= 0x100000000000000000000int) by (nonlinear_arith)
            requires
                mid <= 0x10000000000u128,
        ;
        let sq = mid * mid;
        if sq <= x {
            lo = mid;
        } else {
            hi = mid;
        }
    }
    lo
}

impl Fx {
    /// The scalar of integer value `v` (raw value `v * SCALE`).
    pub fn from_units(v: i32) -> (r: Fx)
        ensures
            r.raw == v * SCALE,
    {
        Fx { raw: (v as i64) * SCALE }
    }

    pub fn zero() -> (r: Fx)
        ensures
            r.raw == 0,
    {
        Fx { raw: 0 }
    }

    pub fn one() -> (r: Fx)
        ensures
            r.raw == SCALE,
    {
        Fx { raw: SCALE }
    }

    /// Saturating addition.
    pub fn sat_add(self, o: Fx) -> (r: Fx)
        ensures
            r == fx_add(self, o),
    {
        let s: i128 = self.raw as i128 + o.raw as i128;
        if s > i64::MAX as i128 {
            Fx { raw: i64::MAX }
        } else if s < i64::MIN as i128 {
            Fx { raw: i64::MIN }
        } else {
            Fx { raw: s as i64 }
        }
    }

    /// Saturating subtraction.
    pub fn sat_sub(self, o: Fx) -> (r: Fx)
        ensures
            r == fx_sub(self, o),
    {
        let s: i128 = self.raw as i128 - o.raw as i128;
        if s > i64::MAX as i128 {
            Fx { raw: i64::MAX }
        } else if s < i64::MIN as i128 {
            Fx { raw: i64::MIN }
        } else {
            Fx { raw: s as i64 }
        }
    }

    /// Saturating negation.
    pub fn neg(self) -> (r: Fx)
        ensures
            r == fx_neg(self),
    {
        if self.raw == i64::MIN {
            Fx { raw: i64::MAX }
        } else {
            Fx { raw: -self.raw }
        }
    }

    /// Saturating, truncating multiplication.
    pub fn sat_mul(self, o: Fx) -> (r: Fx)
        ensures
            r == fx_mul(self, o),
    {
        let neg = (self.raw < 0) != (o.raw < 0);
        let ma = mag_i64(self.raw);
        let mb = mag_i64(o.raw);
        assert((ma as int) * (mb as int) < 0x100000000000000000000000000000000int)
            by (nonlinear_arith)
            requires
                ma <= 0x8000000000000000u128,
                mb <= 0x8000000000000000u128,
        ;
        let p = ma * mb;
        let q = p / 65536u128;
        proof {
            lemma_mul_sign_abs(self.raw as int, o.raw as int);
        }
        Fx { raw: sat_signed(neg, q) }
    }

    /// Saturating, truncating division; division by zero yields zero.
    pub fn sat_div(self, o: Fx) -> (r: Fx)
        ensures
            r == fx_div(self, o),
    {
        if o.raw == 0 {
            return Fx { raw: 0 };
        }
        let neg = (self.raw < 0) != (o.raw < 0);
        let ma = mag_i64(self.raw);
        let mb = mag_i64(o.raw);
        let p = ma * 65536u128;
        let q = p / mb;
        proof {
            lemma_mul_sign_abs(self.raw as int, SCALE as int);
        }
        Fx { raw: sat_signed(neg, q) }
    }

    /// Fixed-point square root: zero on non-positive input.
    pub fn sqrt(self) -> (r: Fx)
        ensures
            r == fx_sqrt(self),
    {
        if self.raw <= 0 {
            return Fx { raw: 0 };
        }
        let m = (self.raw as u128) * 65536u128;
        let s = isqrt(m);
        proof {
            lemma_isqrt_unique(m as int, s as int);
            assert(s < 0x10000000000u128) by (nonlinear_arith)
                requires
                    is_isqrt(m as int, s as int),
                    m < 0x100000000000000000000u128,
            ;
        }
        Fx { raw: s as i64 }
    }
}

} // verus!
