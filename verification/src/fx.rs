//! Q32.32 fixed-point scalar arithmetic.
//!
//! A quantity `v` is represented by the `i64` value `v * 2^32`.  All
//! operations are total: additions, subtractions and multiplications
//! saturate at `FX_MAX` / `FX_MIN`, and the divisions used elsewhere in the
//! crate guard their divisors.  Keeping every value inside the symmetric
//! range `[-i64::MAX, i64::MAX]` means negation and absolute value never
//! overflow.

use vstd::prelude::*;

verus! {

/// Fixed-point scalar: the represented value times `2^32`.
pub type Fx = i64;

/// The fixed-point representation of 1.
pub const FX_ONE: i64 = 0x1_0000_0000;

/// Largest representable fixed-point value (about 2^31).
pub const FX_MAX: i64 = 0x7fff_ffff_ffff_ffff;

/// Smallest representable fixed-point value; the symmetric negative of
/// `FX_MAX`, so that absolute value stays in range.
pub const FX_MIN: i64 = -0x7fff_ffff_ffff_ffff;

/// Absolute value of a mathematical integer.
pub open spec fn sabs(x: int) -> int {
    if x < 0 {
        -x
    } else {
        x
    }
}

/// Clamp a mathematical integer into the representable range.
pub open spec fn sat(x: int) -> int {
    if x > FX_MAX {
        FX_MAX as int
    } else if x < FX_MIN {
        FX_MIN as int
    } else {
        x
    }
}

/// Division truncating toward zero (the rounding of the hardware ops this
/// library mirrors), defined for `d != 0` through nonnegative Euclidean
/// division.
pub open spec fn sdiv_trunc(n: int, d: int) -> int {
    if (n < 0) == (d < 0) {
        sabs(n) / sabs(d)
    } else {
        -(sabs(n) / sabs(d))
    }
}

/// The fixed-point product: `a * b / 2^32`, truncated toward zero and
/// saturated.
pub open spec fn fx_mul_s(a: int, b: int) -> int {
    sat(sdiv_trunc(a * b, FX_ONE as int))
}

/// The fixed-point quotient: `a * 2^32 / b`, truncated toward zero and
/// saturated.
pub open spec fn fx_div_s(a: int, b: int) -> int {
    sat(sdiv_trunc(a * (FX_ONE as int), b))
}

/// Saturated sum.
pub open spec fn fx_add_s(a: int, b: int) -> int {
    sat(a + b)
}

/// Saturated difference.
pub open spec fn fx_sub_s(a: int, b: int) -> int {
    sat(a - b)
}

/// Smaller of two values.
pub open spec fn fx_min_s(a: int, b: int) -> int {
    if a <= b {
        a
    } else {
        b
    }
}

/// Larger of two values.
pub open spec fn fx_max_s(a: int, b: int) -> int {
    if a >= b {
        a
    } else {
        b
    }
}

/// Truncating signed division on wide integers; the building block of the
/// rasterizer's exact rational interpolation.
pub fn tdiv128(n: i128, d: i128) -> (r: i128)
    requires
        d != 0,
        n != i128::MIN,
        d != i128::MIN,
    ensures
        r == sdiv_trunc(n as int, d as int),
{
    let neg: bool = (n < 0) != (d < 0);
    let mn: u128 = if n < 0 {
        (-n) as u128
    } else {
        n as u128
    };
    let md: u128 = if d < 0 {
        (-d) as u128
    } else {
        d as u128
    };
    let q: u128 = mn / md;
    assert(q <= mn) by {
        vstd::arithmetic::div_mod::lemma_div_nonincreasing(mn as int, md as int);
        vstd::arithmetic::div_mod::lemma_div_pos_is_pos(mn as int, md as int);
    }
    if neg {
        -(q as i128)
    } else {
        q as i128
    }
}

/// Euclidean (floor) division of an `i64` by a positive divisor; used for
/// lattice-cell and pixel-grid computations.
pub fn fdiv64(n: i64, d: i64) -> (r: i64)
    requires
        0 < d,
        FX_MIN <= n,
    ensures
        r == (n as int) / (d as int),
{
    if n >= 0 {
        let q: u64 = (n as u64) / (d as u64);
        proof {
            vstd::arithmetic::div_mod::lemma_div_nonincreasing(n as int, d as int);
            vstd::arithmetic::div_mod::lemma_div_pos_is_pos(n as int, d as int);
        }
        q as i64
    } else {
        let mn: u128 = (-n) as u128;
        let q: u128 = (mn + (d as u128) - 1) / (d as u128);
        proof {
            let nn = n as int;
            let dd = d as int;
            let qe = nn / dd;
            let re = nn % dd;
            vstd::arithmetic::div_mod::lemma_fundamental_div_mod(nn, dd);
            vstd::arithmetic::div_mod::lemma_mod_division_less_than_divisor(nn, dd);
            assert(nn == dd * qe + re);
            assert(mn + dd - 1 == (-qe) * dd + (dd - 1 - re)) by (nonlinear_arith)
                requires
                    mn == -nn,
                    nn == dd * qe + re,
            ;
            vstd::arithmetic::div_mod::lemma_fundamental_div_mod_converse_div(
                mn as int + dd - 1,
                dd,
                -qe,
                dd - 1 - re,
            );
            assert(q == -qe);
            assert(qe <= 0 && -qe <= mn) by {
                assert(dd * qe + re < 0 ==> qe < 0 || (qe == 0 && re < 0));
                vstd::arithmetic::div_mod::lemma_div_is_ordered(nn, 0, dd);
                vstd::arithmetic::div_mod::lemma_div_of0(dd);
                assert(-qe <= mn) by (nonlinear_arith)
                    requires
                        nn == dd * qe + re,
                        0 <= re < dd,
                        mn == -nn,
                        qe <= 0,
                ;
            }
        }
        -(q as i64)
    }
}

/// Ceiling division of an `i64` by a positive divisor, as the Euclidean
/// quotient of `n + d - 1`.
pub fn cdiv64(n: i64, d: i64) -> (r: i64)
    requires
        0 < d,
        FX_MIN <= n,
        n + d - 1 <= i64::MAX,
    ensures
        r == (n as int + d - 1) / (d as int),
{
    fdiv64((n - 1) + d, d)
}

/// Euclidean remainder of a wide integer by a positive divisor: always in
/// `[0, d)`, also for negative `n`.  Range reduction for the lattice hash
/// and the fractional-part operation.
pub fn emod128(n: i128, d: i64) -> (r: i64)
    requires
        0 < d,
        n != i128::MIN,
    ensures
        r == (n as int) % (d as int),
        0 <= r < d,
{
    if n >= 0 {
        ((n as u128) % (d as u128)) as i64
    } else {
        let m: u128 = ((-n) as u128) % (d as u128);
        proof {
            let nn = n as int;
            let dd = d as int;
            let qn = (-nn) / dd;
            vstd::arithmetic::div_mod::lemma_fundamental_div_mod(-nn, dd);
            vstd::arithmetic::div_mod::lemma_mod_division_less_than_divisor(-nn, dd);
            if m == 0 {
                assert(nn == (-qn) * dd + 0) by (nonlinear_arith)
                    requires
                        -nn == dd * qn + 0,
                ;
                vstd::arithmetic::div_mod::lemma_fundamental_div_mod_converse_mod(nn, dd, -qn, 0);
            } else {
                assert(nn == (-qn - 1) * dd + (dd - m)) by (nonlinear_arith)
                    requires
                        -nn == dd * qn + m,
                ;
                vstd::arithmetic::div_mod::lemma_fundamental_div_mod_converse_mod(
                    nn,
                    dd,
                    -qn - 1,
                    dd - m,
                );
            }
        }
        if m == 0 {
            0
        } else {
            ((d as u128) - m) as i64
        }
    }
}

/// Absolute value, in range because the range is symmetric.
pub fn fx_abs(a: i64) -> (r: i64)
    requires
        FX_MIN <= a,
    ensures
        r == sabs(a as int),
{
    if a < 0 {
        -a
    } else {
        a
    }
}

/// Smaller of two values.
pub fn fx_min(a: i64, b: i64) -> (r: i64)
    ensures
        r == if a <= b { a } else { b },
{
    if a <= b {
        a
    } else {
        b
    }
}

/// Larger of two values.
pub fn fx_max(a: i64, b: i64) -> (r: i64)
    ensures
        r == if a >= b { a } else { b },
{
    if a >= b {
        a
    } else {
        b
    }
}

/// Clamp `a` into `[lo, hi]`.
pub fn fx_clamp(a: i64, lo: i64, hi: i64) -> (r: i64)
    requires
        lo <= hi,
    ensures
        r == if a < lo { lo } else if a > hi { hi } else { a },
{
    if a < lo {
        lo
    } else if a > hi {
        hi
    } else {
        a
    }
}

/// Saturated fixed-point addition.
pub fn fx_add(a: i64, b: i64) -> (r: i64)
    ensures
        r == fx_add_s(a as int, b as int),
{
    let s: i128 = (a as i128) + (b as i128);
    if s > (FX_MAX as i128) {
        FX_MAX
    } else if s < (FX_MIN as i128) {
        FX_MIN
    } else {
        s as i64
    }
}

/// Saturated fixed-point subtraction.
pub fn fx_sub(a: i64, b: i64) -> (r: i64)
    ensures
        r == fx_sub_s(a as int, b as int),
{
    let s: i128 = (a as i128) - (b as i128);
    if s > (FX_MAX as i128) {
        FX_MAX
    } else if s < (FX_MIN as i128) {
        FX_MIN
    } else {
        s as i64
    }
}

/// The product of the absolute values equals the absolute value of the
/// product.
pub proof fn lemma_abs_mul(a: int, b: int)
    by (nonlinear_arith)
    ensures
        sabs(a) * sabs(b) == sabs(a * b),
{
}

/// A product is nonnegative when the factors' signs agree and negative
/// when they differ (and neither factor is zero).
pub proof fn lemma_mul_sign(a: int, b: int)
    by (nonlinear_arith)
    ensures
        ((a < 0) == (b < 0)) ==> a * b >= 0,
        (a != 0 && b != 0 && ((a < 0) != (b < 0))) ==> a * b < 0,
{
}

/// Multiplying a nonnegative value by a factor in `[0, 1]` keeps it
/// between zero and the value.
pub proof fn lemma_fx_mul_unit(a: int, b: int)
    requires
        0 <= a <= FX_ONE,
        0 <= b <= FX_MAX,
    ensures
        0 <= fx_mul_s(a, b) <= b,
{
    lemma_mul_sign(a, b);
    vstd::arithmetic::mul::lemma_mul_inequality(a, FX_ONE as int, b);
    vstd::arithmetic::mul::lemma_mul_is_commutative(FX_ONE as int, b);
    vstd::arithmetic::div_mod::lemma_div_is_ordered(a * b, b * (FX_ONE as int), FX_ONE as int);
    vstd::arithmetic::div_mod::lemma_div_by_multiple(b, FX_ONE as int);
    vstd::arithmetic::div_mod::lemma_div_pos_is_pos(a * b, FX_ONE as int);
}

/// Multiplying any value by a factor in `[0, 1]` keeps its sign and does
/// not grow its magnitude.
pub proof fn lemma_fx_mul_unit_signed(t: int, d: int)
    requires
        0 <= t <= FX_ONE,
        FX_MIN <= d <= FX_MAX,
    ensures
        sabs(fx_mul_s(t, d)) <= sabs(d),
        d >= 0 ==> fx_mul_s(t, d) >= 0,
        d <= 0 ==> fx_mul_s(t, d) <= 0,
{
    lemma_abs_mul(t, d);
    lemma_mul_sign(t, d);
    vstd::arithmetic::mul::lemma_mul_inequality(t, FX_ONE as int, sabs(d));
    vstd::arithmetic::mul::lemma_mul_is_commutative(FX_ONE as int, sabs(d));
    vstd::arithmetic::div_mod::lemma_div_is_ordered(
        t * sabs(d),
        sabs(d) * (FX_ONE as int),
        FX_ONE as int,
    );
    vstd::arithmetic::div_mod::lemma_div_by_multiple(sabs(d), FX_ONE as int);
    vstd::arithmetic::div_mod::lemma_div_pos_is_pos(sabs(t * d), FX_ONE as int);
}

/// Saturated, truncating fixed-point multiplication.
pub fn fx_mul(a: i64, b: i64) -> (r: i64)
    requires
        FX_MIN <= a,
        FX_MIN <= b,
    ensures
        r == fx_mul_s(a as int, b as int),
        (0 <= a && 0 <= b) ==> 0 <= r,
        (a <= 0 && 0 <= b) ==> r <= 0,
        (0 <= a && b <= 0) ==> r <= 0,
{
    let neg: bool = (a < 0) != (b < 0);
    let ma: u128 = fx_abs(a) as u128;
    let mb: u128 = fx_abs(b) as u128;
    assert(ma * mb <= 0x7fff_ffff_ffff_ffff * 0x7fff_ffff_ffff_ffff) by (nonlinear_arith)
        requires
            ma <= 0x7fff_ffff_ffff_ffff,
            mb <= 0x7fff_ffff_ffff_ffff,
    ;
    let p: u128 = ma * mb;
    let q: u128 = p / 0x1_0000_0000u128;
    proof {
        lemma_abs_mul(a as int, b as int);
        lemma_mul_sign(a as int, b as int);
        assert(q == sabs(a as int * b as int) / (FX_ONE as int));
    }
    if neg {
        if q > (FX_MAX as u128) {
            FX_MIN
        } else {
            -(q as i64)
        }
    } else {
        if q > (FX_MAX as u128) {
            FX_MAX
        } else {
            q as i64
        }
    }
}

/// Saturated, truncating fixed-point division; the caller rules out a zero
/// divisor.
pub fn fx_div(a: i64, b: i64) -> (r: i64)
    requires
        FX_MIN <= a,
        FX_MIN <= b,
        b != 0,
    ensures
        r == fx_div_s(a as int, b as int),
        (0 <= a && 0 < b) ==> 0 <= r,
{
    let neg: bool = (a < 0) != (b < 0);
    let ma: u128 = fx_abs(a) as u128;
    let mb: u128 = fx_abs(b) as u128;
    let n: u128 = ma * 0x1_0000_0000u128;
    let q: u128 = n / mb;
    proof {
        lemma_abs_mul(a as int, FX_ONE as int);
        lemma_mul_sign(a as int, FX_ONE as int);
        assert(q == sabs(a as int * (FX_ONE as int)) / sabs(b as int));
    }
    if neg {
        if q > (FX_MAX as u128) {
            FX_MIN
        } else {
            -(q as i64)
        }
    } else {
        if q > (FX_MAX as u128) {
            FX_MAX
        } else {
            q as i64
        }
    }
}

} // verus!
