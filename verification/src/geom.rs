//! Fixed-point vectors and matrices.
//!
//! `V3`/`V4` are 3- and 4-component vectors and `M3`/`M4` square matrices,
//! all with Q32.32 components (see [`crate::fx`]).  Every operation has a
//! spec-level mirror (`*_s`) stating its exact result, so contracts further
//! up the pipeline can speak of whole formulas.

use vstd::prelude::*;
use crate::fx::{
    FX_MAX, FX_MIN, FX_ONE, fx_abs, fx_add, fx_add_s, fx_div, fx_div_s, fx_mul, fx_mul_s, fx_sub,
    fx_sub_s, lemma_abs_mul, lemma_mul_sign, sat,
};

verus! {

/// A 3-component fixed-point vector.
#[derive(Clone, Copy, PartialEq, Eq, Structural, Debug)]
pub struct V3 {
    pub x: i64,
    pub y: i64,
    pub z: i64,
}

/// A 2-component fixed-point vector (texture coordinates).
#[derive(Clone, Copy, PartialEq, Eq, Structural, Debug)]
pub struct V2 {
    pub x: i64,
    pub y: i64,
}

/// Whether every component is a representable fixed-point value.
pub open spec fn v2_ok(v: V2) -> bool {
    FX_MIN <= v.x && FX_MIN <= v.y
}

/// A 4-component (homogeneous) fixed-point vector.
#[derive(Clone, Copy, PartialEq, Eq, Structural, Debug)]
pub struct V4 {
    pub x: i64,
    pub y: i64,
    pub z: i64,
    pub w: i64,
}

/// A 3x3 fixed-point matrix, row by row.
#[derive(Clone, Copy, PartialEq, Eq, Structural, Debug)]
pub struct M3 {
    pub r0: V3,
    pub r1: V3,
    pub r2: V3,
}

/// A 4x4 fixed-point matrix, row by row.
#[derive(Clone, Copy, PartialEq, Eq, Structural, Debug)]
pub struct M4 {
    pub r0: V4,
    pub r1: V4,
    pub r2: V4,
    pub r3: V4,
}

/// Clamp a mathematical integer into range and view it as an `i64`.
pub open spec fn sat_i64(x: int) -> i64 {
    sat(x) as i64
}

/// Whether every component is a representable fixed-point value (needed
/// because the symmetric range excludes `i64::MIN`).
pub open spec fn v3_ok(v: V3) -> bool {
    FX_MIN <= v.x && FX_MIN <= v.y && FX_MIN <= v.z
}

/// Whether every component is a representable fixed-point value.
pub open spec fn v4_ok(v: V4) -> bool {
    FX_MIN <= v.x && FX_MIN <= v.y && FX_MIN <= v.z && FX_MIN <= v.w
}

/// Whether every entry is a representable fixed-point value.
pub open spec fn m3_ok(m: M3) -> bool {
    v3_ok(m.r0) && v3_ok(m.r1) && v3_ok(m.r2)
}

/// Whether every entry is a representable fixed-point value.
pub open spec fn m4_ok(m: M4) -> bool {
    v4_ok(m.r0) && v4_ok(m.r1) && v4_ok(m.r2) && v4_ok(m.r3)
}

/// Componentwise sum.
pub open spec fn v3_add_s(a: V3, b: V3) -> V3 {
    V3 {
        x: sat_i64(fx_add_s(a.x as int, b.x as int)),
        y: sat_i64(fx_add_s(a.y as int, b.y as int)),
        z: sat_i64(fx_add_s(a.z as int, b.z as int)),
    }
}

/// Componentwise difference.
pub open spec fn v3_sub_s(a: V3, b: V3) -> V3 {
    V3 {
        x: sat_i64(fx_sub_s(a.x as int, b.x as int)),
        y: sat_i64(fx_sub_s(a.y as int, b.y as int)),
        z: sat_i64(fx_sub_s(a.z as int, b.z as int)),
    }
}

/// Every component scaled by `s`.
pub open spec fn v3_scale_s(a: V3, s: int) -> V3 {
    V3 {
        x: sat_i64(fx_mul_s(a.x as int, s)),
        y: sat_i64(fx_mul_s(a.y as int, s)),
        z: sat_i64(fx_mul_s(a.z as int, s)),
    }
}

/// Fixed-point dot product, saturating on each partial sum.
pub open spec fn v3_dot_s(a: V3, b: V3) -> int {
    fx_add_s(
        fx_add_s(fx_mul_s(a.x as int, b.x as int), fx_mul_s(a.y as int, b.y as int)),
        fx_mul_s(a.z as int, b.z as int),
    )
}

/// Componentwise sum.
pub fn v3_add(a: V3, b: V3) -> (r: V3)
    ensures
        r == v3_add_s(a, b),
        v3_ok(r),
{
    V3 { x: fx_add(a.x, b.x), y: fx_add(a.y, b.y), z: fx_add(a.z, b.z) }
}

/// Componentwise difference.
pub fn v3_sub(a: V3, b: V3) -> (r: V3)
    ensures
        r == v3_sub_s(a, b),
        v3_ok(r),
{
    V3 { x: fx_sub(a.x, b.x), y: fx_sub(a.y, b.y), z: fx_sub(a.z, b.z) }
}

/// Every component scaled by `s`.
pub fn v3_scale(a: V3, s: i64) -> (r: V3)
    requires
        v3_ok(a),
        FX_MIN <= s,
    ensures
        r == v3_scale_s(a, s as int),
        v3_ok(r),
{
    V3 { x: fx_mul(a.x, s), y: fx_mul(a.y, s), z: fx_mul(a.z, s) }
}

/// Fixed-point dot product.
pub fn v3_dot(a: V3, b: V3) -> (r: i64)
    requires
        v3_ok(a),
        v3_ok(b),
    ensures
        r == v3_dot_s(a, b),
        FX_MIN <= r,
{
    let xy: i64 = fx_add(fx_mul(a.x, b.x), fx_mul(a.y, b.y));
    fx_add(xy, fx_mul(a.z, b.z))
}

/// Componentwise linear blend `a + t*(b - a)`, the `lerp` of the shading
/// layer.
pub open spec fn v3_lerp_s(a: V3, b: V3, t: int) -> V3 {
    v3_add_s(a, v3_scale_s(v3_sub_s(b, a), t))
}

/// Componentwise linear blend `a + t*(b - a)`.
pub fn v3_lerp(a: V3, b: V3, t: i64) -> (r: V3)
    requires
        FX_MIN <= t,
    ensures
        r == v3_lerp_s(a, b, t as int),
        v3_ok(r),
{
    v3_add(a, v3_scale(v3_sub(b, a), t))
}

/// Integer square root: the exact floor of the real square root.
pub fn isqrt_u128(s: u128) -> (r: u64)
    ensures
        (r as int) * (r as int) <= s as int,
        (s as int) < (r as int + 1) * (r as int + 1),
{
    let mut lo: u64 = 0;
    let mut hi: u64 = 0xffff_ffff_ffff_ffff;
    proof {
        assert((hi as int + 1) * (hi as int + 1) > s as int) by (nonlinear_arith)
            requires
                hi == 0xffff_ffff_ffff_ffffu64,
                s <= u128::MAX,
        ;
    }
    while lo < hi
        invariant
            lo <= hi,
            (lo as int) * (lo as int) <= s as int,
            (s as int) < (hi as int + 1) * (hi as int + 1),
        decreases hi - lo,
    {
        let mid: u64 = lo + (hi - lo) / 2 + 1;
        assert(lo < mid <= hi);
        assert((mid as int) * (mid as int) < u128::MAX) by (nonlinear_arith)
            requires
                mid <= 0xffff_ffff_ffff_ffffu64,
        ;
        let sq: u128 = (mid as u128) * (mid as u128);
        if sq <= s {
            lo = mid;
        } else {
            hi = mid - 1;
        }
    }
    lo
}

/// The saturated fixed-point Euclidean length of `v`: the floor of the
/// square root of the exact sum of squared components.
pub open spec fn v3_len_s(v: V3) -> int {
    let sq = (v.x as int) * (v.x as int) + (v.y as int) * (v.y as int) + (v.z as int) * (v.z
        as int);
    sat(sqrt_floor(sq))
}

/// The floor of the real square root of a nonnegative integer, as the
/// unique `r` with `r*r <= s < (r+1)*(r+1)`.
pub open spec fn sqrt_floor(s: int) -> int {
    choose|r: int| 0 <= r && #[trigger] (r * r) <= s && s < (r + 1) * (r + 1)
}

/// The square-root floor is unique, so any witness pins `sqrt_floor`.
pub proof fn lemma_sqrt_floor_unique(s: int, r: int)
    requires
        0 <= r,
        r * r <= s,
        s < (r + 1) * (r + 1),
    ensures
        sqrt_floor(s) == r,
{
    assert(exists|q: int| 0 <= q && #[trigger] (q * q) <= s && s < (q + 1) * (q + 1)) by {
        assert(0 <= r && r * r <= s && s < (r + 1) * (r + 1));
    }
    let q = choose|q: int| 0 <= q && #[trigger] (q * q) <= s && s < (q + 1) * (q + 1);
    assert(q == r) by (nonlinear_arith)
        requires
            0 <= r,
            0 <= q,
            r * r <= s,
            s < (r + 1) * (r + 1),
            q * q <= s,
            s < (q + 1) * (q + 1),
    ;
}

/// Fixed-point length of `v`.
pub fn v3_len(v: V3) -> (r: i64)
    requires
        v3_ok(v),
    ensures
        r == v3_len_s(v),
        0 <= r,
{
    let mx: u128 = fx_abs(v.x) as u128;
    let my: u128 = fx_abs(v.y) as u128;
    let mz: u128 = fx_abs(v.z) as u128;
    assert(mx * mx + my * my + mz * mz <= u128::MAX) by (nonlinear_arith)
        requires
            mx <= 0x7fff_ffff_ffff_ffff,
            my <= 0x7fff_ffff_ffff_ffff,
            mz <= 0x7fff_ffff_ffff_ffff,
    ;
    let s: u128 = mx * mx + my * my + mz * mz;
    proof {
        lemma_abs_mul(v.x as int, v.x as int);
        lemma_abs_mul(v.y as int, v.y as int);
        lemma_abs_mul(v.z as int, v.z as int);
        lemma_mul_sign(v.x as int, v.x as int);
        lemma_mul_sign(v.y as int, v.y as int);
        lemma_mul_sign(v.z as int, v.z as int);
    }
    let root: u64 = isqrt_u128(s);
    proof {
        lemma_sqrt_floor_unique(s as int, root as int);
    }
    if root > (FX_MAX as u64) {
        FX_MAX
    } else {
        root as i64
    }
}

/// Normalization to (approximately) unit length.  A zero vector is
/// returned unchanged: with total fixed-point arithmetic the shading layer
/// still produces a finite, clamped color for it, which is this crate's
/// policy for degenerate surface points.
pub open spec fn v3_normalize_s(v: V3) -> V3 {
    let len = v3_len_s(v);
    if len == 0 {
        v
    } else {
        V3 {
            x: sat_i64(fx_div_s(v.x as int, len)),
            y: sat_i64(fx_div_s(v.y as int, len)),
            z: sat_i64(fx_div_s(v.z as int, len)),
        }
    }
}

/// Normalization to (approximately) unit length; zero stays zero.
pub fn v3_normalize(v: V3) -> (r: V3)
    requires
        v3_ok(v),
    ensures
        r == v3_normalize_s(v),
        v3_ok(r),
{
    let len: i64 = v3_len(v);
    if len == 0 {
        v
    } else {
        V3 { x: fx_div(v.x, len), y: fx_div(v.y, len), z: fx_div(v.z, len) }
    }
}

/// Fixed-point square root: floor of the real root, for nonnegative
/// arguments.
pub open spec fn fx_sqrt_s(a: int) -> int {
    sat(sqrt_floor(a * (FX_ONE as int)))
}

/// Fixed-point square root of a nonnegative value.
pub fn fx_sqrt(a: i64) -> (r: i64)
    requires
        0 <= a,
    ensures
        r == fx_sqrt_s(a as int),
        0 <= r,
{
    let s: u128 = (a as u128) * 0x1_0000_0000u128;
    let root: u64 = isqrt_u128(s);
    proof {
        lemma_sqrt_floor_unique(s as int, root as int);
    }
    if root > (FX_MAX as u64) {
        FX_MAX
    } else {
        root as i64
    }
}

/// The transpose of a 3x3 matrix.
pub open spec fn m3_transpose_s(m: M3) -> M3 {
    M3 {
        r0: V3 { x: m.r0.x, y: m.r1.x, z: m.r2.x },
        r1: V3 { x: m.r0.y, y: m.r1.y, z: m.r2.y },
        r2: V3 { x: m.r0.z, y: m.r1.z, z: m.r2.z },
    }
}

/// The transpose of a 3x3 matrix.
pub fn m3_transpose(m: M3) -> (r: M3)
    ensures
        r == m3_transpose_s(m),
{
    M3 {
        r0: V3 { x: m.r0.x, y: m.r1.x, z: m.r2.x },
        r1: V3 { x: m.r0.y, y: m.r1.y, z: m.r2.y },
        r2: V3 { x: m.r0.z, y: m.r1.z, z: m.r2.z },
    }
}

/// A 2x2 cofactor: `a*d - b*c` in fixed point.
pub open spec fn cof_s(a: int, b: int, c: int, d: int) -> int {
    fx_sub_s(fx_mul_s(a, d), fx_mul_s(b, c))
}

/// A 2x2 cofactor: `a*d - b*c` in fixed point.
pub fn cof(a: i64, b: i64, c: i64, d: i64) -> (r: i64)
    requires
        FX_MIN <= a,
        FX_MIN <= b,
        FX_MIN <= c,
        FX_MIN <= d,
    ensures
        r == cof_s(a as int, b as int, c as int, d as int),
        FX_MIN <= r,
{
    fx_sub(fx_mul(a, d), fx_mul(b, c))
}

/// The fixed-point determinant of a 3x3 matrix, by cofactor expansion
/// along the first row.
pub open spec fn m3_det_s(m: M3) -> int {
    fx_add_s(
        fx_sub_s(
            fx_mul_s(m.r0.x as int, cof_s(m.r1.y as int, m.r1.z as int, m.r2.y as int, m.r2.z as int)),
            fx_mul_s(m.r0.y as int, cof_s(m.r1.x as int, m.r1.z as int, m.r2.x as int, m.r2.z as int)),
        ),
        fx_mul_s(m.r0.z as int, cof_s(m.r1.x as int, m.r1.y as int, m.r2.x as int, m.r2.y as int)),
    )
}

/// The fixed-point determinant of a 3x3 matrix.
pub fn m3_det(m: M3) -> (r: i64)
    requires
        m3_ok(m),
    ensures
        r == m3_det_s(m),
        FX_MIN <= r,
{
    let c0: i64 = cof(m.r1.y, m.r1.z, m.r2.y, m.r2.z);
    let c1: i64 = cof(m.r1.x, m.r1.z, m.r2.x, m.r2.z);
    let c2: i64 = cof(m.r1.x, m.r1.y, m.r2.x, m.r2.y);
    fx_add(fx_sub(fx_mul(m.r0.x, c0), fx_mul(m.r0.y, c1)), fx_mul(m.r0.z, c2))
}

/// The identity matrix.
pub open spec fn m3_identity_s() -> M3 {
    M3 {
        r0: V3 { x: FX_ONE, y: 0i64, z: 0i64 },
        r1: V3 { x: 0i64, y: FX_ONE, z: 0i64 },
        r2: V3 { x: 0i64, y: 0i64, z: FX_ONE },
    }
}

/// The adjugate-over-determinant inverse of a 3x3 matrix, or the identity
/// when the determinant vanishes (the singular fallback of the vertex
/// transform stage).
pub open spec fn m3_inverse_or_identity_s(m: M3) -> M3 {
    let det = m3_det_s(m);
    if det == 0 {
        m3_identity_s()
    } else {
        M3 {
            r0: V3 {
                x: sat_i64(fx_div_s(cof_s(m.r1.y as int, m.r1.z as int, m.r2.y as int, m.r2.z as int), det)),
                y: sat_i64(fx_div_s(cof_s(m.r0.z as int, m.r0.y as int, m.r2.z as int, m.r2.y as int), det)),
                z: sat_i64(fx_div_s(cof_s(m.r0.y as int, m.r0.z as int, m.r1.y as int, m.r1.z as int), det)),
            },
            r1: V3 {
                x: sat_i64(fx_div_s(cof_s(m.r1.z as int, m.r1.x as int, m.r2.z as int, m.r2.x as int), det)),
                y: sat_i64(fx_div_s(cof_s(m.r0.x as int, m.r0.z as int, m.r2.x as int, m.r2.z as int), det)),
                z: sat_i64(fx_div_s(cof_s(m.r0.z as int, m.r0.x as int, m.r1.z as int, m.r1.x as int), det)),
            },
            r2: V3 {
                x: sat_i64(fx_div_s(cof_s(m.r1.x as int, m.r1.y as int, m.r2.x as int, m.r2.y as int), det)),
                y: sat_i64(fx_div_s(cof_s(m.r0.y as int, m.r0.x as int, m.r2.y as int, m.r2.x as int), det)),
                z: sat_i64(fx_div_s(cof_s(m.r0.x as int, m.r0.y as int, m.r1.x as int, m.r1.y as int), det)),
            },
        }
    }
}

/// The inverse of a 3x3 matrix, or the identity as the singular fallback.
pub fn m3_inverse_or_identity(m: M3) -> (r: M3)
    requires
        m3_ok(m),
    ensures
        r == m3_inverse_or_identity_s(m),
        m3_ok(r),
{
    let det: i64 = m3_det(m);
    if det == 0 {
        M3 {
            r0: V3 { x: FX_ONE, y: 0, z: 0 },
            r1: V3 { x: 0, y: FX_ONE, z: 0 },
            r2: V3 { x: 0, y: 0, z: FX_ONE },
        }
    } else {
        M3 {
            r0: V3 {
                x: fx_div(cof(m.r1.y, m.r1.z, m.r2.y, m.r2.z), det),
                y: fx_div(cof(m.r0.z, m.r0.y, m.r2.z, m.r2.y), det),
                z: fx_div(cof(m.r0.y, m.r0.z, m.r1.y, m.r1.z), det),
            },
            r1: V3 {
                x: fx_div(cof(m.r1.z, m.r1.x, m.r2.z, m.r2.x), det),
                y: fx_div(cof(m.r0.x, m.r0.z, m.r2.x, m.r2.z), det),
                z: fx_div(cof(m.r0.z, m.r0.x, m.r1.z, m.r1.x), det),
            },
            r2: V3 {
                x: fx_div(cof(m.r1.x, m.r1.y, m.r2.x, m.r2.y), det),
                y: fx_div(cof(m.r0.y, m.r0.x, m.r2.y, m.r2.x), det),
                z: fx_div(cof(m.r0.x, m.r0.y, m.r1.x, m.r1.y), det),
            },
        }
    }
}

/// Fixed-point dot product of a 4-vector row with a 4-vector.
pub open spec fn v4_dot_s(a: V4, b: V4) -> int {
    fx_add_s(
        fx_add_s(
            fx_add_s(fx_mul_s(a.x as int, b.x as int), fx_mul_s(a.y as int, b.y as int)),
            fx_mul_s(a.z as int, b.z as int),
        ),
        fx_mul_s(a.w as int, b.w as int),
    )
}

/// Fixed-point dot product of two 4-vectors.
pub fn v4_dot(a: V4, b: V4) -> (r: i64)
    requires
        v4_ok(a),
        v4_ok(b),
    ensures
        r == v4_dot_s(a, b),
        FX_MIN <= r,
{
    let xy: i64 = fx_add(fx_mul(a.x, b.x), fx_mul(a.y, b.y));
    let xyz: i64 = fx_add(xy, fx_mul(a.z, b.z));
    fx_add(xyz, fx_mul(a.w, b.w))
}

/// Matrix-vector product, row by row.
pub open spec fn m4_mul_v4_s(m: M4, v: V4) -> V4 {
    V4 {
        x: sat_i64(v4_dot_s(m.r0, v)),
        y: sat_i64(v4_dot_s(m.r1, v)),
        z: sat_i64(v4_dot_s(m.r2, v)),
        w: sat_i64(v4_dot_s(m.r3, v)),
    }
}

/// Matrix-vector product, row by row.
pub fn m4_mul_v4(m: M4, v: V4) -> (r: V4)
    requires
        m4_ok(m),
        v4_ok(v),
    ensures
        r == m4_mul_v4_s(m, v),
        v4_ok(r),
{
    V4 {
        x: v4_dot(m.r0, v),
        y: v4_dot(m.r1, v),
        z: v4_dot(m.r2, v),
        w: v4_dot(m.r3, v),
    }
}

/// Matrix-vector product for the 3x3 case.
pub open spec fn m3_mul_v3_s(m: M3, v: V3) -> V3 {
    V3 {
        x: sat_i64(v3_dot_s(m.r0, v)),
        y: sat_i64(v3_dot_s(m.r1, v)),
        z: sat_i64(v3_dot_s(m.r2, v)),
    }
}

/// Matrix-vector product for the 3x3 case.
pub fn m3_mul_v3(m: M3, v: V3) -> (r: V3)
    requires
        m3_ok(m),
        v3_ok(v),
    ensures
        r == m3_mul_v3_s(m, v),
        v3_ok(r),
{
    V3 { x: v3_dot(m.r0, v), y: v3_dot(m.r1, v), z: v3_dot(m.r2, v) }
}

} // verus!
