//! Triangle rasterization.
//!
//! A triangle arrives as three transformed vertices with clip-space
//! (homogeneous) positions.  After a perspective-divide guard the vertices
//! are mapped to screen space (Q16.16 pixel units), a clamped bounding box
//! is walked, and every pixel center inside all three edge functions
//! yields one fragment carrying a perspective-correct (`1/w`-weighted)
//! interpolation of the local-space position and of the depth.
//!
//! The whole computation is exact integer arithmetic, so each fragment's
//! value is pinned by the spec mirrors in this file.

use vstd::prelude::*;
use vstd::arithmetic::div_mod::{
    lemma_div_by_multiple, lemma_div_denominator, lemma_div_is_ordered,
    lemma_div_is_ordered_by_denominator, lemma_div_pos_is_pos,
};
use crate::fx::{
    FX_MAX, FX_MIN, FX_ONE, cdiv64, fdiv64, fx_abs, fx_div, fx_div_s, fx_max, fx_min, sabs, sat,
    sdiv_trunc, tdiv128,
};
use crate::geom::{V3, sat_i64, v3_ok};
use crate::vertex::{Vertex, vertex_ok};

verus! {

/// Perspective-divide guard: triangles with any vertex whose homogeneous
/// `w` is smaller in magnitude than this (about 1e-6) are rejected.
pub const W_EPSILON: i64 = 4295;

/// Degenerate-triangle guard: signed screen areas (in Q32.32 square
/// pixels) smaller in magnitude than this (about 1e-6) are rejected.
pub const AREA_EPSILON: i128 = 4295;

/// Guard band for screen coordinates, Q16.16 pixel units (2^24 pixels):
/// coordinates of far off-screen vertices saturate here.
pub const SCREEN_SAT: i64 = 1099511627776;

/// Largest supported framebuffer dimension.
pub const MAX_DIM: usize = 16384;

/// One rasterized pixel candidate: screen position, interpolated depth
/// (smaller is nearer) and interpolated local-space surface position.
#[derive(Clone, Copy, PartialEq, Eq, Structural, Debug)]
pub struct Fragment {
    pub x: usize,
    pub y: usize,
    pub depth: i64,
    pub vertex_position: V3,
}

/// A triangle after perspective divide and screen mapping: screen x/y in
/// Q16.16 pixels, depth z in Q32.32 NDC units, the original clip-space `w`
/// of each vertex, and the local-space attribute to interpolate.
#[derive(Clone, Copy, PartialEq, Eq, Structural, Debug)]
pub struct ScreenTri {
    pub ax: i64,
    pub ay: i64,
    pub az: i64,
    pub aw: i64,
    pub bx: i64,
    pub by: i64,
    pub bz: i64,
    pub bw: i64,
    pub cx: i64,
    pub cy: i64,
    pub cz: i64,
    pub cw: i64,
    pub p1: V3,
    pub p2: V3,
    pub p3: V3,
}

/// Bounds a prepared triangle satisfies: screen coordinates inside the
/// guard band, all scalars representable, `w` magnitudes above the guard.
pub open spec fn tri_wf(t: ScreenTri) -> bool {
    &&& -SCREEN_SAT <= t.ax <= SCREEN_SAT
    &&& -SCREEN_SAT <= t.ay <= SCREEN_SAT
    &&& -SCREEN_SAT <= t.bx <= SCREEN_SAT
    &&& -SCREEN_SAT <= t.by <= SCREEN_SAT
    &&& -SCREEN_SAT <= t.cx <= SCREEN_SAT
    &&& -SCREEN_SAT <= t.cy <= SCREEN_SAT
    &&& FX_MIN <= t.az
    &&& FX_MIN <= t.bz
    &&& FX_MIN <= t.cz
    &&& FX_MIN <= t.aw
    &&& FX_MIN <= t.bw
    &&& FX_MIN <= t.cw
    &&& sabs(t.aw as int) >= W_EPSILON
    &&& sabs(t.bw as int) >= W_EPSILON
    &&& sabs(t.cw as int) >= W_EPSILON
    &&& v3_ok(t.p1)
    &&& v3_ok(t.p2)
    &&& v3_ok(t.p3)
}

/// The 2D edge function (cross-product form): positive when `(px, py)`
/// lies to one side of the directed edge `(a, b)`, and twice the signed
/// triangle area when `(px, py)` is a third vertex.
pub open spec fn edge_s(ax: int, ay: int, bx: int, by: int, px: int, py: int) -> int {
    (px - ax) * (by - ay) - (py - ay) * (bx - ax)
}

/// Twice the signed screen-space area of the triangle.
pub open spec fn area_s(t: ScreenTri) -> int {
    edge_s(t.ax as int, t.ay as int, t.bx as int, t.by as int, t.cx as int, t.cy as int)
}

/// The three edge functions at one point sum to the triangle's area.
#[verifier::rlimit(100)]
pub proof fn lemma_edge_sum(ax: int, ay: int, bx: int, by: int, cx: int, cy: int, px: int, py: int)
    by (nonlinear_arith)
    ensures
        edge_s(bx, by, cx, cy, px, py) + edge_s(cx, cy, ax, ay, px, py) + edge_s(
            ax,
            ay,
            bx,
            by,
            px,
            py,
        ) == edge_s(ax, ay, bx, by, cx, cy),
{
}

/// Exact evaluation of the edge function on guard-banded coordinates.
pub fn edge_q16(ax: i64, ay: i64, bx: i64, by: i64, px: i64, py: i64) -> (e: i128)
    requires
        -SCREEN_SAT <= ax <= SCREEN_SAT,
        -SCREEN_SAT <= ay <= SCREEN_SAT,
        -SCREEN_SAT <= bx <= SCREEN_SAT,
        -SCREEN_SAT <= by <= SCREEN_SAT,
        -SCREEN_SAT <= px <= SCREEN_SAT,
        -SCREEN_SAT <= py <= SCREEN_SAT,
    ensures
        e == edge_s(ax as int, ay as int, bx as int, by as int, px as int, py as int),
        -9671406556917033397649408i128 <= e <= 9671406556917033397649408i128,
{
    let d1: i128 = (px as i128) - (ax as i128);
    let d2: i128 = (by as i128) - (ay as i128);
    let d3: i128 = (py as i128) - (ay as i128);
    let d4: i128 = (bx as i128) - (ax as i128);
    assert(-4835703278458516698824704i128 <= d1 * d2 <= 4835703278458516698824704i128
        && -4835703278458516698824704i128 <= d3 * d4 <= 4835703278458516698824704i128)
        by (nonlinear_arith)
        requires
            -2199023255552i128 <= d1 <= 2199023255552i128,
            -2199023255552i128 <= d2 <= 2199023255552i128,
            -2199023255552i128 <= d3 <= 2199023255552i128,
            -2199023255552i128 <= d4 <= 2199023255552i128,
    ;
    d1 * d2 - d3 * d4
}

/// Saturation of a screen coordinate into the guard band.
pub open spec fn sat_scr(v: int) -> int {
    if v > SCREEN_SAT {
        SCREEN_SAT as int
    } else if v < -SCREEN_SAT {
        -SCREEN_SAT as int
    } else {
        v
    }
}

/// Screen x in Q16.16 pixels: `(ndc*0.5 + 0.5) * width`.
pub open spec fn screen_x_s(ndc: int, width: int) -> int {
    sat_scr(sdiv_trunc((ndc + FX_ONE) * width, 131072))
}

/// Screen y in Q16.16 pixels: `(1 - (ndc*0.5 + 0.5)) * height`, the flip
/// for a top-left-origin raster.
pub open spec fn screen_y_s(ndc: int, height: int) -> int {
    sat_scr(sdiv_trunc((FX_ONE - ndc) * height, 131072))
}

/// The prepared screen triangle for three transformed vertices: NDC by
/// perspective divide, then the screen mapping above; z is passed through
/// and `w` kept for perspective-correct interpolation.
pub open spec fn setup_s(v1: Vertex, v2: Vertex, v3: Vertex, width: int, height: int) -> ScreenTri {
    ScreenTri {
        ax: screen_x_s(
            fx_div_s(v1.transformed_position.x as int, v1.transformed_position.w as int),
            width,
        ) as i64,
        ay: screen_y_s(
            fx_div_s(v1.transformed_position.y as int, v1.transformed_position.w as int),
            height,
        ) as i64,
        az: sat_i64(fx_div_s(v1.transformed_position.z as int, v1.transformed_position.w as int)),
        aw: v1.transformed_position.w,
        bx: screen_x_s(
            fx_div_s(v2.transformed_position.x as int, v2.transformed_position.w as int),
            width,
        ) as i64,
        by: screen_y_s(
            fx_div_s(v2.transformed_position.y as int, v2.transformed_position.w as int),
            height,
        ) as i64,
        bz: sat_i64(fx_div_s(v2.transformed_position.z as int, v2.transformed_position.w as int)),
        bw: v2.transformed_position.w,
        cx: screen_x_s(
            fx_div_s(v3.transformed_position.x as int, v3.transformed_position.w as int),
            width,
        ) as i64,
        cy: screen_y_s(
            fx_div_s(v3.transformed_position.y as int, v3.transformed_position.w as int),
            height,
        ) as i64,
        cz: sat_i64(fx_div_s(v3.transformed_position.z as int, v3.transformed_position.w as int)),
        cw: v3.transformed_position.w,
        p1: v1.position,
        p2: v2.position,
        p3: v3.position,
    }
}

/// The Q16.16 coordinate of the center of pixel column or row `i`.
pub open spec fn px_s(i: int) -> int {
    65536 * i + 32768
}

/// Edge function of edge `(b, c)` at the center of pixel `(x, y)`; the
/// barycentric weight of vertex `a` before normalization.
pub open spec fn b1_s(t: ScreenTri, x: int, y: int) -> int {
    edge_s(t.bx as int, t.by as int, t.cx as int, t.cy as int, px_s(x), px_s(y))
}

/// Edge function of edge `(c, a)`: the unnormalized weight of vertex `b`.
pub open spec fn b2_s(t: ScreenTri, x: int, y: int) -> int {
    edge_s(t.cx as int, t.cy as int, t.ax as int, t.ay as int, px_s(x), px_s(y))
}

/// Edge function of edge `(a, b)`: the unnormalized weight of vertex `c`.
pub open spec fn b3_s(t: ScreenTri, x: int, y: int) -> int {
    edge_s(t.ax as int, t.ay as int, t.bx as int, t.by as int, px_s(x), px_s(y))
}

/// Largest of three values.
pub open spec fn max3_s(a: int, b: int, c: int) -> int {
    if a >= b && a >= c {
        a
    } else if b >= c {
        b
    } else {
        c
    }
}

/// The power of two that scales a maximal weight `m` down below 2^40,
/// so weighted sums stay inside `i128`.
pub open spec fn scale_pow(m: int) -> int
    decreases m,
{
    if m < 1099511627776 {
        1
    } else {
        2 * scale_pow(m / 2)
    }
}

/// What the weight scale achieves: the scaled maximum lands in
/// `[2^39, 2^40)` unless no scaling was needed at all.
pub proof fn lemma_scale_pow(m: int)
    requires
        0 <= m,
    ensures
        1 <= scale_pow(m),
        m / scale_pow(m) < 1099511627776,
        scale_pow(m) == 1 || m / scale_pow(m) >= 549755813888,
    decreases m,
{
    if m < 1099511627776 {
        vstd::arithmetic::div_mod::lemma_div_basics(m);
    } else {
        lemma_scale_pow(m / 2);
        let p = scale_pow(m / 2);
        lemma_div_denominator(m, 2, p);
        assert(m / (2 * p) == (m / 2) / p);
        assert(scale_pow(m) == 2 * p);
        if p == 1 {
            vstd::arithmetic::div_mod::lemma_div_basics(m / 2);
            lemma_div_is_ordered(1099511627776, m, 2);
        }
    }
}

/// The per-pixel weight-scale divisor.
pub open spec fn pow_of(t: ScreenTri, x: int, y: int) -> int {
    scale_pow(max3_s(b1_s(t, x, y), b2_s(t, x, y), b3_s(t, x, y)))
}

/// Scaled barycentric weight of vertex `a` at pixel `(x, y)`.
pub open spec fn t1_s(t: ScreenTri, x: int, y: int) -> int {
    b1_s(t, x, y) / pow_of(t, x, y)
}

/// Scaled barycentric weight of vertex `b`.
pub open spec fn t2_s(t: ScreenTri, x: int, y: int) -> int {
    b2_s(t, x, y) / pow_of(t, x, y)
}

/// Scaled barycentric weight of vertex `c`.
pub open spec fn t3_s(t: ScreenTri, x: int, y: int) -> int {
    b3_s(t, x, y) / pow_of(t, x, y)
}

/// Sum of the scaled weights: the plain screen-space interpolation
/// divisor, used when the perspective divisor degenerates to zero.
pub open spec fn den2_s(t: ScreenTri, x: int, y: int) -> int {
    t1_s(t, x, y) + t2_s(t, x, y) + t3_s(t, x, y)
}

/// Perspective weight of vertex `a`: the scaled barycentric weight divided
/// by the vertex's own clip `w`.
pub open spec fn wq1_s(t: ScreenTri, x: int, y: int) -> int {
    sdiv_trunc(t1_s(t, x, y) * 4294967296, t.aw as int)
}

/// Perspective weight of vertex `b`.
pub open spec fn wq2_s(t: ScreenTri, x: int, y: int) -> int {
    sdiv_trunc(t2_s(t, x, y) * 4294967296, t.bw as int)
}

/// Perspective weight of vertex `c`.
pub open spec fn wq3_s(t: ScreenTri, x: int, y: int) -> int {
    sdiv_trunc(t3_s(t, x, y) * 4294967296, t.cw as int)
}

/// The perspective interpolation divisor (the interpolated `1/w`, up to
/// scale).
pub open spec fn den_s(t: ScreenTri, x: int, y: int) -> int {
    wq1_s(t, x, y) + wq2_s(t, x, y) + wq3_s(t, x, y)
}

/// A pixel produces a fragment exactly when its center passes the
/// edge-inclusive barycentric test: all three weights nonnegative, so a
/// pixel exactly on a shared edge is kept by both adjacent triangles (the
/// accepted double-shading).
pub open spec fn accept_s(t: ScreenTri, x: int, y: int) -> bool {
    &&& b1_s(t, x, y) >= 0
    &&& b2_s(t, x, y) >= 0
    &&& b3_s(t, x, y) >= 0
}

/// Weighted blend of one attribute component: each vertex value weighted,
/// summed, divided by the weight sum.
pub open spec fn attr_s(w1: int, w2: int, w3: int, den: int, a1: int, a2: int, a3: int) -> int {
    sat(sdiv_trunc(w1 * a1 + w2 * a2 + w3 * a3, den))
}

/// The interpolated depth at pixel `(x, y)`: the perspective-correct
/// `1/w`-weighted blend of the three vertices' NDC z.  When the
/// interpolated `1/w` sum is exactly zero — possible only for mixed-sign
/// `w` — the plain screen-space blend is the defined fallback, so every
/// accepted pixel carries a finite depth.
pub open spec fn depth_s(t: ScreenTri, x: int, y: int) -> int {
    let den = den_s(t, x, y);
    if den != 0 {
        attr_s(
            wq1_s(t, x, y),
            wq2_s(t, x, y),
            wq3_s(t, x, y),
            den,
            t.az as int,
            t.bz as int,
            t.cz as int,
        )
    } else {
        attr_s(
            t1_s(t, x, y),
            t2_s(t, x, y),
            t3_s(t, x, y),
            den2_s(t, x, y),
            t.az as int,
            t.bz as int,
            t.cz as int,
        )
    }
}

/// The interpolated local-space position at pixel `(x, y)`:
/// perspective-correct, with the same screen-space fallback as the depth
/// when the `1/w` sum is exactly zero.
pub open spec fn pos_s(t: ScreenTri, x: int, y: int) -> V3 {
    let den = den_s(t, x, y);
    let w1 = if den != 0 {
        wq1_s(t, x, y)
    } else {
        t1_s(t, x, y)
    };
    let w2 = if den != 0 {
        wq2_s(t, x, y)
    } else {
        t2_s(t, x, y)
    };
    let w3 = if den != 0 {
        wq3_s(t, x, y)
    } else {
        t3_s(t, x, y)
    };
    let d = if den != 0 {
        den
    } else {
        den2_s(t, x, y)
    };
    V3 {
        x: sat_i64(attr_s(w1, w2, w3, d, t.p1.x as int, t.p2.x as int, t.p3.x as int)),
        y: sat_i64(attr_s(w1, w2, w3, d, t.p1.y as int, t.p2.y as int, t.p3.y as int)),
        z: sat_i64(attr_s(w1, w2, w3, d, t.p1.z as int, t.p2.z as int, t.p3.z as int)),
    }
}

/// The fragment emitted for an accepted pixel.
pub open spec fn frag_s(t: ScreenTri, x: int, y: int) -> Fragment {
    Fragment {
        x: x as usize,
        y: y as usize,
        depth: sat_i64(depth_s(t, x, y)),
        vertex_position: pos_s(t, x, y),
    }
}

/// The scaled weights stay below 2^40 and are nonnegative inside the
/// triangle.
pub proof fn lemma_t_bounds(t: ScreenTri, x: int, y: int)
    requires
        b1_s(t, x, y) >= 0,
        b2_s(t, x, y) >= 0,
        b3_s(t, x, y) >= 0,
    ensures
        0 <= t1_s(t, x, y) < 1099511627776,
        0 <= t2_s(t, x, y) < 1099511627776,
        0 <= t3_s(t, x, y) < 1099511627776,
{
    let m0 = max3_s(b1_s(t, x, y), b2_s(t, x, y), b3_s(t, x, y));
    lemma_scale_pow(m0);
    let pow = scale_pow(m0);
    lemma_div_is_ordered(b1_s(t, x, y), m0, pow);
    lemma_div_is_ordered(b2_s(t, x, y), m0, pow);
    lemma_div_is_ordered(b3_s(t, x, y), m0, pow);
    lemma_div_pos_is_pos(b1_s(t, x, y), pow);
    lemma_div_pos_is_pos(b2_s(t, x, y), pow);
    lemma_div_pos_is_pos(b3_s(t, x, y), pow);
}

/// Inside a non-degenerate front-facing triangle, the sum of the scaled
/// weights is strictly positive, so the screen-space fallback blend never
/// divides by zero.
pub proof fn lemma_den2_pos(t: ScreenTri, x: int, y: int)
    requires
        b1_s(t, x, y) >= 0,
        b2_s(t, x, y) >= 0,
        b3_s(t, x, y) >= 0,
        area_s(t) >= AREA_EPSILON,
    ensures
        den2_s(t, x, y) > 0,
{
    let b1 = b1_s(t, x, y);
    let b2 = b2_s(t, x, y);
    let b3 = b3_s(t, x, y);
    let m0 = max3_s(b1, b2, b3);
    lemma_scale_pow(m0);
    let pow = scale_pow(m0);
    lemma_div_pos_is_pos(b1, pow);
    lemma_div_pos_is_pos(b2, pow);
    lemma_div_pos_is_pos(b3, pow);
    if pow == 1 {
        vstd::arithmetic::div_mod::lemma_div_basics(b1);
        vstd::arithmetic::div_mod::lemma_div_basics(b2);
        vstd::arithmetic::div_mod::lemma_div_basics(b3);
        lemma_edge_sum(
            t.ax as int,
            t.ay as int,
            t.bx as int,
            t.by as int,
            t.cx as int,
            t.cy as int,
            px_s(x),
            px_s(y),
        );
        assert(b1 + b2 + b3 == area_s(t));
    } else {
        assert(m0 / pow >= 549755813888);
    }
}

/// Dividing an exact multiple gives back the factor, also under
/// truncation toward zero.
pub proof fn lemma_sdiv_mul_cancel(p: int, d: int)
    requires
        d != 0,
        FX_MIN <= p <= FX_MAX,
    ensures
        sdiv_trunc(p * d, d) == p,
{
    crate::fx::lemma_abs_mul(p, d);
    crate::fx::lemma_mul_sign(p, d);
    vstd::arithmetic::mul::lemma_mul_nonzero(p, d);
    lemma_div_by_multiple(sabs(p), sabs(d));
    assert(sabs(p) * sabs(d) == sabs(p * d));
}

/// A constant is its own weighted blend: whatever the three weights, as
/// long as their sum is the (nonzero) divisor, the interpolation of one
/// repeated value returns that value exactly.
pub proof fn lemma_attr_constant(w1: int, w2: int, w3: int, den: int, c: int)
    requires
        den == w1 + w2 + w3,
        den != 0,
        FX_MIN <= c <= FX_MAX,
    ensures
        attr_s(w1, w2, w3, den, c, c, c) == c,
{
    assert(w1 * c + w2 * c + w3 * c == c * den) by (nonlinear_arith)
        requires
            den == w1 + w2 + w3,
    ;
    lemma_sdiv_mul_cancel(c, den);
}

/// Perspective-correctness: when all three vertices carry the same
/// attribute value, the `1/w`-weighted interpolation returns exactly that
/// value at every accepted pixel, whatever the three `w` are.  (A plain
/// screen-space blend would not survive the final division exactly for
/// differing `w`; here the numerator is literally `attribute * divisor`.)
pub proof fn lemma_perspective_constant(t: ScreenTri, x: int, y: int)
    requires
        tri_wf(t),
        accept_s(t, x, y),
        area_s(t) >= AREA_EPSILON,
        t.p1 == t.p2,
        t.p2 == t.p3,
    ensures
        frag_s(t, x, y).vertex_position == t.p1,
{
    let den = den_s(t, x, y);
    if den != 0 {
        lemma_attr_constant(wq1_s(t, x, y), wq2_s(t, x, y), wq3_s(t, x, y), den, t.p1.x as int);
        lemma_attr_constant(wq1_s(t, x, y), wq2_s(t, x, y), wq3_s(t, x, y), den, t.p1.y as int);
        lemma_attr_constant(wq1_s(t, x, y), wq2_s(t, x, y), wq3_s(t, x, y), den, t.p1.z as int);
    } else {
        lemma_den2_pos(t, x, y);
        let den2 = den2_s(t, x, y);
        lemma_attr_constant(t1_s(t, x, y), t2_s(t, x, y), t3_s(t, x, y), den2, t.p1.x as int);
        lemma_attr_constant(t1_s(t, x, y), t2_s(t, x, y), t3_s(t, x, y), den2, t.p1.y as int);
        lemma_attr_constant(t1_s(t, x, y), t2_s(t, x, y), t3_s(t, x, y), den2, t.p1.z as int);
    }
}

/// A triangle whose three vertices sit at one NDC depth yields fragments
/// at exactly that depth: the weighted blend of a constant is that
/// constant, even in integer arithmetic.
pub proof fn lemma_flat_depth(t: ScreenTri, x: int, y: int)
    requires
        tri_wf(t),
        accept_s(t, x, y),
        area_s(t) >= AREA_EPSILON,
        t.az == t.bz,
        t.bz == t.cz,
    ensures
        frag_s(t, x, y).depth == t.az,
{
    let den = den_s(t, x, y);
    if den != 0 {
        lemma_attr_constant(wq1_s(t, x, y), wq2_s(t, x, y), wq3_s(t, x, y), den, t.az as int);
    } else {
        lemma_den2_pos(t, x, y);
        lemma_attr_constant(
            t1_s(t, x, y),
            t2_s(t, x, y),
            t3_s(t, x, y),
            den2_s(t, x, y),
            t.az as int,
        );
    }
}

/// Clamp a wide intermediate into the representable fixed-point range.
fn clamp128(v: i128) -> (r: i64)
    ensures
        r as int == sat(v as int),
{
    if v > (FX_MAX as i128) {
        FX_MAX
    } else if v < (FX_MIN as i128) {
        FX_MIN
    } else {
        v as i64
    }
}

/// Magnitude bound on a perspective weight: dividing anything bounded by
/// 2^72 by a `w` past the guard leaves at most 2^60.
pub proof fn lemma_wq_bound(n: int, d: int)
    requires
        sabs(n) <= 4722366482869645213696,
        sabs(d) >= 4295,
    ensures
        sabs(sdiv_trunc(n, d)) <= 1152921504606846976,
{
    lemma_div_is_ordered_by_denominator(sabs(n), 4295, sabs(d));
    lemma_div_is_ordered(sabs(n), 4722366482869645213696, 4295);
    lemma_div_pos_is_pos(sabs(n), sabs(d));
}

/// Evaluate one pixel of a prepared triangle: `Some` fragment exactly for
/// accepted pixels, with the interpolated values the spec mirrors give.
pub fn pixel_frag(t: &ScreenTri, x: usize, y: usize) -> (r: Option<Fragment>)
    requires
        tri_wf(*t),
        x < MAX_DIM,
        y < MAX_DIM,
        area_s(*t) >= AREA_EPSILON,
    ensures
        r == if accept_s(*t, x as int, y as int) {
            Option::Some(frag_s(*t, x as int, y as int))
        } else {
            Option::None::<Fragment>
        },
{
    let px: i64 = (x as i64) * 65536 + 32768;
    let py: i64 = (y as i64) * 65536 + 32768;
    let b1: i128 = edge_q16(t.bx, t.by, t.cx, t.cy, px, py);
    let b2: i128 = edge_q16(t.cx, t.cy, t.ax, t.ay, px, py);
    let b3: i128 = edge_q16(t.ax, t.ay, t.bx, t.by, px, py);
    proof {
        assert(px as int == px_s(x as int));
        assert(py as int == px_s(y as int));
    }
    if b1 >= 0 && b2 >= 0 && b3 >= 0 {
        let ub1: u128 = b1 as u128;
        let ub2: u128 = b2 as u128;
        let ub3: u128 = b3 as u128;
        let m0: u128 = if ub1 >= ub2 && ub1 >= ub3 {
            ub1
        } else if ub2 >= ub3 {
            ub2
        } else {
            ub3
        };
        assert(m0 as int == max3_s(b1 as int, b2 as int, b3 as int));
        let mut m: u128 = m0;
        let mut pow: u128 = 1;
        proof {
            vstd::arithmetic::div_mod::lemma_div_basics(m0 as int);
        }
        while m >= 1099511627776u128
            invariant
                1 <= pow,
                m0 <= 9671406556917033397649408u128,
                m as int == (m0 as int) / (pow as int),
                scale_pow(m0 as int) == (pow as int) * scale_pow(m as int),
            decreases m,
        {
            proof {
                assert(m0 as int >= pow as int) by {
                    vstd::arithmetic::div_mod::lemma_fundamental_div_mod(
                        m0 as int,
                        pow as int,
                    );
                    vstd::arithmetic::mul::lemma_mul_inequality(1, m as int, pow as int);
                    vstd::arithmetic::div_mod::lemma_mod_division_less_than_divisor(
                        m0 as int,
                        pow as int,
                    );
                    assert((pow as int) * (m as int) >= (pow as int) * 1) by (nonlinear_arith)
                        requires
                            m as int >= 1,
                            pow as int >= 1,
                    ;
                }
                lemma_div_denominator(m0 as int, pow as int, 2);
                assert(scale_pow(m as int) == 2 * scale_pow(m as int / 2));
                vstd::arithmetic::mul::lemma_mul_is_associative(
                    pow as int,
                    2,
                    scale_pow(m as int / 2),
                );
            }
            m = m / 2;
            pow = pow * 2;
        }
        proof {
            assert(scale_pow(m as int) == 1);
            assert(pow as int == scale_pow(m0 as int));
            lemma_scale_pow(m0 as int);
            lemma_t_bounds(*t, x as int, y as int);
        }
        let t1: u128 = ub1 / pow;
        let t2: u128 = ub2 / pow;
        let t3: u128 = ub3 / pow;
        assert(t1 as int == t1_s(*t, x as int, y as int));
        assert(t2 as int == t2_s(*t, x as int, y as int));
        assert(t3 as int == t3_s(*t, x as int, y as int));
        let den2: u128 = t1 + t2 + t3;
        proof {
            lemma_den2_pos(*t, x as int, y as int);
        }
        let az128: i128 = t.az as i128;
        let bz128: i128 = t.bz as i128;
        let cz128: i128 = t.cz as i128;
        let wq1: i128 = tdiv128((t1 as i128) * 4294967296, t.aw as i128);
        let wq2: i128 = tdiv128((t2 as i128) * 4294967296, t.bw as i128);
        let wq3: i128 = tdiv128((t3 as i128) * 4294967296, t.cw as i128);
        proof {
            lemma_wq_bound((t1 as i128 * 4294967296) as int, t.aw as int);
            lemma_wq_bound((t2 as i128 * 4294967296) as int, t.bw as int);
            lemma_wq_bound((t3 as i128 * 4294967296) as int, t.cw as int);
        }
        let den: i128 = wq1 + wq2 + wq3;
        let p1x: i128 = t.p1.x as i128;
        let p2x: i128 = t.p2.x as i128;
        let p3x: i128 = t.p3.x as i128;
        let p1y: i128 = t.p1.y as i128;
        let p2y: i128 = t.p2.y as i128;
        let p3y: i128 = t.p3.y as i128;
        let p1z: i128 = t.p1.z as i128;
        let p2z: i128 = t.p2.z as i128;
        let p3z: i128 = t.p3.z as i128;
        if den != 0 {
            proof {
                lemma_attr_products(wq1 as int, p1x as int, p1y as int, p1z as int);
                lemma_attr_products(wq2 as int, p2x as int, p2y as int, p2z as int);
                lemma_attr_products(wq3 as int, p3x as int, p3y as int, p3z as int);
                lemma_attr_products(wq1 as int, az128 as int, az128 as int, az128 as int);
                lemma_attr_products(wq2 as int, bz128 as int, bz128 as int, bz128 as int);
                lemma_attr_products(wq3 as int, cz128 as int, cz128 as int, cz128 as int);
            }
            let num_d: i128 = wq1 * az128 + wq2 * bz128 + wq3 * cz128;
            let depth: i64 = clamp128(tdiv128(num_d, den));
            let num_x: i128 = wq1 * p1x + wq2 * p2x + wq3 * p3x;
            let num_y: i128 = wq1 * p1y + wq2 * p2y + wq3 * p3y;
            let num_z: i128 = wq1 * p1z + wq2 * p2z + wq3 * p3z;
            let vx: i64 = clamp128(tdiv128(num_x, den));
            let vy: i64 = clamp128(tdiv128(num_y, den));
            let vz: i64 = clamp128(tdiv128(num_z, den));
            Some(Fragment { x, y, depth, vertex_position: V3 { x: vx, y: vy, z: vz } })
        } else {
            let w1: i128 = t1 as i128;
            let w2: i128 = t2 as i128;
            let w3: i128 = t3 as i128;
            proof {
                lemma_attr_products(w1 as int, p1x as int, p1y as int, p1z as int);
                lemma_attr_products(w2 as int, p2x as int, p2y as int, p2z as int);
                lemma_attr_products(w3 as int, p3x as int, p3y as int, p3z as int);
                lemma_attr_products(w1 as int, az128 as int, az128 as int, az128 as int);
                lemma_attr_products(w2 as int, bz128 as int, bz128 as int, bz128 as int);
                lemma_attr_products(w3 as int, cz128 as int, cz128 as int, cz128 as int);
            }
            let num_d: i128 = w1 * az128 + w2 * bz128 + w3 * cz128;
            let depth: i64 = clamp128(tdiv128(num_d, den2 as i128));
            let num_x: i128 = w1 * p1x + w2 * p2x + w3 * p3x;
            let num_y: i128 = w1 * p1y + w2 * p2y + w3 * p3y;
            let num_z: i128 = w1 * p1z + w2 * p2z + w3 * p3z;
            let vx: i64 = clamp128(tdiv128(num_x, den2 as i128));
            let vy: i64 = clamp128(tdiv128(num_y, den2 as i128));
            let vz: i64 = clamp128(tdiv128(num_z, den2 as i128));
            Some(Fragment { x, y, depth, vertex_position: V3 { x: vx, y: vy, z: vz } })
        }
    } else {
        None
    }
}

/// Bounds on the products of one perspective weight with the components
/// of one vertex attribute, keeping the interpolation sums inside `i128`.
pub proof fn lemma_attr_products(w: int, px: int, py: int, pz: int)
    by (nonlinear_arith)
    requires
        sabs(w) <= 1152921504606846976,
        sabs(px) <= 9223372036854775807,
        sabs(py) <= 9223372036854775807,
        sabs(pz) <= 9223372036854775807,
    ensures
        sabs(w * px) <= 10633823966279326983230456482242756608,
        sabs(w * py) <= 10633823966279326983230456482242756608,
        sabs(w * pz) <= 10633823966279326983230456482242756608,
{
}

/// Smallest of three values.
pub open spec fn min3_s(a: int, b: int, c: int) -> int {
    if a <= b && a <= c {
        a
    } else if b <= c {
        b
    } else {
        c
    }
}

/// Unclamped bounding-box left edge: floor of the smallest screen x.
pub open spec fn raw_x0_s(t: ScreenTri) -> int {
    min3_s(t.ax as int, t.bx as int, t.cx as int) / 65536
}

/// Unclamped bounding-box right edge: ceiling of the largest screen x.
pub open spec fn raw_x1_s(t: ScreenTri) -> int {
    (max3_s(t.ax as int, t.bx as int, t.cx as int) + 65535) / 65536
}

/// Unclamped bounding-box top edge.
pub open spec fn raw_y0_s(t: ScreenTri) -> int {
    min3_s(t.ay as int, t.by as int, t.cy as int) / 65536
}

/// Unclamped bounding-box bottom edge.
pub open spec fn raw_y1_s(t: ScreenTri) -> int {
    (max3_s(t.ay as int, t.by as int, t.cy as int) + 65535) / 65536
}

/// The bounding box misses the framebuffer entirely.
pub open spec fn offscreen_s(t: ScreenTri, width: int, height: int) -> bool {
    raw_x0_s(t) > width - 1 || raw_y0_s(t) > height - 1 || raw_x1_s(t) < 0 || raw_y1_s(t) < 0
}

/// Bounding box clamped to the framebuffer, left edge.
pub open spec fn bbox_x0_s(t: ScreenTri) -> int {
    if raw_x0_s(t) < 0 {
        0
    } else {
        raw_x0_s(t)
    }
}

/// Bounding box clamped to the framebuffer, right edge.
pub open spec fn bbox_x1_s(t: ScreenTri, width: int) -> int {
    if raw_x1_s(t) > width - 1 {
        width - 1
    } else {
        raw_x1_s(t)
    }
}

/// Bounding box clamped to the framebuffer, top edge.
pub open spec fn bbox_y0_s(t: ScreenTri) -> int {
    if raw_y0_s(t) < 0 {
        0
    } else {
        raw_y0_s(t)
    }
}

/// Bounding box clamped to the framebuffer, bottom edge.
pub open spec fn bbox_y1_s(t: ScreenTri, height: int) -> int {
    if raw_y1_s(t) > height - 1 {
        height - 1
    } else {
        raw_y1_s(t)
    }
}

/// The fragments of the first `k` pixels of row `y`, scanning from column
/// `x0`: one fragment per accepted pixel, in x order.
pub open spec fn row_s(t: ScreenTri, y: int, x0: int, k: nat) -> Seq<Fragment>
    decreases k,
{
    if k == 0 {
        Seq::<Fragment>::empty()
    } else {
        let prev = row_s(t, y, x0, (k - 1) as nat);
        if accept_s(t, x0 + k - 1, y) {
            prev.push(frag_s(t, x0 + k - 1, y))
        } else {
            prev
        }
    }
}

/// The fragments of the first `j` rows of the walked bounding box, each
/// row `xcount` pixels wide, in row-major order.
pub open spec fn rows_s(t: ScreenTri, x0: int, xcount: nat, y0: int, j: nat) -> Seq<Fragment>
    decreases j,
{
    if j == 0 {
        Seq::<Fragment>::empty()
    } else {
        rows_s(t, x0, xcount, y0, (j - 1) as nat) + row_s(t, y0 + j - 1, x0, xcount)
    }
}

/// The full fragment sequence of one rasterized triangle: empty when the
/// perspective-divide guard, the bounding box, the degenerate-area guard
/// or the back-face cull rejects it; otherwise the row-major enumeration
/// of all accepted pixels of the clamped bounding box.
#[verifier::opaque]
pub open spec fn triangle_s(v1: Vertex, v2: Vertex, v3: Vertex, width: int, height: int) -> Seq<
    Fragment,
> {
    if sabs(v1.transformed_position.w as int) < W_EPSILON || sabs(
        v2.transformed_position.w as int,
    ) < W_EPSILON || sabs(v3.transformed_position.w as int) < W_EPSILON {
        Seq::<Fragment>::empty()
    } else {
        let t = setup_s(v1, v2, v3, width, height);
        if offscreen_s(t, width, height) {
            Seq::<Fragment>::empty()
        } else if sabs(area_s(t)) < AREA_EPSILON {
            Seq::<Fragment>::empty()
        } else if area_s(t) < 0 {
            Seq::<Fragment>::empty()
        } else {
            rows_s(
                t,
                bbox_x0_s(t),
                (bbox_x1_s(t, width) - bbox_x0_s(t) + 1) as nat,
                bbox_y0_s(t),
                (bbox_y1_s(t, height) - bbox_y0_s(t) + 1) as nat,
            )
        }
    }
}

/// Every fragment of one enumerated row lies in that row, between the
/// first and last walked column.
pub proof fn lemma_row_bounds(t: ScreenTri, y: int, x0: int, k: nat)
    requires
        0 <= x0,
        x0 + k <= MAX_DIM,
        0 <= y < MAX_DIM,
    ensures
        forall|i: int|
            0 <= i < row_s(t, y, x0, k).len() ==> {
                let f = #[trigger] row_s(t, y, x0, k)[i];
                x0 <= f.x as int <= x0 + k - 1 && f.y as int == y && v3_ok(f.vertex_position)
                    && FX_MIN <= f.depth
            },
    decreases k,
{
    if k > 0 {
        lemma_row_bounds(t, y, x0, (k - 1) as nat);
        let prev = row_s(t, y, x0, (k - 1) as nat);
        let cur = row_s(t, y, x0, k);
        assert forall|i: int| 0 <= i < cur.len() implies {
            let f = #[trigger] cur[i];
            x0 <= f.x as int <= x0 + k - 1 && f.y as int == y && v3_ok(f.vertex_position)
                && FX_MIN <= f.depth
        } by {
            if i < prev.len() {
                assert(cur[i] == prev[i]);
            } else {
                assert(cur[i] == frag_s(t, x0 + k - 1, y));
            }
        }
    }
}

/// Every fragment of the walked bounding box lies inside it.
pub proof fn lemma_rows_bounds(t: ScreenTri, x0: int, xcount: nat, y0: int, j: nat)
    requires
        0 <= x0,
        x0 + xcount <= MAX_DIM,
        0 <= y0,
        y0 + j <= MAX_DIM,
    ensures
        forall|i: int|
            0 <= i < rows_s(t, x0, xcount, y0, j).len() ==> {
                let f = #[trigger] rows_s(t, x0, xcount, y0, j)[i];
                x0 <= f.x as int <= x0 + xcount - 1 && y0 <= f.y as int <= y0 + j - 1
                    && v3_ok(f.vertex_position) && FX_MIN <= f.depth
            },
    decreases j,
{
    if j > 0 {
        lemma_rows_bounds(t, x0, xcount, y0, (j - 1) as nat);
        lemma_row_bounds(t, y0 + j - 1, x0, xcount);
        let prev = rows_s(t, x0, xcount, y0, (j - 1) as nat);
        let row = row_s(t, y0 + j - 1, x0, xcount);
        let cur = rows_s(t, x0, xcount, y0, j);
        assert forall|i: int| 0 <= i < cur.len() implies {
            let f = #[trigger] cur[i];
            x0 <= f.x as int <= x0 + xcount - 1 && y0 <= f.y as int <= y0 + j - 1
                && v3_ok(f.vertex_position) && FX_MIN <= f.depth
        } by {
            if i < prev.len() {
                assert(cur[i] == prev[i]);
            } else {
                assert(cur[i] == row[i - prev.len()]);
            }
        }
    }
}

/// Exact screen-x mapping with saturation.
fn screen_x(ndc: i64, width: usize) -> (r: i64)
    requires
        1 <= width <= MAX_DIM,
    ensures
        r == screen_x_s(ndc as int, width as int),
        -SCREEN_SAT <= r <= SCREEN_SAT,
{
    let s: i128 = (ndc as i128) + 0x1_0000_0000;
    let w128: i128 = width as i128;
    assert(-604462909807314587353088i128 <= s * w128 <= 604462909807314587353088i128)
        by (nonlinear_arith)
        requires
            -18446744073709551616i128 <= s <= 18446744073709551616i128,
            0 <= w128 <= 16384,
    ;
    let num: i128 = s * w128;
    let v: i128 = tdiv128(num, 131072);
    if v > (SCREEN_SAT as i128) {
        SCREEN_SAT
    } else if v < (-SCREEN_SAT as i128) {
        -SCREEN_SAT
    } else {
        v as i64
    }
}

/// Exact screen-y mapping with saturation.
fn screen_y(ndc: i64, height: usize) -> (r: i64)
    requires
        1 <= height <= MAX_DIM,
    ensures
        r == screen_y_s(ndc as int, height as int),
        -SCREEN_SAT <= r <= SCREEN_SAT,
{
    let s: i128 = 0x1_0000_0000 - (ndc as i128);
    let h128: i128 = height as i128;
    assert(-604462909807314587353088i128 <= s * h128 <= 604462909807314587353088i128)
        by (nonlinear_arith)
        requires
            -18446744073709551616i128 <= s <= 18446744073709551616i128,
            0 <= h128 <= 16384,
    ;
    let num: i128 = s * h128;
    let v: i128 = tdiv128(num, 131072);
    if v > (SCREEN_SAT as i128) {
        SCREEN_SAT
    } else if v < (-SCREEN_SAT as i128) {
        -SCREEN_SAT
    } else {
        v as i64
    }
}

/// Prepare the screen triangle (perspective divide and screen mapping).
fn setup_screen(v1: &Vertex, v2: &Vertex, v3: &Vertex, width: usize, height: usize) -> (t:
    ScreenTri)
    requires
        vertex_ok(*v1),
        vertex_ok(*v2),
        vertex_ok(*v3),
        1 <= width <= MAX_DIM,
        1 <= height <= MAX_DIM,
        sabs(v1.transformed_position.w as int) >= W_EPSILON,
        sabs(v2.transformed_position.w as int) >= W_EPSILON,
        sabs(v3.transformed_position.w as int) >= W_EPSILON,
    ensures
        t == setup_s(*v1, *v2, *v3, width as int, height as int),
        tri_wf(t),
{
    let a_ndc_x: i64 = fx_div(v1.transformed_position.x, v1.transformed_position.w);
    let a_ndc_y: i64 = fx_div(v1.transformed_position.y, v1.transformed_position.w);
    let a_ndc_z: i64 = fx_div(v1.transformed_position.z, v1.transformed_position.w);
    let b_ndc_x: i64 = fx_div(v2.transformed_position.x, v2.transformed_position.w);
    let b_ndc_y: i64 = fx_div(v2.transformed_position.y, v2.transformed_position.w);
    let b_ndc_z: i64 = fx_div(v2.transformed_position.z, v2.transformed_position.w);
    let c_ndc_x: i64 = fx_div(v3.transformed_position.x, v3.transformed_position.w);
    let c_ndc_y: i64 = fx_div(v3.transformed_position.y, v3.transformed_position.w);
    let c_ndc_z: i64 = fx_div(v3.transformed_position.z, v3.transformed_position.w);
    ScreenTri {
        ax: screen_x(a_ndc_x, width),
        ay: screen_y(a_ndc_y, height),
        az: a_ndc_z,
        aw: v1.transformed_position.w,
        bx: screen_x(b_ndc_x, width),
        by: screen_y(b_ndc_y, height),
        bz: b_ndc_z,
        bw: v2.transformed_position.w,
        cx: screen_x(c_ndc_x, width),
        cy: screen_y(c_ndc_y, height),
        cz: c_ndc_z,
        cw: v3.transformed_position.w,
        p1: v1.position,
        p2: v2.position,
        p3: v3.position,
    }
}

/// Rasterize one triangle into fragments.
///
/// Rejects (returning no fragments) triangles with a near-zero
/// homogeneous `w`, a bounding box fully off screen, a degenerate screen
/// area, or reversed (back-facing) winding; otherwise walks the clamped
/// bounding box and emits one fragment per pixel center inside the
/// triangle, perspective-correctly interpolated.  An empty result is a
/// valid outcome, not an error.
#[verifier::loop_isolation(false)]
pub fn triangle(v1: &Vertex, v2: &Vertex, v3: &Vertex, width: usize, height: usize) -> (frags: Vec<
    Fragment,
>)
    requires
        vertex_ok(*v1),
        vertex_ok(*v2),
        vertex_ok(*v3),
        1 <= width <= MAX_DIM,
        1 <= height <= MAX_DIM,
    ensures
        frags@ == triangle_s(*v1, *v2, *v3, width as int, height as int),
        sabs(v1.transformed_position.w as int) < W_EPSILON || sabs(
            v2.transformed_position.w as int,
        ) < W_EPSILON || sabs(v3.transformed_position.w as int) < W_EPSILON ==> frags@.len() == 0,
        area_s(setup_s(*v1, *v2, *v3, width as int, height as int)) < 0 ==> frags@.len() == 0,
        forall|i: int|
            0 <= i < frags@.len() ==> {
                let f = #[trigger] frags@[i];
                let t = setup_s(*v1, *v2, *v3, width as int, height as int);
                &&& (f.x as int) < width
                &&& (f.y as int) < height
                &&& bbox_x0_s(t) <= f.x as int <= bbox_x1_s(t, width as int)
                &&& bbox_y0_s(t) <= f.y as int <= bbox_y1_s(t, height as int)
                &&& v3_ok(f.vertex_position)
                &&& FX_MIN <= f.depth
            },
{
    proof {
        reveal(triangle_s);
    }
    let aw: i64 = v1.transformed_position.w;
    let bw: i64 = v2.transformed_position.w;
    let cw: i64 = v3.transformed_position.w;
    if fx_abs(aw) < W_EPSILON || fx_abs(bw) < W_EPSILON || fx_abs(cw) < W_EPSILON {
        return Vec::new();
    }
    let t: ScreenTri = setup_screen(v1, v2, v3, width, height);
    let min_x_r: i64 = fdiv64(fx_min(fx_min(t.ax, t.bx), t.cx), 65536);
    let max_x_r: i64 = cdiv64(fx_max(fx_max(t.ax, t.bx), t.cx), 65536);
    let min_y_r: i64 = fdiv64(fx_min(fx_min(t.ay, t.by), t.cy), 65536);
    let max_y_r: i64 = cdiv64(fx_max(fx_max(t.ay, t.by), t.cy), 65536);
    proof {
        assert(min_x_r as int == raw_x0_s(t));
        assert(max_x_r as int == raw_x1_s(t));
        assert(min_y_r as int == raw_y0_s(t));
        assert(max_y_r as int == raw_y1_s(t));
    }
    if min_x_r > (width as i64) - 1 || min_y_r > (height as i64) - 1 || max_x_r < 0 || max_y_r
        < 0 {
        return Vec::new();
    }
    let area: i128 = edge_q16(t.ax, t.ay, t.bx, t.by, t.cx, t.cy);
    let area_abs: i128 = if area < 0 {
        -area
    } else {
        area
    };
    if area_abs < AREA_EPSILON {
        return Vec::new();
    }
    if area < 0 {
        return Vec::new();
    }
    let x0: i64 = fx_max(min_x_r, 0);
    let x1: i64 = fx_min(max_x_r, (width as i64) - 1);
    let y0: i64 = fx_max(min_y_r, 0);
    let y1: i64 = fx_min(max_y_r, (height as i64) - 1);
    proof {
        assert(x0 as int == bbox_x0_s(t));
        assert(x1 as int == bbox_x1_s(t, width as int));
        assert(y0 as int == bbox_y0_s(t));
        assert(y1 as int == bbox_y1_s(t, height as int));
        assert(min3_s(t.ax as int, t.bx as int, t.cx as int) <= max3_s(
            t.ax as int,
            t.bx as int,
            t.cx as int,
        ));
        lemma_div_is_ordered(
            min3_s(t.ax as int, t.bx as int, t.cx as int),
            max3_s(t.ax as int, t.bx as int, t.cx as int) + 65535,
            65536,
        );
        assert(min3_s(t.ay as int, t.by as int, t.cy as int) <= max3_s(
            t.ay as int,
            t.by as int,
            t.cy as int,
        ));
        lemma_div_is_ordered(
            min3_s(t.ay as int, t.by as int, t.cy as int),
            max3_s(t.ay as int, t.by as int, t.cy as int) + 65535,
            65536,
        );
        assert(x0 <= x1);
        assert(y0 <= y1);
    }
    let ghost xcount: nat = (x1 - x0 + 1) as nat;
    let mut frags: Vec<Fragment> = Vec::new();
    let mut y: i64 = y0;
    while y <= y1
        invariant
            y0 <= y <= y1 + 1,
            frags@ == rows_s(t, x0 as int, xcount, y0 as int, (y - y0) as nat),
        decreases y1 + 1 - y,
    {
        let mut x: i64 = x0;
        while x <= x1
            invariant
                y0 <= y <= y1,
                x0 <= x <= x1 + 1,
                frags@ == rows_s(t, x0 as int, xcount, y0 as int, (y - y0) as nat) + row_s(
                    t,
                    y as int,
                    x0 as int,
                    (x - x0) as nat,
                ),
            decreases x1 + 1 - x,
        {
            match pixel_frag(&t, x as usize, y as usize) {
                Some(f) => { frags.push(f); },
                None => {},
            }
            proof {
                let k = (x - x0 + 1) as nat;
                assert(x0 + k - 1 == x as int);
                assert(row_s(t, y as int, x0 as int, k) == if accept_s(t, x as int, y as int) {
                    row_s(t, y as int, x0 as int, (k - 1) as nat).push(
                        frag_s(t, x as int, y as int),
                    )
                } else {
                    row_s(t, y as int, x0 as int, (k - 1) as nat)
                });
            }
            x = x + 1;
        }
        proof {
            let j = (y - y0 + 1) as nat;
            assert(y0 + j - 1 == y as int);
            assert(rows_s(t, x0 as int, xcount, y0 as int, j) == rows_s(
                t,
                x0 as int,
                xcount,
                y0 as int,
                (j - 1) as nat,
            ) + row_s(t, y as int, x0 as int, xcount));
        }
        y = y + 1;
    }
    proof {
        assert(frags@ == triangle_s(*v1, *v2, *v3, width as int, height as int));
        lemma_rows_bounds(t, x0 as int, xcount, y0 as int, (y1 - y0 + 1) as nat);
    }
    frags
}

} // verus!
