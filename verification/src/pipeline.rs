//! The per-model rendering pass: transform every vertex, group indices
//! into triangles, coarsely cull, rasterize, shade and depth-test into
//! the framebuffer.
//!
//! One frame is one sequential pass; the framebuffer is the only mutated
//! state, and draw order plus the strict depth test decide every pixel.

use vstd::prelude::*;
use crate::framebuffer::{
    Framebuffer, depth_gated, lemma_depth_gated_trans, lemma_write_depth_gated, write_color_s,
    write_depth_s,
};
use crate::fx::{FX_MIN, FX_ONE, fdiv64, fx_abs, fx_clamp, fx_mul, fx_mul_s, sabs};
use crate::geom::{V3, V4, v3_ok, v4_ok};
use crate::raster::{Fragment, MAX_DIM, triangle, triangle_s};
use crate::shaders::{shade, shade_s, transformed_vertex_s, vertex_shader};
use crate::uniforms::{Material, Uniforms, uniforms_ok};
use crate::vertex::{Vertex, vertex_ok};

verus! {

/// One color channel packed to `[0, 255]`: the fixed-point value scaled
/// by 255, clamped, and truncated to an integer.
pub open spec fn pack_ch_s(v: int) -> int {
    let scaled = fx_mul_s(v, 1095216660480);
    let clamped = if scaled < 0 {
        0
    } else if scaled > 1095216660480 {
        1095216660480
    } else {
        scaled
    };
    clamped / (FX_ONE as int)
}

/// A color packed into one `0x00RRGGBB` word.
pub open spec fn pack_color_s(c: V3) -> int {
    pack_ch_s(c.x as int) * 65536 + pack_ch_s(c.y as int) * 256 + pack_ch_s(c.z as int)
}

/// Pack one channel into `[0, 255]`.
fn pack_ch(v: i64) -> (r: u32)
    requires
        FX_MIN <= v,
    ensures
        r == pack_ch_s(v as int),
        r <= 255,
{
    let scaled: i64 = fx_mul(v, 1095216660480);
    let clamped: i64 = fx_clamp(scaled, 0, 1095216660480);
    let ch: i64 = fdiv64(clamped, FX_ONE);
    proof {
        vstd::arithmetic::div_mod::lemma_div_is_ordered(
            clamped as int,
            1095216660480,
            FX_ONE as int,
        );
        vstd::arithmetic::div_mod::lemma_div_pos_is_pos(clamped as int, FX_ONE as int);
    }
    ch as u32
}

/// Pack a shaded color into one `0x00RRGGBB` framebuffer word.
pub fn pack_color(c: V3) -> (r: u32)
    requires
        v3_ok(c),
    ensures
        r == pack_color_s(c),
{
    let red: u32 = pack_ch(c.x);
    let green: u32 = pack_ch(c.y);
    let blue: u32 = pack_ch(c.z);
    red * 65536 + green * 256 + blue
}

/// The loosened per-vertex frustum test of the coarse cull: true when the
/// vertex lies far outside the view volume (`|x| > 1.5*|w|` or
/// `|y| > 1.5*|w|` or `z` outside `[-w, w]`).
pub open spec fn cull_vertex_s(p: V4) -> bool {
    ||| 2 * sabs(p.x as int) > 3 * sabs(p.w as int)
    ||| 2 * sabs(p.y as int) > 3 * sabs(p.w as int)
    ||| (p.z as int) < -(p.w as int)
    ||| (p.z as int) > (p.w as int)
}

/// Evaluate the loosened frustum test for one clip-space position.
fn cull_vertex(p: V4) -> (r: bool)
    requires
        v4_ok(p),
    ensures
        r == cull_vertex_s(p),
{
    let ax: i128 = fx_abs(p.x) as i128;
    let ay: i128 = fx_abs(p.y) as i128;
    let aw: i128 = fx_abs(p.w) as i128;
    2 * ax > 3 * aw || 2 * ay > 3 * aw || (p.z as i128) < -(p.w as i128) || (p.z as i128) > (p.w
        as i128)
}

/// The buffers after the first `k` fragments of one triangle have been
/// shaded, packed and written through the depth test, in order.
pub open spec fn write_frags_s(
    colors: Seq<u32>,
    depths: Seq<i64>,
    frags: Seq<Fragment>,
    material: Material,
    time: i64,
    width: int,
    k: nat,
) -> (Seq<u32>, Seq<i64>)
    decreases k,
{
    if k == 0 {
        (colors, depths)
    } else {
        let prev = write_frags_s(colors, depths, frags, material, time, width, (k - 1) as nat);
        let f = frags[k - 1];
        let col = pack_color_s(shade_s(material, f.vertex_position, time)) as u32;
        let cell = (f.y as int) * width + (f.x as int);
        (
            write_color_s(prev.0, prev.1, cell, col, f.depth),
            write_depth_s(prev.1, cell, f.depth),
        )
    }
}

/// The buffers after the first `n` index triples have been processed: a
/// triple whose three vertices all fail the loosened frustum test leaves
/// them unchanged, every other triple draws its rasterized fragments.
pub open spec fn render_tris_s(
    colors: Seq<u32>,
    depths: Seq<i64>,
    transformed: Seq<Vertex>,
    indices: Seq<u32>,
    u: Uniforms,
    width: int,
    height: int,
    n: nat,
) -> (Seq<u32>, Seq<i64>)
    decreases n,
{
    if n == 0 {
        (colors, depths)
    } else {
        let prev = render_tris_s(
            colors,
            depths,
            transformed,
            indices,
            u,
            width,
            height,
            (n - 1) as nat,
        );
        let v1 = transformed[indices[3 * (n - 1)] as int];
        let v2 = transformed[indices[3 * (n - 1) + 1] as int];
        let v3 = transformed[indices[3 * (n - 1) + 2] as int];
        if cull_vertex_s(v1.transformed_position) && cull_vertex_s(v2.transformed_position)
            && cull_vertex_s(v3.transformed_position) {
            prev
        } else {
            let frags = triangle_s(v1, v2, v3, width, height);
            write_frags_s(prev.0, prev.1, frags, u.material, u.time, width, frags.len())
        }
    }
}

/// The whole per-model pass as a value: every vertex through the
/// transform stage, then every index triple culled or rasterized, shaded
/// and depth-tested in submission order.
pub open spec fn render_model_s(
    colors: Seq<u32>,
    depths: Seq<i64>,
    u: Uniforms,
    vertices: Seq<Vertex>,
    indices: Seq<u32>,
    width: int,
    height: int,
) -> (Seq<u32>, Seq<i64>) {
    let transformed = vertices.map_values(|v: Vertex| transformed_vertex_s(v, u));
    render_tris_s(
        colors,
        depths,
        transformed,
        indices,
        u,
        width,
        height,
        (indices.len() / 3) as nat,
    )
}

/// Run the vertex transform stage over a whole vertex array.
fn transform_vertices(vertices: &Vec<Vertex>, uniforms: &Uniforms) -> (r: Vec<Vertex>)
    requires
        uniforms_ok(*uniforms),
        forall|k: int| 0 <= k < vertices@.len() ==> vertex_ok(#[trigger] vertices@[k]),
    ensures
        r@ == vertices@.map_values(|v: Vertex| transformed_vertex_s(v, *uniforms)),
        r.len() == vertices.len(),
        forall|k: int| 0 <= k < r@.len() ==> vertex_ok(#[trigger] r@[k]),
{
    let mut transformed: Vec<Vertex> = Vec::new();
    let mut k: usize = 0;
    while k < vertices.len()
        invariant
            uniforms_ok(*uniforms),
            forall|j: int| 0 <= j < vertices@.len() ==> vertex_ok(#[trigger] vertices@[j]),
            k <= vertices.len(),
            transformed.len() == k,
            forall|j: int| 0 <= j < k ==> vertex_ok(#[trigger] transformed@[j]),
            forall|j: int|
                0 <= j < k ==> #[trigger] transformed@[j] == transformed_vertex_s(
                    vertices@[j],
                    *uniforms,
                ),
        decreases vertices.len() - k,
    {
        let v: Vertex = vertex_shader(&vertices[k], uniforms);
        transformed.push(v);
        k = k + 1;
    }
    proof {
        assert(transformed@ =~= vertices@.map_values(
            |v: Vertex| transformed_vertex_s(v, *uniforms),
        ));
    }
    transformed
}

/// Shade, pack and depth-test every fragment of one rasterized triangle,
/// in order.
fn draw_frags(framebuffer: &mut Framebuffer, frags: &Vec<Fragment>, uniforms: &Uniforms)
    requires
        old(framebuffer).wf(),
        uniforms_ok(*uniforms),
        forall|i: int|
            0 <= i < frags@.len() ==> {
                let f = #[trigger] frags@[i];
                &&& (f.x as int) < old(framebuffer).width
                &&& (f.y as int) < old(framebuffer).height
                &&& v3_ok(f.vertex_position)
                &&& FX_MIN <= f.depth
            },
    ensures
        final(framebuffer).wf(),
        final(framebuffer).width == old(framebuffer).width,
        final(framebuffer).height == old(framebuffer).height,
        depth_gated(
            old(framebuffer).color@,
            old(framebuffer).depth@,
            final(framebuffer).color@,
            final(framebuffer).depth@,
        ),
        final(framebuffer).color@ == write_frags_s(
            old(framebuffer).color@,
            old(framebuffer).depth@,
            frags@,
            uniforms.material,
            uniforms.time,
            old(framebuffer).width as int,
            frags@.len(),
        ).0,
        final(framebuffer).depth@ == write_frags_s(
            old(framebuffer).color@,
            old(framebuffer).depth@,
            frags@,
            uniforms.material,
            uniforms.time,
            old(framebuffer).width as int,
            frags@.len(),
        ).1,
{
    let width: usize = framebuffer.width;
    let mut j: usize = 0;
    while j < frags.len()
        invariant
            j <= frags.len(),
            framebuffer.wf(),
            framebuffer.width == old(framebuffer).width,
            framebuffer.height == old(framebuffer).height,
            width == framebuffer.width,
            uniforms_ok(*uniforms),
            forall|i: int|
                0 <= i < frags@.len() ==> {
                    let f = #[trigger] frags@[i];
                    &&& (f.x as int) < old(framebuffer).width
                    &&& (f.y as int) < old(framebuffer).height
                    &&& v3_ok(f.vertex_position)
                    &&& FX_MIN <= f.depth
                },
            depth_gated(
                old(framebuffer).color@,
                old(framebuffer).depth@,
                framebuffer.color@,
                framebuffer.depth@,
            ),
            framebuffer.color@ == write_frags_s(
                old(framebuffer).color@,
                old(framebuffer).depth@,
                frags@,
                uniforms.material,
                uniforms.time,
                width as int,
                j as nat,
            ).0,
            framebuffer.depth@ == write_frags_s(
                old(framebuffer).color@,
                old(framebuffer).depth@,
                frags@,
                uniforms.material,
                uniforms.time,
                width as int,
                j as nat,
            ).1,
        decreases frags.len() - j,
    {
        let f = frags[j];
        let color_vec: V3 = shade(uniforms.material, f.vertex_position, uniforms.time);
        let color: u32 = pack_color(color_vec);
        framebuffer.set_current_color(color);
        let ghost colors_before = framebuffer.color@;
        let ghost depths_before = framebuffer.depth@;
        framebuffer.point(f.x, f.y, f.depth);
        proof {
            framebuffer.lemma_cell_in_range(f.x as int, f.y as int);
            lemma_write_depth_gated(
                colors_before,
                depths_before,
                framebuffer.cell(f.x as int, f.y as int),
                framebuffer.current_color,
                f.depth,
            );
            lemma_depth_gated_trans(
                old(framebuffer).color@,
                old(framebuffer).depth@,
                colors_before,
                depths_before,
                framebuffer.color@,
                framebuffer.depth@,
            );
            assert(color == pack_color_s(
                shade_s(uniforms.material, f.vertex_position, uniforms.time),
            ) as u32);
            assert(framebuffer.cell(f.x as int, f.y as int) == (f.y as int) * (width as int) + (
            f.x as int));
            assert(f == frags@[j as int]);
            assert(framebuffer.color@ == write_frags_s(
                old(framebuffer).color@,
                old(framebuffer).depth@,
                frags@,
                uniforms.material,
                uniforms.time,
                width as int,
                (j + 1) as nat,
            ).0 && framebuffer.depth@ == write_frags_s(
                old(framebuffer).color@,
                old(framebuffer).depth@,
                frags@,
                uniforms.material,
                uniforms.time,
                width as int,
                (j + 1) as nat,
            ).1);
        }
        j = j + 1;
    }
}

/// Render one model: run the vertex transform stage over all vertices,
/// walk the index array three entries at a time, skip triangles whose
/// three vertices all fail the loosened frustum test, rasterize the rest,
/// shade every fragment by the material tag and write it through the
/// depth test.  The resulting buffers are exactly `render_model_s` of the
/// starting buffers — so only fragment-covered pixels can change, each
/// write carries the packed, shaded color of its fragment, and no stored
/// depth ever grows.  Never fails.  Indices must reference the vertex
/// array (a violation is a caller bug, ruled out here rather than
/// detected at run time).
#[verifier::loop_isolation(false)]
#[verifier::rlimit(100)]
pub fn render_model(
    framebuffer: &mut Framebuffer,
    uniforms: &Uniforms,
    vertices: &Vec<Vertex>,
    indices: &Vec<u32>,
)
    requires
        old(framebuffer).wf(),
        1 <= old(framebuffer).width <= MAX_DIM,
        1 <= old(framebuffer).height <= MAX_DIM,
        uniforms_ok(*uniforms),
        forall|k: int| 0 <= k < vertices@.len() ==> vertex_ok(#[trigger] vertices@[k]),
        forall|k: int| 0 <= k < indices@.len() ==> (#[trigger] indices@[k]) < vertices@.len(),
        indices@.len() % 3 == 0,
    ensures
        final(framebuffer).wf(),
        final(framebuffer).width == old(framebuffer).width,
        final(framebuffer).height == old(framebuffer).height,
        depth_gated(
            old(framebuffer).color@,
            old(framebuffer).depth@,
            final(framebuffer).color@,
            final(framebuffer).depth@,
        ),
        final(framebuffer).color@ == render_model_s(
            old(framebuffer).color@,
            old(framebuffer).depth@,
            *uniforms,
            vertices@,
            indices@,
            old(framebuffer).width as int,
            old(framebuffer).height as int,
        ).0,
        final(framebuffer).depth@ == render_model_s(
            old(framebuffer).color@,
            old(framebuffer).depth@,
            *uniforms,
            vertices@,
            indices@,
            old(framebuffer).width as int,
            old(framebuffer).height as int,
        ).1,
{
    let transformed: Vec<Vertex> = transform_vertices(vertices, uniforms);
    let width: usize = framebuffer.width;
    let height: usize = framebuffer.height;
    let mut i: usize = 0;
    let ghost mut tri: int = 0;
    while i < indices.len()
        invariant
            i <= indices.len(),
            i == 3 * tri,
            0 <= tri,
            framebuffer.wf(),
            framebuffer.width == old(framebuffer).width,
            framebuffer.height == old(framebuffer).height,
            width == framebuffer.width,
            height == framebuffer.height,
            depth_gated(
                old(framebuffer).color@,
                old(framebuffer).depth@,
                framebuffer.color@,
                framebuffer.depth@,
            ),
            framebuffer.color@ == render_tris_s(
                old(framebuffer).color@,
                old(framebuffer).depth@,
                transformed@,
                indices@,
                *uniforms,
                width as int,
                height as int,
                tri as nat,
            ).0,
            framebuffer.depth@ == render_tris_s(
                old(framebuffer).color@,
                old(framebuffer).depth@,
                transformed@,
                indices@,
                *uniforms,
                width as int,
                height as int,
                tri as nat,
            ).1,
        decreases indices.len() - i,
    {
        let ghost c_at = framebuffer.color@;
        let ghost d_at = framebuffer.depth@;
        let i1: usize = indices[i] as usize;
        let i2: usize = indices[i + 1] as usize;
        let i3: usize = indices[i + 2] as usize;
        let v1: Vertex = transformed[i1];
        let v2: Vertex = transformed[i2];
        let v3: Vertex = transformed[i3];
        proof {
            assert(v1 == transformed@[indices@[3 * tri] as int]);
            assert(v2 == transformed@[indices@[3 * tri + 1] as int]);
            assert(v3 == transformed@[indices@[3 * tri + 2] as int]);
        }
        let all_out: bool = cull_vertex(v1.transformed_position) && cull_vertex(
            v2.transformed_position,
        ) && cull_vertex(v3.transformed_position);
        if !all_out {
            let frags = triangle(&v1, &v2, &v3, width, height);
            draw_frags(framebuffer, &frags, uniforms);
            proof {
                assert(frags@ == triangle_s(v1, v2, v3, width as int, height as int));
                assert(render_tris_s(
                    old(framebuffer).color@,
                    old(framebuffer).depth@,
                    transformed@,
                    indices@,
                    *uniforms,
                    width as int,
                    height as int,
                    (tri + 1) as nat,
                ) == (framebuffer.color@, framebuffer.depth@));
            }
        } else {
            proof {
                assert(render_tris_s(
                    old(framebuffer).color@,
                    old(framebuffer).depth@,
                    transformed@,
                    indices@,
                    *uniforms,
                    width as int,
                    height as int,
                    (tri + 1) as nat,
                ) == (framebuffer.color@, framebuffer.depth@));
            }
        }
        i = i + 3;
        proof {
            tri = tri + 1;
        }
    }
    proof {
        vstd::arithmetic::div_mod::lemma_div_by_multiple(tri, 3);
        vstd::arithmetic::mul::lemma_mul_is_commutative(3, tri);
        assert(tri == indices@.len() / 3);
    }
}

} // verus!
