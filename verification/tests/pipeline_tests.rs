use softraster::framebuffer::{BACKGROUND, DEPTH_INF, Framebuffer};
use softraster::fx::{FX_ONE, cdiv64, fdiv64, fx_add, fx_clamp, fx_div, fx_mul, fx_sub};
use softraster::geom::{M3, M4, V2, V3, V4, fx_sqrt, m3_det, v3_len, v3_lerp, v3_normalize};
use softraster::pipeline::{pack_color, render_model};
use softraster::raster::{Fragment, triangle};
use softraster::shaders::{shade, shade_star, vertex_shader};
use softraster::uniforms::{Material, Uniforms};
use softraster::vertex::Vertex;

fn clip_vertex(x: i64, y: i64, z: i64, w: i64, pos: V3) -> Vertex {
    Vertex {
        position: pos,
        normal: V3 { x: 0, y: FX_ONE, z: 0 },
        tex_coords: V2 { x: 0, y: 0 },
        transformed_position: V4 { x, y, z, w },
        transformed_normal: V3 { x: 0, y: FX_ONE, z: 0 },
    }
}

fn m4_identity() -> M4 {
    M4 {
        r0: V4 { x: FX_ONE, y: 0, z: 0, w: 0 },
        r1: V4 { x: 0, y: FX_ONE, z: 0, w: 0 },
        r2: V4 { x: 0, y: 0, z: FX_ONE, w: 0 },
        r3: V4 { x: 0, y: 0, z: 0, w: FX_ONE },
    }
}

#[test]
fn unit_triangle_covers_expected_region_with_flat_depth() {
    // Clip-space triangle (0,0,-1,1), (1,0,-1,1), (0,1,-1,1) into 800x600:
    // screen corners (400,300), (800,300), (400,0); every fragment must
    // carry depth exactly -1.
    let p = V3 { x: FX_ONE, y: FX_ONE, z: FX_ONE };
    let v1 = clip_vertex(0, 0, -FX_ONE, FX_ONE, p);
    let v2 = clip_vertex(FX_ONE, 0, -FX_ONE, FX_ONE, p);
    let v3 = clip_vertex(0, FX_ONE, -FX_ONE, FX_ONE, p);
    let frags = triangle(&v1, &v2, &v3, 800, 600);
    assert!(!frags.is_empty());
    let mut covered = vec![false; 800 * 600];
    for f in &frags {
        assert!(f.x < 800 && f.y < 600);
        assert!(f.x >= 400 && f.y <= 300);
        assert_eq!(f.depth, -FX_ONE);
        covered[f.y * 800 + f.x] = true;
    }
    // An interior pixel is covered, pixels outside the triangle are not.
    assert!(covered[250 * 800 + 450]);
    assert!(!covered[100 * 800 + 100]);
    assert!(!covered[400 * 800 + 500]);
}

#[test]
fn unit_triangle_overwrites_only_its_pixels() {
    let p = V3 { x: FX_ONE, y: FX_ONE, z: FX_ONE };
    let v1 = clip_vertex(0, 0, -FX_ONE, FX_ONE, p);
    let v2 = clip_vertex(FX_ONE, 0, -FX_ONE, FX_ONE, p);
    let v3 = clip_vertex(0, FX_ONE, -FX_ONE, FX_ONE, p);
    let frags = triangle(&v1, &v2, &v3, 800, 600);
    let mut fb = Framebuffer::new(800, 600);
    fb.clear();
    fb.set_current_color(0xABCDEF);
    let mut covered = vec![false; 800 * 600];
    for f in &frags {
        fb.point(f.x, f.y, f.depth);
        covered[f.y * 800 + f.x] = true;
    }
    for i in 0..800 * 600 {
        if covered[i] {
            assert_eq!(fb.color[i], 0xABCDEF);
            assert_eq!(fb.depth[i], -FX_ONE);
        } else {
            assert_eq!(fb.color[i], BACKGROUND);
            assert_eq!(fb.depth[i], DEPTH_INF);
        }
    }
}

#[test]
fn perspective_correct_interpolation_of_constant_attribute() {
    // Three very different w; the same local position at all vertices.
    // The 1/w-weighted blend must return that position bit-for-bit at
    // every fragment.
    let p = V3 { x: 3 * FX_ONE, y: -2 * FX_ONE, z: FX_ONE / 2 };
    let v1 = clip_vertex(0, 0, 0, FX_ONE, p);
    let v2 = clip_vertex(2 * FX_ONE, 0, 0, 2 * FX_ONE, p);
    let v3 = clip_vertex(0, 3 * FX_ONE, 0, 3 * FX_ONE, p);
    let frags = triangle(&v1, &v2, &v3, 800, 600);
    assert!(!frags.is_empty());
    for f in &frags {
        assert_eq!(f.vertex_position, p);
    }
}

#[test]
fn depth_interpolation_is_perspective_correct() {
    // Three very different w whose clip z all divide to NDC z = -1: the
    // 1/w-weighted depth blend must return exactly -1 at every fragment,
    // as must the interpolated constant attribute.
    let p = V3 { x: FX_ONE, y: 0, z: 0 };
    let v1 = clip_vertex(0, 0, -FX_ONE, FX_ONE, p);
    let v2 = clip_vertex(2 * FX_ONE, 0, -2 * FX_ONE, 2 * FX_ONE, p);
    let v3 = clip_vertex(0, 3 * FX_ONE, -3 * FX_ONE, 3 * FX_ONE, p);
    let frags = triangle(&v1, &v2, &v3, 800, 600);
    assert!(!frags.is_empty());
    for f in &frags {
        assert_eq!(f.depth, -FX_ONE);
        assert_eq!(f.vertex_position, p);
    }
}

#[test]
fn depth_test_keeps_nearer_triangle_in_either_order() {
    let near = -FX_ONE;
    let far = FX_ONE / 2;
    for order in 0..2 {
        let mut fb = Framebuffer::new(8, 8);
        let writes = if order == 0 {
            [(0x111111u32, far), (0x222222u32, near)]
        } else {
            [(0x222222u32, near), (0x111111u32, far)]
        };
        for (c, d) in writes.iter() {
            fb.set_current_color(*c);
            fb.point(3, 3, *d);
        }
        // Whichever order was drawn, the nearer write owns the pixel.
        assert_eq!(fb.color[3 * 8 + 3], 0x222222);
        assert_eq!(fb.depth[3 * 8 + 3], near);
    }
}

#[test]
fn overlapping_triangles_resolve_by_depth_not_draw_order() {
    // Two coincident screen triangles at different depths, rasterized and
    // drawn in both orders: the overlap pixels always keep the nearer one.
    let p = V3 { x: 0, y: 0, z: 0 };
    let near = [
        clip_vertex(0, 0, -FX_ONE, FX_ONE, p),
        clip_vertex(FX_ONE, 0, -FX_ONE, FX_ONE, p),
        clip_vertex(0, FX_ONE, -FX_ONE, FX_ONE, p),
    ];
    let far = [
        clip_vertex(0, 0, FX_ONE / 2, FX_ONE, p),
        clip_vertex(FX_ONE, 0, FX_ONE / 2, FX_ONE, p),
        clip_vertex(0, FX_ONE, FX_ONE / 2, FX_ONE, p),
    ];
    let near_frags = triangle(&near[0], &near[1], &near[2], 200, 150);
    let far_frags = triangle(&far[0], &far[1], &far[2], 200, 150);
    assert!(!near_frags.is_empty());
    let mut colors = Vec::new();
    for order in 0..2 {
        let mut fb = Framebuffer::new(200, 150);
        fb.clear();
        let passes: [(&Vec<Fragment>, u32); 2] = if order == 0 {
            [(&near_frags, 0x00AA00), (&far_frags, 0xAA0000)]
        } else {
            [(&far_frags, 0xAA0000), (&near_frags, 0x00AA00)]
        };
        for (frags, c) in passes.iter() {
            fb.set_current_color(*c);
            for f in frags.iter() {
                fb.point(f.x, f.y, f.depth);
            }
        }
        colors.push(fb.color.clone());
    }
    assert_eq!(colors[0], colors[1]);
    // A pixel well inside both triangles shows the nearer (green) one.
    assert_eq!(colors[0][60 * 200 + 120], 0x00AA00);
}

#[test]
fn depth_tie_keeps_first_writer() {
    let mut fb = Framebuffer::new(4, 4);
    fb.set_current_color(0xAAAAAA);
    fb.point(1, 2, 1000);
    fb.set_current_color(0xBBBBBB);
    fb.point(1, 2, 1000);
    assert_eq!(fb.color[2 * 4 + 1], 0xAAAAAA);
}

#[test]
fn reversed_winding_yields_no_fragments() {
    let p = V3 { x: FX_ONE, y: FX_ONE, z: FX_ONE };
    let v1 = clip_vertex(0, 0, -FX_ONE, FX_ONE, p);
    let v2 = clip_vertex(FX_ONE, 0, -FX_ONE, FX_ONE, p);
    let v3 = clip_vertex(0, FX_ONE, -FX_ONE, FX_ONE, p);
    // Swapping two vertices reverses the screen winding.
    let frags = triangle(&v1, &v3, &v2, 800, 600);
    assert_eq!(frags.len(), 0);
}

#[test]
fn tiny_w_is_rejected() {
    // w = 1e-8 is below the 1e-6 guard: zero fragments.
    let w = 43; // round(1e-8 * 2^32)
    let p = V3 { x: FX_ONE, y: FX_ONE, z: FX_ONE };
    let v1 = clip_vertex(0, 0, -FX_ONE, w, p);
    let v2 = clip_vertex(FX_ONE, 0, -FX_ONE, w, p);
    let v3 = clip_vertex(0, FX_ONE, -FX_ONE, w, p);
    let frags = triangle(&v1, &v2, &v3, 800, 600);
    assert_eq!(frags.len(), 0);
}

#[test]
fn degenerate_triangle_is_rejected() {
    let p = V3 { x: 0, y: 0, z: 0 };
    let v = clip_vertex(FX_ONE / 4, FX_ONE / 4, 0, FX_ONE, p);
    let frags = triangle(&v, &v, &v, 800, 600);
    assert_eq!(frags.len(), 0);
}

#[test]
fn offscreen_triangle_is_rejected() {
    let p = V3 { x: 0, y: 0, z: 0 };
    // NDC far beyond +1 on x for all three vertices: bounding box outside.
    let v1 = clip_vertex(10 * FX_ONE, 0, 0, FX_ONE, p);
    let v2 = clip_vertex(11 * FX_ONE, 0, 0, FX_ONE, p);
    let v3 = clip_vertex(10 * FX_ONE, FX_ONE, 0, FX_ONE, p);
    let frags = triangle(&v1, &v2, &v3, 800, 600);
    assert_eq!(frags.len(), 0);
}

#[test]
fn fragments_stay_inside_bounding_box_and_screen() {
    // A triangle partly off screen: fragments still inside the surface.
    let p = V3 { x: 0, y: 0, z: 0 };
    let v1 = clip_vertex(-3 * FX_ONE, -FX_ONE, 0, FX_ONE, p);
    let v2 = clip_vertex(FX_ONE, -FX_ONE / 2, 0, FX_ONE, p);
    let v3 = clip_vertex(0, FX_ONE, 0, FX_ONE, p);
    let frags = triangle(&v1, &v2, &v3, 320, 200);
    for f in &frags {
        assert!(f.x < 320);
        assert!(f.y < 200);
    }
}

#[test]
fn noise_is_bit_identical_and_bounded() {
    let points = [
        V3 { x: 0, y: 0, z: 0 },
        V3 { x: FX_ONE / 3, y: 2 * FX_ONE, z: -5 * FX_ONE },
        V3 { x: -FX_ONE, y: FX_ONE / 7, z: 123456789 },
        V3 { x: 100 * FX_ONE, y: -100 * FX_ONE, z: 55 * FX_ONE },
    ];
    for p in points.iter() {
        let a = softraster::noise::noise(*p);
        let b = softraster::noise::noise(*p);
        assert_eq!(a, b);
        assert!(0 <= a && a <= FX_ONE);
    }
}

#[test]
fn fbm_is_normalized_for_every_octave_count() {
    let p = V3 { x: 3 * FX_ONE / 2, y: -FX_ONE / 4, z: 7 * FX_ONE };
    for octaves in 1..=16 {
        let v = softraster::noise::fbm(p, octaves, FX_ONE / 2, 2 * FX_ONE);
        assert!(-FX_ONE <= v && v <= FX_ONE);
        assert!(0 <= v);
    }
    for octaves in [40, 100, 1000] {
        let v = softraster::noise::fbm(p, octaves, FX_ONE / 2, 2 * FX_ONE);
        assert!(-FX_ONE <= v && v <= FX_ONE);
    }
}

#[test]
fn mix_midpoint_is_exact() {
    let half = FX_ONE / 2;
    assert_eq!(softraster::noise::mix(0, FX_ONE, half), half);
    assert_eq!(softraster::noise::mix(FX_ONE, FX_ONE, half), FX_ONE);
    assert_eq!(softraster::noise::mix(half, half, FX_ONE), half);
}

#[test]
fn sine_at_zero_and_quarter_period() {
    assert_eq!(softraster::noise::sine(0), 0);
    let half_pi = 6746518853;
    let s = softraster::noise::sine(half_pi);
    assert!(s > 9 * FX_ONE / 10 && s <= FX_ONE);
    let s2 = softraster::noise::sine(half_pi + 13493037705);
    assert!(s2 < -9 * FX_ONE / 10 && s2 >= -FX_ONE);
}

#[test]
fn star_shader_stays_in_overbright_range() {
    // shade_star(normalize((0,0,1)), 0): every channel finite, in [0, 2].
    let dir = v3_normalize(V3 { x: 0, y: 0, z: FX_ONE });
    assert_eq!(dir, V3 { x: 0, y: 0, z: FX_ONE });
    let c = shade_star(dir, 0);
    assert!(0 <= c.x && c.x <= 2 * FX_ONE);
    assert!(0 <= c.y && c.y <= 2 * FX_ONE);
    assert!(0 <= c.z && c.z <= 2 * FX_ONE);
}

#[test]
fn every_material_shades_the_zero_vector_finitely() {
    let zero = V3 { x: 0, y: 0, z: 0 };
    let materials = [
        Material::Star,
        Material::Rocky,
        Material::GasGiant,
        Material::Spaceship,
        Material::Ice,
        Material::Desert,
        Material::Volcanic,
        Material::Ocean,
        Material::Purple,
        Material::Ringed,
    ];
    for m in materials.iter() {
        let c = shade(*m, zero, 0);
        assert!(0 <= c.x && c.x <= 2 * FX_ONE);
        assert!(0 <= c.y && c.y <= 2 * FX_ONE);
        assert!(0 <= c.z && c.z <= 2 * FX_ONE);
    }
}

#[test]
fn spaceship_shader_is_flat_gray() {
    let c = shade(
        Material::Spaceship,
        V3 { x: FX_ONE, y: 0, z: 0 },
        5 * FX_ONE,
    );
    assert_eq!(c, V3 { x: FX_ONE / 2, y: FX_ONE / 2, z: FX_ONE / 2 });
}

#[test]
fn pack_color_rounds_and_clamps() {
    // 1.0 -> 255, 0.5 -> 127 (truncating), overbright 2.0 -> 255.
    let c = pack_color(V3 { x: FX_ONE, y: FX_ONE / 2, z: 0 });
    assert_eq!(c, (255 << 16) | (127 << 8));
    let over = pack_color(V3 { x: 2 * FX_ONE, y: -FX_ONE, z: FX_ONE / 4 });
    assert_eq!(over, (255 << 16) | 63);
}

#[test]
fn framebuffer_clear_resets_everything() {
    let mut fb = Framebuffer::new(16, 9);
    assert_eq!(fb.width, 16);
    assert_eq!(fb.height, 9);
    assert_eq!(fb.color.len(), 16 * 9);
    assert_eq!(fb.depth.len(), 16 * 9);
    fb.set_current_color(0xFF00FF);
    fb.point(5, 5, 10);
    fb.clear();
    for i in 0..16 * 9 {
        assert_eq!(fb.color[i], BACKGROUND);
        assert_eq!(fb.depth[i], DEPTH_INF);
    }
}

#[test]
fn point_rejects_equal_and_farther_depths() {
    let mut fb = Framebuffer::new(4, 4);
    fb.set_current_color(1);
    fb.point(0, 0, 100);
    fb.set_current_color(2);
    fb.point(0, 0, 200);
    assert_eq!(fb.color[0], 1);
    assert_eq!(fb.depth[0], 100);
}

#[test]
fn vertex_shader_with_identity_matrices_passes_positions_through() {
    let u = Uniforms {
        model_matrix: m4_identity(),
        view_matrix: m4_identity(),
        projection_matrix: m4_identity(),
        viewport_matrix: m4_identity(),
        time: 0,
        material: Material::Rocky,
    };
    let v = Vertex::new(
        V3 { x: 3 * FX_ONE, y: -2 * FX_ONE, z: FX_ONE },
        V3 { x: 0, y: FX_ONE, z: 0 },
        V2 { x: 0, y: 0 },
    );
    let t = vertex_shader(&v, &u);
    assert_eq!(t.position, v.position);
    assert_eq!(
        t.transformed_position,
        V4 { x: 3 * FX_ONE, y: -2 * FX_ONE, z: FX_ONE, w: FX_ONE }
    );
    assert_eq!(t.transformed_normal, V3 { x: 0, y: FX_ONE, z: 0 });
}

#[test]
fn singular_model_matrix_falls_back_to_identity_normals() {
    let zero4 = V4 { x: 0, y: 0, z: 0, w: 0 };
    let singular = M4 { r0: zero4, r1: zero4, r2: zero4, r3: zero4 };
    let u = Uniforms {
        model_matrix: singular,
        view_matrix: m4_identity(),
        projection_matrix: m4_identity(),
        viewport_matrix: m4_identity(),
        time: 0,
        material: Material::Rocky,
    };
    let normal = V3 { x: 0, y: 0, z: FX_ONE };
    let v = Vertex::new(V3 { x: FX_ONE, y: 0, z: 0 }, normal, V2 { x: 0, y: 0 });
    let t = vertex_shader(&v, &u);
    // Normal matrix fell back to identity: the normal survives unchanged.
    assert_eq!(t.transformed_normal, normal);
}

#[test]
fn render_model_draws_through_the_depth_test() {
    // One triangle in front of the camera with identity transforms.
    let mut fb = Framebuffer::new(64, 64);
    fb.clear();
    let u = Uniforms {
        model_matrix: m4_identity(),
        view_matrix: m4_identity(),
        projection_matrix: m4_identity(),
        viewport_matrix: m4_identity(),
        time: 0,
        material: Material::Spaceship,
    };
    let vertices = vec![
        Vertex::new(V3 { x: -FX_ONE / 2, y: -FX_ONE / 2, z: 0 }, V3 { x: 0, y: 0, z: FX_ONE }, V2 { x: 0, y: 0 }),
        Vertex::new(V3 { x: FX_ONE / 2, y: -FX_ONE / 2, z: 0 }, V3 { x: 0, y: 0, z: FX_ONE }, V2 { x: 0, y: 0 }),
        Vertex::new(V3 { x: -FX_ONE / 2, y: FX_ONE / 2, z: 0 }, V3 { x: 0, y: 0, z: FX_ONE }, V2 { x: 0, y: 0 }),
    ];
    let indices: Vec<u32> = vec![0, 1, 2];
    render_model(&mut fb, &u, &vertices, &indices);
    // The craft-hull gray is 0.5 per channel -> 0x7F7F7F packed.
    let gray = (127 << 16) | (127 << 8) | 127;
    let mut painted = 0;
    for i in 0..64 * 64 {
        if fb.color[i] != BACKGROUND {
            assert_eq!(fb.color[i], gray);
            painted += 1;
        }
    }
    assert!(painted > 0);
}

#[test]
fn fixed_point_ops_have_exact_values() {
    assert_eq!(fx_mul(3 * FX_ONE, 2 * FX_ONE), 6 * FX_ONE);
    assert_eq!(fx_mul(-3 * FX_ONE, 2 * FX_ONE), -6 * FX_ONE);
    assert_eq!(fx_div(7 * FX_ONE, 2 * FX_ONE), 7 * FX_ONE / 2);
    assert_eq!(fx_add(FX_ONE, FX_ONE), 2 * FX_ONE);
    assert_eq!(fx_sub(FX_ONE, 3 * FX_ONE), -2 * FX_ONE);
    assert_eq!(fx_clamp(5, 0, 3), 3);
    // Floor and ceiling division on negatives.
    assert_eq!(fdiv64(-1, 65536), -1);
    assert_eq!(fdiv64(65537, 65536), 1);
    assert_eq!(cdiv64(-1, 65536), 0);
    assert_eq!(cdiv64(65537, 65536), 2);
    assert_eq!(fx_sqrt(4 * FX_ONE), 2 * FX_ONE);
    assert_eq!(fx_sqrt(0), 0);
}

#[test]
fn vector_ops_have_exact_values() {
    let a = V3 { x: FX_ONE, y: 2 * FX_ONE, z: 2 * FX_ONE };
    assert_eq!(v3_len(a), 3 * FX_ONE);
    let n = v3_normalize(V3 { x: 0, y: -5 * FX_ONE, z: 0 });
    assert_eq!(n, V3 { x: 0, y: -FX_ONE, z: 0 });
    assert_eq!(v3_normalize(V3 { x: 0, y: 0, z: 0 }), V3 { x: 0, y: 0, z: 0 });
    let l = v3_lerp(
        V3 { x: 0, y: 0, z: 0 },
        V3 { x: 4 * FX_ONE, y: 0, z: -4 * FX_ONE },
        FX_ONE / 4,
    );
    assert_eq!(l, V3 { x: FX_ONE, y: 0, z: -FX_ONE });
    let id3 = M3 {
        r0: V3 { x: FX_ONE, y: 0, z: 0 },
        r1: V3 { x: 0, y: FX_ONE, z: 0 },
        r2: V3 { x: 0, y: 0, z: FX_ONE },
    };
    assert_eq!(m3_det(id3), FX_ONE);
}

#[test]
fn rand_is_deterministic_and_fractional() {
    let a = softraster::noise::rand(5, -3, 17);
    let b = softraster::noise::rand(5, -3, 17);
    assert_eq!(a, b);
    assert!(0 <= a && a < FX_ONE);
    // Different corners give different hashes for these inputs.
    let c = softraster::noise::rand(6, -3, 17);
    assert_ne!(a, c);
}

#[test]
fn fragment_fields_travel_through_vec() {
    let f = Fragment {
        x: 3,
        y: 4,
        depth: -FX_ONE,
        vertex_position: V3 { x: 1, y: 2, z: 3 },
    };
    let fs = vec![f];
    assert_eq!(fs[0], f);
}
