//! The vertex transform stage and the surface shader set.
//!
//! `vertex_shader` carries a vertex into clip space and transforms its
//! normal with the inverse-transpose of the model matrix (identity when
//! singular).  Each `shade_*` function is one material: a deterministic
//! composition of noise samples, threshold or blend color bands and
//! time-driven animation, ending in a per-channel clamp.  Because all
//! arithmetic is total fixed point, every input — the zero vector
//! included — yields a finite color inside the declared clamp range.

use vstd::prelude::*;
use crate::fx::{
    FX_MIN, FX_ONE, fx_abs, fx_add, fx_add_s, fx_clamp, fx_div, fx_div_s, fx_max, fx_max_s,
    fx_min, fx_min_s, fx_mul, fx_mul_s, fx_sub, fx_sub_s, sabs,
};
use crate::geom::{
    M3, M4, V3, V4, fx_sqrt, fx_sqrt_s, m3_inverse_or_identity, m3_inverse_or_identity_s,
    m3_mul_v3, m3_mul_v3_s, m3_transpose, m3_transpose_s, m4_mul_v4, m4_mul_v4_s, sat_i64, v3_add,
    v3_add_s, v3_len, v3_len_s, v3_lerp, v3_lerp_s, v3_normalize, v3_normalize_s, v3_ok, v3_scale,
    v3_scale_s,
};
use crate::noise::{fbm, fbm_s, noise, noise_s, sine, sine_s};
use crate::uniforms::{Material, Uniforms, uniforms_ok};
use crate::vertex::{Vertex, vertex_ok};

verus! {

/// The upper-left 3x3 block of a 4x4 matrix.
pub open spec fn upper3_s(m: M4) -> M3 {
    M3 {
        r0: V3 { x: m.r0.x, y: m.r0.y, z: m.r0.z },
        r1: V3 { x: m.r1.x, y: m.r1.y, z: m.r1.z },
        r2: V3 { x: m.r2.x, y: m.r2.y, z: m.r2.z },
    }
}

/// The clip-space position of a vertex:
/// `Projection * View * Model * [position, 1]`.
pub open spec fn clip_pos_s(v: Vertex, u: Uniforms) -> V4 {
    m4_mul_v4_s(
        u.projection_matrix,
        m4_mul_v4_s(
            u.view_matrix,
            m4_mul_v4_s(
                u.model_matrix,
                V4 { x: v.position.x, y: v.position.y, z: v.position.z, w: FX_ONE },
            ),
        ),
    )
}

/// The normal matrix: inverse of the transposed upper-left model block,
/// identity when that block is singular.
pub open spec fn normal_matrix_s(u: Uniforms) -> M3 {
    m3_inverse_or_identity_s(m3_transpose_s(upper3_s(u.model_matrix)))
}

/// The whole vertex transform stage as one value: local attributes kept,
/// clip position and normalized transformed normal filled in.
#[verifier::opaque]
pub open spec fn transformed_vertex_s(v: Vertex, u: Uniforms) -> Vertex {
    Vertex {
        position: v.position,
        normal: v.normal,
        tex_coords: v.tex_coords,
        transformed_position: clip_pos_s(v, u),
        transformed_normal: v3_normalize_s(m3_mul_v3_s(normal_matrix_s(u), v.normal)),
    }
}

/// The vertex transform stage: populate the clip-space position and the
/// normalized transformed normal, leaving the local attributes untouched.
pub fn vertex_shader(v: &Vertex, u: &Uniforms) -> (r: Vertex)
    requires
        vertex_ok(*v),
        uniforms_ok(*u),
    ensures
        r.position == v.position,
        r.normal == v.normal,
        r.tex_coords == v.tex_coords,
        r.transformed_position == clip_pos_s(*v, *u),
        r.transformed_normal == v3_normalize_s(m3_mul_v3_s(normal_matrix_s(*u), v.normal)),
        r == transformed_vertex_s(*v, *u),
        vertex_ok(r),
{
    proof {
        reveal(transformed_vertex_s);
    }
    let pos4: V4 = V4 { x: v.position.x, y: v.position.y, z: v.position.z, w: FX_ONE };
    let clip: V4 = m4_mul_v4(
        u.projection_matrix,
        m4_mul_v4(u.view_matrix, m4_mul_v4(u.model_matrix, pos4)),
    );
    let model3: M3 = M3 {
        r0: V3 { x: u.model_matrix.r0.x, y: u.model_matrix.r0.y, z: u.model_matrix.r0.z },
        r1: V3 { x: u.model_matrix.r1.x, y: u.model_matrix.r1.y, z: u.model_matrix.r1.z },
        r2: V3 { x: u.model_matrix.r2.x, y: u.model_matrix.r2.y, z: u.model_matrix.r2.z },
    };
    let normal_matrix: M3 = m3_inverse_or_identity(m3_transpose(model3));
    let tn: V3 = v3_normalize(m3_mul_v3(normal_matrix, v.normal));
    Vertex {
        position: v.position,
        normal: v.normal,
        tex_coords: v.tex_coords,
        transformed_position: clip,
        transformed_normal: tn,
    }
}

/// One channel clamped into `[0, cap]`.
pub open spec fn clamp_channel_s(c: int, cap: int) -> i64 {
    (if c < 0 {
        0int
    } else if c > cap {
        cap
    } else {
        c
    }) as i64
}

/// A color with every channel clamped into `[0, cap]`.
pub open spec fn clamp_color_s(c: V3, cap: int) -> V3 {
    V3 {
        x: clamp_channel_s(c.x as int, cap),
        y: clamp_channel_s(c.y as int, cap),
        z: clamp_channel_s(c.z as int, cap),
    }
}

/// Clamp every channel of a color into `[0, cap]`.
fn clamp_color(c: V3, cap: i64) -> (r: V3)
    requires
        0 <= cap,
    ensures
        r == clamp_color_s(c, cap as int),
        0 <= r.x <= cap,
        0 <= r.y <= cap,
        0 <= r.z <= cap,
{
    V3 { x: fx_clamp(c.x, 0, cap), y: fx_clamp(c.y, 0, cap), z: fx_clamp(c.z, 0, cap) }
}

/// The star's color as a value: the exact fixed-point composition the
/// shader computes, ending in the overbright clamp.
#[verifier::opaque]
pub open spec fn shade_star_s(point: V3, time: i64) -> V3 {
    let uv = v3_normalize_s(point);
    let dist = v3_len_s(uv);
    let t12 = fx_mul_s(dist, 5153960755);
    let core_brightness = fx_max_s(fx_sub_s(FX_ONE as int, fx_mul_s(t12, t12)), 0);
    let color0 = V3 { x: 6442450944i64, y: 6012954214i64, z: 5153960755i64 };
    let middle_layer = V3 { x: 5583457485i64, y: 3865470566i64, z: 1288490189i64 };
    let outer_layer = V3 { x: 5153960755i64, y: 2147483648i64, z: 429496730i64 };
    let color1 = if dist > 1288490189 {
        v3_lerp_s(
            color0,
            middle_layer,
            fx_min_s(fx_div_s(fx_sub_s(dist, 1288490189), 1288490189), FX_ONE as int),
        )
    } else {
        color0
    };
    let color2 = if dist > 2576980378 {
        v3_lerp_s(
            color1,
            outer_layer,
            fx_sqrt_s(fx_min_s(fx_div_s(fx_sub_s(dist, 2576980378), 1717986918), FX_ONE as int)),
        )
    } else {
        color1
    };
    let sun_q = v3_add_s(
        v3_scale_s(uv, 17179869184),
        V3 { x: sat_i64(fx_mul_s(time as int, 429496730)), y: 0i64, z: 0i64 },
    );
    let sunspot = fbm_s(sun_q, 3, 2576980378, 8589934592);
    let color3 = if sunspot > 2791728742 {
        v3_scale_s(
            color2,
            fx_sub_s(
                FX_ONE as int,
                fx_mul_s(fx_mul_s(fx_sub_s(sunspot, 2791728742), 8589934592), 1717986918),
            ),
        )
    } else {
        color2
    };
    let turb_q = v3_add_s(
        v3_scale_s(uv, 34359738368),
        V3 {
            x: sat_i64(fx_mul_s(time as int, 1288490189)),
            y: sat_i64(fx_mul_s(time as int, 858993459)),
            z: 0i64,
        },
    );
    let turbulence = fbm_s(turb_q, 4, 2147483648, 10737418240);
    let plasma_color = V3 { x: 6012954214i64, y: 2576980378i64, z: 214748365i64 };
    let color4 = v3_lerp_s(color3, plasma_color, fx_mul_s(turbulence, 1073741824));
    let flare_angle = sine_s(
        fx_add_s(fx_mul_s(uv.y as int, 8589934592), fx_mul_s(time as int, 2147483648)),
    );
    let flare_distance = fx_add_s(dist, fx_mul_s(flare_angle, 429496730));
    let flare_q = v3_add_s(
        v3_scale_s(uv, 64424509440),
        V3 { x: sat_i64(fx_mul_s(time as int, 3435973837)), y: 0i64, z: 0i64 },
    );
    let flare_noise = noise_s(flare_q);
    let color5 = if flare_noise > 3435973837 && flare_distance > 3650722202 {
        v3_lerp_s(
            color4,
            V3 { x: 6871947674i64, y: 3435973837i64, z: 858993459i64 },
            fx_mul_s(fx_mul_s(fx_sub_s(flare_noise, 3435973837), 21474836480), 2147483648),
        )
    } else {
        color4
    };
    let color6 = if dist > 3435973837 {
        let corona_factor = fx_sqrt_s(fx_sqrt_s(fx_div_s(fx_sub_s(dist, 3435973837), 858993459)));
        let corona_color = V3 { x: 5583457485i64, y: 3006477107i64, z: 1288490189i64 };
        let corona_flicker = fx_add_s(
            fx_mul_s(
                sine_s(
                    fx_add_s(fx_mul_s(time as int, 12884901888), fx_mul_s(uv.x as int, 42949672960)),
                ),
                2147483648,
            ),
            2147483648,
        );
        v3_lerp_s(color5, corona_color, fx_mul_s(fx_mul_s(corona_factor, corona_flicker), 1717986918))
    } else {
        color5
    };
    let pulse = fx_add_s(
        fx_mul_s(
            fx_add_s(fx_mul_s(sine_s(fx_mul_s(time as int, 5153960755)), 2147483648), 2147483648),
            515396076,
        ),
        4123168604,
    );
    let color7 = v3_scale_s(color6, pulse);
    let color8 = v3_scale_s(color7, fx_add_s(FX_ONE as int, fx_mul_s(core_brightness, 3435973837)));
    clamp_color_s(color8, 8589934592)
}

/// The star: layered core/middle/outer bands by distance from center,
/// sunspots and plasma turbulence from fbm, animated flares, corona and a
/// global pulse; overbright channels up to 2.
#[verifier::rlimit(100)]
pub fn shade_star(point: V3, time: i64) -> (r: V3)
    requires
        v3_ok(point),
        FX_MIN <= time,
    ensures
        r == shade_star_s(point, time),
        0 <= r.x <= 8589934592,
        0 <= r.y <= 8589934592,
        0 <= r.z <= 8589934592,
{
    proof {
        reveal(shade_star_s);
    }
    let uv: V3 = v3_normalize(point);
    let dist: i64 = v3_len(uv);
    let t12: i64 = fx_mul(dist, 5153960755);
    let core_brightness: i64 = fx_max(fx_sub(FX_ONE, fx_mul(t12, t12)), 0);
    let mut color: V3 = V3 { x: 6442450944, y: 6012954214, z: 5153960755 };
    let middle_layer: V3 = V3 { x: 5583457485, y: 3865470566, z: 1288490189 };
    let outer_layer: V3 = V3 { x: 5153960755, y: 2147483648, z: 429496730 };
    if dist > 1288490189 {
        let middle_factor: i64 = fx_min(fx_div(fx_sub(dist, 1288490189), 1288490189), FX_ONE);
        color = v3_lerp(color, middle_layer, middle_factor);
    }
    if dist > 2576980378 {
        let outer_factor: i64 = fx_min(fx_div(fx_sub(dist, 2576980378), 1717986918), FX_ONE);
        color = v3_lerp(color, outer_layer, fx_sqrt(outer_factor));
    }
    let sun_q: V3 = v3_add(
        v3_scale(uv, 17179869184),
        V3 { x: fx_mul(time, 429496730), y: 0, z: 0 },
    );
    let sunspot: i64 = fbm(sun_q, 3, 2576980378, 8589934592);
    if sunspot > 2791728742 {
        let spot_intensity: i64 = fx_mul(fx_sub(sunspot, 2791728742), 8589934592);
        color = v3_scale(color, fx_sub(FX_ONE, fx_mul(spot_intensity, 1717986918)));
    }
    let turb_q: V3 = v3_add(
        v3_scale(uv, 34359738368),
        V3 { x: fx_mul(time, 1288490189), y: fx_mul(time, 858993459), z: 0 },
    );
    let turbulence: i64 = fbm(turb_q, 4, 2147483648, 10737418240);
    let plasma_color: V3 = V3 { x: 6012954214, y: 2576980378, z: 214748365 };
    color = v3_lerp(color, plasma_color, fx_mul(turbulence, 1073741824));
    // The flare phase follows uv.y and time; a polar angle (atan2) has no
    // cheap fixed-point form, so a y-proportional phase takes its place.
    let flare_angle: i64 = sine(fx_add(fx_mul(uv.y, 8589934592), fx_mul(time, 2147483648)));
    let flare_distance: i64 = fx_add(dist, fx_mul(flare_angle, 429496730));
    let flare_q: V3 = v3_add(
        v3_scale(uv, 64424509440),
        V3 { x: fx_mul(time, 3435973837), y: 0, z: 0 },
    );
    let flare_noise: i64 = noise(flare_q);
    if flare_noise > 3435973837 && flare_distance > 3650722202 {
        let flare_intensity: i64 = fx_mul(fx_sub(flare_noise, 3435973837), 21474836480);
        color = v3_lerp(
            color,
            V3 { x: 6871947674, y: 3435973837, z: 858993459 },
            fx_mul(flare_intensity, 2147483648),
        );
    }
    if dist > 3435973837 {
        // Two square roots give a 0.25 exponent, standing in for a
        // 0.3-power falloff that fixed point cannot take directly.
        let corona_factor: i64 = fx_sqrt(fx_sqrt(fx_div(fx_sub(dist, 3435973837), 858993459)));
        let corona_color: V3 = V3 { x: 5583457485, y: 3006477107, z: 1288490189 };
        let corona_flicker: i64 = fx_add(
            fx_mul(
                sine(fx_add(fx_mul(time, 12884901888), fx_mul(uv.x, 42949672960))),
                2147483648,
            ),
            2147483648,
        );
        color = v3_lerp(
            color,
            corona_color,
            fx_mul(fx_mul(corona_factor, corona_flicker), 1717986918),
        );
    }
    let pulse: i64 = fx_add(
        fx_mul(
            fx_add(fx_mul(sine(fx_mul(time, 5153960755)), 2147483648), 2147483648),
            515396076,
        ),
        4123168604,
    );
    color = v3_scale(color, pulse);
    color = v3_scale(color, fx_add(FX_ONE, fx_mul(core_brightness, 3435973837)));
    clamp_color(color, 8589934592)
}

/// The rocky planet's color as a value: the exact fixed-point
/// composition the shader computes.
#[verifier::opaque]
pub open spec fn shade_rocky_s(point: V3, time: i64) -> V3 {
    let uv = v3_normalize_s(point);
    let continent_noise = fbm_s(v3_scale_s(uv, 10737418240), 4, 2362232013, 9019431322);
    let ocean_deep = V3 { x: 85899346i64, y: 644245094i64, z: 1503238554i64 };
    let ocean_mid = V3 { x: 343597384i64, y: 1202590843i64, z: 2362232013i64 };
    let ocean_shallow = V3 { x: 644245094i64, y: 1932735283i64, z: 3221225472i64 };
    let land_beach = V3 { x: 3264175145i64, y: 3006477107i64, z: 2147483648i64 };
    let land_grass = V3 { x: 644245094i64, y: 2233382994i64, z: 644245094i64 };
    let land_forest = V3 { x: 343597384i64, y: 1503238554i64, z: 429496730i64 };
    let land_mountain = V3 { x: 1932735283i64, y: 1932735283i64, z: 2018634629i64 };
    let land_snow = V3 { x: 3951369912i64, y: 4080218931i64, z: 4209067950i64 };
    let color_main = if continent_noise > 2061584302 {
        let elevation = fx_div_s(fx_sub_s(continent_noise, 2061584302), 2233382994);
        let c0 = if elevation < 429496730 {
            land_beach
        } else if elevation < 1717986918 {
            v3_lerp_s(
                land_grass,
                land_forest,
                fx_mul_s(noise_s(v3_scale_s(uv, 85899345920)), 1288490189),
            )
        } else if elevation < 3006477107 {
            v3_lerp_s(land_forest, land_mountain, fx_div_s(fx_sub_s(elevation, 1717986918), 1288490189))
        } else {
            v3_lerp_s(land_mountain, land_snow, fx_div_s(fx_sub_s(elevation, 3006477107), 1288490189))
        };
        let terrain_detail = fbm_s(v3_scale_s(uv, 64424509440), 2, 2147483648, 8589934592);
        v3_scale_s(c0, fx_add_s(3650722202, fx_mul_s(terrain_detail, 1288490189)))
    } else {
        let depth = fx_sub_s(FX_ONE as int, fx_div_s(continent_noise, 2061584302));
        let c0 = if depth < 1288490189 {
            ocean_shallow
        } else if depth < 3006477107 {
            ocean_mid
        } else {
            ocean_deep
        };
        let wave_q = v3_add_s(
            v3_scale_s(uv, 107374182400),
            V3 {
                x: sat_i64(fx_mul_s(time as int, 2147483648)),
                y: sat_i64(fx_mul_s(time as int, 1288490189)),
                z: 0i64,
            },
        );
        let wave_pattern = fbm_s(wave_q, 2, 2576980378, 8589934592);
        v3_lerp_s(c0, ocean_shallow, fx_mul_s(wave_pattern, 644245094))
    };
    let cloud_q = v3_add_s(
        v3_scale_s(uv, 25769803776),
        V3 { x: sat_i64(fx_mul_s(time as int, 644245094)), y: 0i64, z: 0i64 },
    );
    let cloud_pattern = fbm_s(cloud_q, 3, 2147483648, 8589934592);
    let color_f = if cloud_pattern > 2662879724 {
        let cloud_density = fx_mul_s(fx_sub_s(cloud_pattern, 2662879724), 10737418240);
        let cloud_color = V3 { x: 4080218931i64, y: 4080218931i64, z: 4294967296i64 };
        v3_lerp_s(color_main, cloud_color, fx_min_s(cloud_density, 3650722202))
    } else {
        color_main
    };
    clamp_color_s(color_f, FX_ONE as int)
}

/// The rocky planet: continents and oceans split by an fbm threshold,
/// height-banded land biomes, depth-banded ocean, waves and clouds.
#[verifier::rlimit(100)]
pub fn shade_rocky(point: V3, time: i64) -> (r: V3)
    requires
        v3_ok(point),
        FX_MIN <= time,
    ensures
        0 <= r.x <= FX_ONE,
        0 <= r.y <= FX_ONE,
        r == shade_rocky_s(point, time),
        0 <= r.z <= FX_ONE,
{
    proof {
        reveal(shade_rocky_s);
    }
    let uv: V3 = v3_normalize(point);
    let continent_noise: i64 = fbm(v3_scale(uv, 10737418240), 4, 2362232013, 9019431322);
    let ocean_deep: V3 = V3 { x: 85899346, y: 644245094, z: 1503238554 };
    let ocean_mid: V3 = V3 { x: 343597384, y: 1202590843, z: 2362232013 };
    let ocean_shallow: V3 = V3 { x: 644245094, y: 1932735283, z: 3221225472 };
    let land_beach: V3 = V3 { x: 3264175145, y: 3006477107, z: 2147483648 };
    let land_grass: V3 = V3 { x: 644245094, y: 2233382994, z: 644245094 };
    let land_forest: V3 = V3 { x: 343597384, y: 1503238554, z: 429496730 };
    let land_mountain: V3 = V3 { x: 1932735283, y: 1932735283, z: 2018634629 };
    let land_snow: V3 = V3 { x: 3951369912, y: 4080218931, z: 4209067950 };
    let mut color: V3;
    if continent_noise > 2061584302 {
        let elevation: i64 = fx_div(fx_sub(continent_noise, 2061584302), 2233382994);
        if elevation < 429496730 {
            color = land_beach;
        } else if elevation < 1717986918 {
            color = land_grass;
            let grass_detail: i64 = noise(v3_scale(uv, 85899345920));
            color = v3_lerp(color, land_forest, fx_mul(grass_detail, 1288490189));
        } else if elevation < 3006477107 {
            color = v3_lerp(
                land_forest,
                land_mountain,
                fx_div(fx_sub(elevation, 1717986918), 1288490189),
            );
        } else {
            color = v3_lerp(
                land_mountain,
                land_snow,
                fx_div(fx_sub(elevation, 3006477107), 1288490189),
            );
        }
        let terrain_detail: i64 = fbm(v3_scale(uv, 64424509440), 2, 2147483648, 8589934592);
        color = v3_scale(color, fx_add(3650722202, fx_mul(terrain_detail, 1288490189)));
    } else {
        let depth: i64 = fx_sub(FX_ONE, fx_div(continent_noise, 2061584302));
        if depth < 1288490189 {
            color = ocean_shallow;
        } else if depth < 3006477107 {
            color = ocean_mid;
        } else {
            color = ocean_deep;
        }
        let wave_q: V3 = v3_add(
            v3_scale(uv, 107374182400),
            V3 { x: fx_mul(time, 2147483648), y: fx_mul(time, 1288490189), z: 0 },
        );
        let wave_pattern: i64 = fbm(wave_q, 2, 2576980378, 8589934592);
        color = v3_lerp(color, ocean_shallow, fx_mul(wave_pattern, 644245094));
    }
    let cloud_q: V3 = v3_add(
        v3_scale(uv, 25769803776),
        V3 { x: fx_mul(time, 644245094), y: 0, z: 0 },
    );
    let cloud_pattern: i64 = fbm(cloud_q, 3, 2147483648, 8589934592);
    if cloud_pattern > 2662879724 {
        let cloud_density: i64 = fx_mul(fx_sub(cloud_pattern, 2662879724), 10737418240);
        let cloud_color: V3 = V3 { x: 4080218931, y: 4080218931, z: 4294967296 };
        color = v3_lerp(color, cloud_color, fx_min(cloud_density, 3650722202));
    }
    clamp_color(color, FX_ONE)
}

/// The gas giant's color as a value: the exact fixed-point composition
/// the shader computes.
#[verifier::opaque]
pub open spec fn shade_gas_giant_s(point: V3, time: i64) -> V3 {
    let uv = v3_normalize_s(point);
    let band_q = v3_add_s(
        v3_scale_s(uv, 77309411328),
        V3 { x: sat_i64(fx_mul_s(time as int, 1073741824)), y: 0i64, z: 0i64 },
    );
    let band_turbulence = fbm_s(band_q, 3, 2576980378, 8589934592);
    let band_position = fx_add_s(
        fx_mul_s(uv.y as int, 42949672960),
        fx_mul_s(band_turbulence, 6442450944),
    );
    let bands = fx_mul_s(fx_add_s(sine_s(band_position), FX_ONE as int), 2147483648);
    let color1 = V3 { x: 3650722202i64, y: 3221225472i64, z: 2362232013i64 };
    let color2 = V3 { x: 3092376453i64, y: 2491081032i64, z: 1632087572i64 };
    let color3 = V3 { x: 2491081032i64, y: 1803886264i64, z: 1073741824i64 };
    let color4 = V3 { x: 1932735283i64, y: 1288490189i64, z: 773094113i64 };
    let c0 = if bands < 1073741824 {
        v3_lerp_s(color1, color2, fx_mul_s(bands, 17179869184))
    } else if bands < 2147483648 {
        v3_lerp_s(color2, color3, fx_mul_s(fx_sub_s(bands, 1073741824), 17179869184))
    } else if bands < 3221225472 {
        v3_lerp_s(color3, color4, fx_mul_s(fx_sub_s(bands, 2147483648), 17179869184))
    } else {
        v3_lerp_s(color4, color1, fx_mul_s(fx_sub_s(bands, 3221225472), 17179869184))
    };
    let turb_q = v3_add_s(
        v3_scale_s(uv, 128849018880),
        V3 { x: sat_i64(fx_mul_s(time as int, 1717986918)), y: 0i64, z: 0i64 },
    );
    let turbulence_detail = fbm_s(turb_q, 2, 2147483648, 8589934592);
    let c1 = v3_scale_s(c0, fx_add_s(3779571220, fx_mul_s(turbulence_detail, 1030792151)));
    let vortex_q = v3_add_s(
        v3_scale_s(uv, 94489280512),
        V3 {
            x: sat_i64(fx_mul_s(time as int, 1503238554)),
            y: sat_i64(fx_mul_s(time as int, 858993459)),
            z: 0i64,
        },
    );
    let vortex_pattern = noise_s(vortex_q);
    let c2 = if vortex_pattern > 3006477107 {
        let vortex_intensity = fx_mul_s(fx_sub_s(vortex_pattern, 3006477107), 12884901888);
        v3_lerp_s(
            c1,
            V3 { x: 4080218931i64, y: 3650722202i64, z: 3006477107i64 },
            fx_mul_s(vortex_intensity, 1073741824),
        )
    } else {
        c1
    };
    let to_storm = V3 {
        x: sat_i64(fx_sub_s(uv.x as int, 0)),
        y: sat_i64(fx_sub_s(uv.y as int, -1503238554)),
        z: sat_i64(fx_sub_s(uv.z as int, 0)),
    };
    let dist_to_storm = v3_len_s(to_storm);
    let c3 = if dist_to_storm < 1202590843 {
        let storm_factor = fx_sub_s(FX_ONE as int, fx_div_s(dist_to_storm, 1202590843));
        let swirl_q = v3_add_s(
            v3_scale_s(to_storm, 64424509440),
            V3 { x: sat_i64(fx_mul_s(time as int, 3435973837)), y: 0i64, z: 0i64 },
        );
        let storm_swirl = fbm_s(swirl_q, 3, 2576980378, 8589934592);
        let storm_color = v3_lerp_s(
            V3 { x: 4080218931i64, y: 1073741824i64, z: 515396076i64 },
            V3 { x: 3779571220i64, y: 1932735283i64, z: 1202590843i64 },
            storm_swirl,
        );
        let sf = fx_max_s(storm_factor, 0);
        let storm_pow = fx_mul_s(fx_mul_s(sf, sf), fx_sqrt_s(sf));
        v3_lerp_s(c2, storm_color, fx_mul_s(storm_pow, 3221225472))
    } else {
        c2
    };
    clamp_color_s(c3, FX_ONE as int)
}

/// The gas giant: sine-banded atmosphere distorted by fbm turbulence,
/// vortices, and a swirling storm spot.
#[verifier::rlimit(100)]
pub fn shade_gas_giant(point: V3, time: i64) -> (r: V3)
    requires
        v3_ok(point),
        FX_MIN <= time,
    ensures
        0 <= r.x <= FX_ONE,
        0 <= r.y <= FX_ONE,
        r == shade_gas_giant_s(point, time),
        0 <= r.z <= FX_ONE,
{
    proof {
        reveal(shade_gas_giant_s);
    }
    let uv: V3 = v3_normalize(point);
    let band_q: V3 = v3_add(
        v3_scale(uv, 77309411328),
        V3 { x: fx_mul(time, 1073741824), y: 0, z: 0 },
    );
    let band_turbulence: i64 = fbm(band_q, 3, 2576980378, 8589934592);
    let band_position: i64 = fx_add(
        fx_mul(uv.y, 42949672960),
        fx_mul(band_turbulence, 6442450944),
    );
    let bands: i64 = fx_mul(fx_add(sine(band_position), FX_ONE), 2147483648);
    let color1: V3 = V3 { x: 3650722202, y: 3221225472, z: 2362232013 };
    let color2: V3 = V3 { x: 3092376453, y: 2491081032, z: 1632087572 };
    let color3: V3 = V3 { x: 2491081032, y: 1803886264, z: 1073741824 };
    let color4: V3 = V3 { x: 1932735283, y: 1288490189, z: 773094113 };
    let mut color: V3;
    if bands < 1073741824 {
        color = v3_lerp(color1, color2, fx_mul(bands, 17179869184));
    } else if bands < 2147483648 {
        color = v3_lerp(color2, color3, fx_mul(fx_sub(bands, 1073741824), 17179869184));
    } else if bands < 3221225472 {
        color = v3_lerp(color3, color4, fx_mul(fx_sub(bands, 2147483648), 17179869184));
    } else {
        color = v3_lerp(color4, color1, fx_mul(fx_sub(bands, 3221225472), 17179869184));
    }
    let turb_q: V3 = v3_add(
        v3_scale(uv, 128849018880),
        V3 { x: fx_mul(time, 1717986918), y: 0, z: 0 },
    );
    let turbulence_detail: i64 = fbm(turb_q, 2, 2147483648, 8589934592);
    color = v3_scale(color, fx_add(3779571220, fx_mul(turbulence_detail, 1030792151)));
    let vortex_q: V3 = v3_add(
        v3_scale(uv, 94489280512),
        V3 { x: fx_mul(time, 1503238554), y: fx_mul(time, 858993459), z: 0 },
    );
    let vortex_pattern: i64 = noise(vortex_q);
    if vortex_pattern > 3006477107 {
        let vortex_intensity: i64 = fx_mul(fx_sub(vortex_pattern, 3006477107), 12884901888);
        color = v3_lerp(
            color,
            V3 { x: 4080218931, y: 3650722202, z: 3006477107 },
            fx_mul(vortex_intensity, 1073741824),
        );
    }
    let storm_center: V3 = V3 { x: 0, y: -1503238554, z: 0 };
    let to_storm: V3 = V3 {
        x: fx_sub(uv.x, storm_center.x),
        y: fx_sub(uv.y, storm_center.y),
        z: fx_sub(uv.z, storm_center.z),
    };
    let dist_to_storm: i64 = v3_len(to_storm);
    if dist_to_storm < 1202590843 {
        let storm_factor: i64 = fx_sub(FX_ONE, fx_div(dist_to_storm, 1202590843));
        let swirl_q: V3 = v3_add(
            v3_scale(to_storm, 64424509440),
            V3 { x: fx_mul(time, 3435973837), y: 0, z: 0 },
        );
        let storm_swirl: i64 = fbm(swirl_q, 3, 2576980378, 8589934592);
        let storm_color: V3 = v3_lerp(
            V3 { x: 4080218931, y: 1073741824, z: 515396076 },
            V3 { x: 3779571220, y: 1932735283, z: 1202590843 },
            storm_swirl,
        );
        let sf: i64 = fx_max(storm_factor, 0);
        let storm_pow: i64 = fx_mul(fx_mul(sf, sf), fx_sqrt(sf));
        color = v3_lerp(color, storm_color, fx_mul(storm_pow, 3221225472));
    }
    clamp_color(color, FX_ONE)
}

/// The craft hull: uniform flat gray, no shading computation.
pub fn shade_spaceship(point: V3, time: i64) -> (r: V3)
    ensures
        0 <= r.x <= FX_ONE,
        0 <= r.y <= FX_ONE,
        0 <= r.z <= FX_ONE,
        r == (V3 { x: 2147483648i64, y: 2147483648i64, z: 2147483648i64 }),
{
    let _ = point;
    let _ = time;
    V3 { x: 2147483648, y: 2147483648, z: 2147483648 }
}

/// The ice planet's color before the polar and crystal layers: the
/// fbm-banded ice brightness with snow and deep cracks applied.
#[verifier::opaque]
pub open spec fn ice_ground_s(point: V3, time: i64) -> V3 {
    let uv = v3_normalize_s(point);
    let base_q = v3_add_s(
        v3_scale_s(uv, 17179869184),
        V3 { x: sat_i64(fx_mul_s(time as int, 128849019)), y: 0i64, z: 0i64 },
    );
    let ice_base = fbm_s(base_q, 4, 2362232013, 8589934592);
    let ice_bright = V3 { x: 3951369912i64, y: 4080218931i64, z: 4294967296i64 };
    let ice_normal = V3 { x: 3221225472i64, y: 3650722202i64, z: 4080218931i64 };
    let ice_dark = V3 { x: 2362232013i64, y: 2791728742i64, z: 3435973837i64 };
    let ice_crack = V3 { x: 1073741824i64, y: 1503238554i64, z: 2362232013i64 };
    let c0 = if ice_base > 3006477107 {
        ice_bright
    } else if ice_base > 1932735283 {
        v3_lerp_s(ice_normal, ice_bright, fx_div_s(fx_sub_s(ice_base, 1932735283), 1073741824))
    } else if ice_base > 1073741824 {
        v3_lerp_s(ice_dark, ice_normal, fx_div_s(fx_sub_s(ice_base, 1073741824), 858993459))
    } else {
        v3_lerp_s(ice_crack, ice_dark, fx_div_s(ice_base, 1073741824))
    };
    let snow_pattern = fbm_s(v3_scale_s(uv, 51539607552), 2, 2576980378, 8589934592);
    let c1 = if snow_pattern > 2791728742 {
        let snow_intensity = fx_mul_s(fx_sub_s(snow_pattern, 2791728742), 12025908429);
        v3_lerp_s(
            c0,
            V3 { x: 4209067950i64, y: 4252017623i64, z: 4294967296i64 },
            fx_min_s(snow_intensity, 3006477107),
        )
    } else {
        c0
    };
    let crack_q = v3_add_s(
        v3_scale_s(uv, 77309411328),
        V3 { x: sat_i64(fx_mul_s(time as int, 214748365)), y: 0i64, z: 0i64 },
    );
    let crack_detail = fbm_s(crack_q, 2, 2147483648, 8589934592);
    if crack_detail < 1073741824 {
        let crack_depth = fx_sub_s(FX_ONE as int, fx_div_s(crack_detail, 1073741824));
        v3_lerp_s(
            c1,
            V3 { x: 644245094i64, y: 1073741824i64, z: 1932735283i64 },
            fx_mul_s(crack_depth, 2576980378),
        )
    } else {
        c1
    }
}

/// The ice planet's color as a value: the ground layers, then the polar
/// caps and crystal sparkles, clamped.
#[verifier::opaque]
pub open spec fn shade_ice_planet_s(point: V3, time: i64) -> V3 {
    let uv = v3_normalize_s(point);
    let c2 = ice_ground_s(point, time);
    let polar_factor = sabs(uv.y as int);
    let c3 = if polar_factor > 3006477107 {
        let polar_intensity = fx_div_s(fx_sub_s(polar_factor, 3006477107), 1288490189);
        v3_lerp_s(
            c2,
            V3 { x: 4209067950i64, y: 4252017623i64, z: 4294967296i64 },
            fx_mul_s(polar_intensity, 2147483648),
        )
    } else {
        c2
    };
    let crystal_q = v3_add_s(
        v3_scale_s(uv, 150323855360),
        V3 { x: 0i64, y: sat_i64(fx_mul_s(time as int, 429496730)), z: 0i64 },
    );
    let crystal_noise = noise_s(crystal_q);
    let c4 = if crystal_noise > 3521873183 {
        let sparkle = fx_mul_s(fx_sub_s(crystal_noise, 3521873183), 21474836480);
        v3_lerp_s(
            c3,
            V3 { x: 4294967296i64, y: 4294967296i64, z: 4294967296i64 },
            fx_min_s(sparkle, 1717986918),
        )
    } else {
        c3
    };
    clamp_color_s(c4, FX_ONE as int)
}

/// The ice planet: banded ice brightness from fbm, fresh snow patches,
/// deep cracks, bright polar caps and sparkling crystals.
#[verifier::rlimit(100)]
pub fn shade_ice_planet(point: V3, time: i64) -> (r: V3)
    requires
        v3_ok(point),
        FX_MIN <= time,
    ensures
        0 <= r.x <= FX_ONE,
        0 <= r.y <= FX_ONE,
        r == shade_ice_planet_s(point, time),
        0 <= r.z <= FX_ONE,
{
    proof {
        reveal(shade_ice_planet_s);
    }
    let uv: V3 = v3_normalize(point);
    let base_q: V3 = v3_add(
        v3_scale(uv, 17179869184),
        V3 { x: fx_mul(time, 128849019), y: 0, z: 0 },
    );
    let ice_base: i64 = fbm(base_q, 4, 2362232013, 8589934592);
    let ice_bright: V3 = V3 { x: 3951369912, y: 4080218931, z: 4294967296 };
    let ice_normal: V3 = V3 { x: 3221225472, y: 3650722202, z: 4080218931 };
    let ice_dark: V3 = V3 { x: 2362232013, y: 2791728742, z: 3435973837 };
    let ice_crack: V3 = V3 { x: 1073741824, y: 1503238554, z: 2362232013 };
    let mut color: V3;
    if ice_base > 3006477107 {
        color = ice_bright;
    } else if ice_base > 1932735283 {
        color = v3_lerp(
            ice_normal,
            ice_bright,
            fx_div(fx_sub(ice_base, 1932735283), 1073741824),
        );
    } else if ice_base > 1073741824 {
        color = v3_lerp(ice_dark, ice_normal, fx_div(fx_sub(ice_base, 1073741824), 858993459));
    } else {
        color = v3_lerp(ice_crack, ice_dark, fx_div(ice_base, 1073741824));
    }
    let snow_pattern: i64 = fbm(v3_scale(uv, 51539607552), 2, 2576980378, 8589934592);
    if snow_pattern > 2791728742 {
        let snow_intensity: i64 = fx_mul(fx_sub(snow_pattern, 2791728742), 12025908429);
        color = v3_lerp(
            color,
            V3 { x: 4209067950, y: 4252017623, z: 4294967296 },
            fx_min(snow_intensity, 3006477107),
        );
    }
    let crack_q: V3 = v3_add(
        v3_scale(uv, 77309411328),
        V3 { x: fx_mul(time, 214748365), y: 0, z: 0 },
    );
    let crack_detail: i64 = fbm(crack_q, 2, 2147483648, 8589934592);
    if crack_detail < 1073741824 {
        let crack_depth: i64 = fx_sub(FX_ONE, fx_div(crack_detail, 1073741824));
        color = v3_lerp(
            color,
            V3 { x: 644245094, y: 1073741824, z: 1932735283 },
            fx_mul(crack_depth, 2576980378),
        );
    }
    proof {
        reveal(ice_ground_s);
        assert(color == ice_ground_s(point, time));
    }
    let polar_factor: i64 = fx_abs(uv.y);
    if polar_factor > 3006477107 {
        let polar_intensity: i64 = fx_div(fx_sub(polar_factor, 3006477107), 1288490189);
        color = v3_lerp(
            color,
            V3 { x: 4209067950, y: 4252017623, z: 4294967296 },
            fx_mul(polar_intensity, 2147483648),
        );
    }
    let crystal_q: V3 = v3_add(
        v3_scale(uv, 150323855360),
        V3 { x: 0, y: fx_mul(time, 429496730), z: 0 },
    );
    let crystal_noise: i64 = noise(crystal_q);
    if crystal_noise > 3521873183 {
        let sparkle: i64 = fx_mul(fx_sub(crystal_noise, 3521873183), 21474836480);
        color = v3_lerp(
            color,
            V3 { x: 4294967296, y: 4294967296, z: 4294967296 },
            fx_min(sparkle, 1717986918),
        );
    }
    clamp_color(color, FX_ONE)
}

/// The desert planet's color as a value: the exact fixed-point
/// composition the shader computes.
#[verifier::opaque]
pub open spec fn shade_desert_planet_s(point: V3, time: i64) -> V3 {
    let uv = v3_normalize_s(point);
    let base_q = v3_add_s(
        v3_scale_s(uv, 17179869184),
        V3 { x: sat_i64(fx_mul_s(time as int, 85899346)), y: 0i64, z: 0i64 },
    );
    let n = fbm_s(base_q, 2, 2576980378, 8589934592);
    let sand_light = V3 { x: 3865470566i64, y: 3006477107i64, z: 1288490189i64 };
    let sand_dark = V3 { x: 2576980378i64, y: 1717986918i64, z: 429496730i64 };
    let n_pow = fx_mul_s(fx_sqrt_s(n), fx_sqrt_s(fx_sqrt_s(n)));
    let c0 = v3_lerp_s(sand_dark, sand_light, n_pow);
    let dune_noise = noise_s(v3_scale_s(uv, 25769803776));
    let dune_arg = fx_add_s(fx_mul_s(uv.y as int, 42949672960), fx_mul_s(dune_noise, 8589934592));
    let dunes = fx_add_s(fx_mul_s(sine_s(dune_arg), 2147483648), 2147483648);
    let c1 = v3_lerp_s(
        c0,
        V3 { x: 4080218931i64, y: 3435973837i64, z: 1717986918i64 },
        fx_mul_s(dunes, 1288490189),
    );
    clamp_color_s(c1, FX_ONE as int)
}

/// The desert planet: blended sands with sine-shaped dunes.
pub fn shade_desert_planet(point: V3, time: i64) -> (r: V3)
    requires
        v3_ok(point),
        FX_MIN <= time,
    ensures
        0 <= r.x <= FX_ONE,
        0 <= r.y <= FX_ONE,
        r == shade_desert_planet_s(point, time),
        0 <= r.z <= FX_ONE,
{
    proof {
        reveal(shade_desert_planet_s);
    }
    let uv: V3 = v3_normalize(point);
    let base_q: V3 = v3_add(
        v3_scale(uv, 17179869184),
        V3 { x: fx_mul(time, 85899346), y: 0, z: 0 },
    );
    let n: i64 = fbm(base_q, 2, 2576980378, 8589934592);
    let sand_light: V3 = V3 { x: 3865470566, y: 3006477107, z: 1288490189 };
    let sand_dark: V3 = V3 { x: 2576980378, y: 1717986918, z: 429496730 };
    // A 0.75 power (square root times fourth root) stands in for a
    // 0.8-power falloff that fixed point cannot take directly.
    let n_pow: i64 = fx_mul(fx_sqrt(n), fx_sqrt(fx_sqrt(n)));
    let mut color: V3 = v3_lerp(sand_dark, sand_light, n_pow);
    let dune_noise: i64 = noise(v3_scale(uv, 25769803776));
    let dune_arg: i64 = fx_add(fx_mul(uv.y, 42949672960), fx_mul(dune_noise, 8589934592));
    let dunes: i64 = fx_add(fx_mul(sine(dune_arg), 2147483648), 2147483648);
    color = v3_lerp(
        color,
        V3 { x: 4080218931, y: 3435973837, z: 1717986918 },
        fx_mul(dunes, 1288490189),
    );
    clamp_color(color, FX_ONE)
}

/// The volcanic planet's color as a value: the exact fixed-point
/// composition the shader computes, up to the 1.5 overbright clamp.
#[verifier::opaque]
pub open spec fn shade_volcanic_planet_s(point: V3, time: i64) -> V3 {
    let uv = v3_normalize_s(point);
    let terrain = fbm_s(v3_scale_s(uv, 15032385536), 4, 2362232013, 8589934592);
    let rock_dark = V3 { x: 515396076i64, y: 429496730i64, z: 343597384i64 };
    let rock_normal = V3 { x: 1073741824i64, y: 858993459i64, z: 644245094i64 };
    let rock_hot = V3 { x: 1932735283i64, y: 1073741824i64, z: 644245094i64 };
    let lava_dark = V3 { x: 3435973837i64, y: 1073741824i64, z: 214748365i64 };
    let lava_bright = V3 { x: 5153960755i64, y: 1932735283i64, z: 0i64 };
    let lava_core = V3 { x: 6442450944i64, y: 3435973837i64, z: 429496730i64 };
    let color_main = if terrain > 1803886264 {
        let lava_intensity = fx_div_s(fx_sub_s(terrain, 1803886264), 2491081032);
        let flow_q = v3_add_s(
            v3_scale_s(uv, 34359738368),
            V3 {
                x: sat_i64(fx_mul_s(time as int, 2147483648)),
                y: sat_i64(fx_mul_s(time as int, 1288490189)),
                z: 0i64,
            },
        );
        let lava_flow = fbm_s(flow_q, 3, 2576980378, 8589934592);
        let c0 = if lava_intensity > 3006477107 {
            v3_lerp_s(lava_bright, lava_core, fx_div_s(fx_sub_s(lava_intensity, 3006477107), 1288490189))
        } else if lava_intensity > 1717986918 {
            v3_lerp_s(lava_dark, lava_bright, fx_div_s(fx_sub_s(lava_intensity, 1717986918), 1288490189))
        } else {
            v3_lerp_s(rock_hot, lava_dark, fx_div_s(lava_intensity, 1717986918))
        };
        let pulse_arg = fx_add_s(
            fx_add_s(fx_mul_s(time as int, 10737418240), fx_mul_s(uv.x as int, 34359738368)),
            fx_mul_s(uv.y as int, 25769803776),
        );
        let pulse = fx_add_s(fx_mul_s(sine_s(pulse_arg), 2147483648), 2147483648);
        let pulse_color = V3 { x: 6012954214i64, y: 2576980378i64, z: 214748365i64 };
        let c1 = v3_lerp_s(
            c0,
            pulse_color,
            fx_mul_s(fx_mul_s(pulse, fx_max_s(lava_intensity, 0)), 1503238554),
        );
        v3_scale_s(c1, fx_add_s(3650722202, fx_mul_s(lava_flow, 1288490189)))
    } else {
        let c0 = if terrain > 1073741824 {
            v3_lerp_s(rock_normal, rock_hot, fx_div_s(fx_sub_s(terrain, 1073741824), 730144440))
        } else {
            v3_lerp_s(rock_dark, rock_normal, fx_div_s(terrain, 1073741824))
        };
        let rock_detail = fbm_s(v3_scale_s(uv, 64424509440), 2, 2147483648, 8589934592);
        let c1 = v3_scale_s(c0, fx_add_s(3435973837, fx_mul_s(rock_detail, 1717986918)));
        let crack_q = v3_add_s(
            v3_scale_s(uv, 85899345920),
            V3 { x: sat_i64(fx_mul_s(time as int, 858993459)), y: 0i64, z: 0i64 },
        );
        let crack_pattern = noise_s(crack_q);
        if crack_pattern < 644245094 {
            let crack_glow = fx_mul_s(fx_sub_s(644245094, crack_pattern), 25769803776);
            v3_lerp_s(
                c1,
                V3 { x: 4294967296i64, y: 1503238554i64, z: 0i64 },
                fx_min_s(crack_glow, 2147483648),
            )
        } else {
            c1
        }
    };
    let ash_q = v3_add_s(
        v3_scale_s(uv, 107374182400),
        V3 {
            x: sat_i64(fx_mul_s(time as int, 1717986918)),
            y: sat_i64(fx_mul_s(time as int, 2576980378)),
            z: 0i64,
        },
    );
    let ash_pattern = noise_s(ash_q);
    let color_f = if ash_pattern > 3350074491 {
        let ash_density = fx_mul_s(fx_sub_s(ash_pattern, 3350074491), 17179869184);
        v3_lerp_s(
            color_main,
            V3 { x: 1503238554i64, y: 1288490189i64, z: 1202590843i64 },
            fx_min_s(ash_density, 1288490189),
        )
    } else {
        color_main
    };
    clamp_color_s(color_f, 6442450944)
}

/// The volcanic planet: a terrain threshold splits glowing lava bands
/// (with flow turbulence and pulsing) from dark rock with glowing cracks;
/// floating ash on top; channels up to 1.5.
#[verifier::rlimit(100)]
pub fn shade_volcanic_planet(point: V3, time: i64) -> (r: V3)
    requires
        v3_ok(point),
        FX_MIN <= time,
    ensures
        r == shade_volcanic_planet_s(point, time),
        0 <= r.x <= 6442450944,
        0 <= r.y <= 6442450944,
        0 <= r.z <= 6442450944,
{
    proof {
        reveal(shade_volcanic_planet_s);
    }
    let uv: V3 = v3_normalize(point);
    let terrain: i64 = fbm(v3_scale(uv, 15032385536), 4, 2362232013, 8589934592);
    let rock_dark: V3 = V3 { x: 515396076, y: 429496730, z: 343597384 };
    let rock_normal: V3 = V3 { x: 1073741824, y: 858993459, z: 644245094 };
    let rock_hot: V3 = V3 { x: 1932735283, y: 1073741824, z: 644245094 };
    let lava_dark: V3 = V3 { x: 3435973837, y: 1073741824, z: 214748365 };
    let lava_bright: V3 = V3 { x: 5153960755, y: 1932735283, z: 0 };
    let lava_core: V3 = V3 { x: 6442450944, y: 3435973837, z: 429496730 };
    let mut color: V3;
    if terrain > 1803886264 {
        let lava_intensity: i64 = fx_div(fx_sub(terrain, 1803886264), 2491081032);
        let flow_q: V3 = v3_add(
            v3_scale(uv, 34359738368),
            V3 { x: fx_mul(time, 2147483648), y: fx_mul(time, 1288490189), z: 0 },
        );
        let lava_flow: i64 = fbm(flow_q, 3, 2576980378, 8589934592);
        if lava_intensity > 3006477107 {
            color = v3_lerp(
                lava_bright,
                lava_core,
                fx_div(fx_sub(lava_intensity, 3006477107), 1288490189),
            );
        } else if lava_intensity > 1717986918 {
            color = v3_lerp(
                lava_dark,
                lava_bright,
                fx_div(fx_sub(lava_intensity, 1717986918), 1288490189),
            );
        } else {
            color = v3_lerp(rock_hot, lava_dark, fx_div(lava_intensity, 1717986918));
        }
        let pulse_arg: i64 = fx_add(
            fx_add(fx_mul(time, 10737418240), fx_mul(uv.x, 34359738368)),
            fx_mul(uv.y, 25769803776),
        );
        let pulse: i64 = fx_add(fx_mul(sine(pulse_arg), 2147483648), 2147483648);
        let pulse_color: V3 = V3 { x: 6012954214, y: 2576980378, z: 214748365 };
        color = v3_lerp(
            color,
            pulse_color,
            fx_mul(fx_mul(pulse, fx_max(lava_intensity, 0)), 1503238554),
        );
        color = v3_scale(color, fx_add(3650722202, fx_mul(lava_flow, 1288490189)));
    } else {
        if terrain > 1073741824 {
            color = v3_lerp(
                rock_normal,
                rock_hot,
                fx_div(fx_sub(terrain, 1073741824), 730144440),
            );
        } else {
            color = v3_lerp(rock_dark, rock_normal, fx_div(terrain, 1073741824));
        }
        let rock_detail: i64 = fbm(v3_scale(uv, 64424509440), 2, 2147483648, 8589934592);
        color = v3_scale(color, fx_add(3435973837, fx_mul(rock_detail, 1717986918)));
        let crack_q: V3 = v3_add(
            v3_scale(uv, 85899345920),
            V3 { x: fx_mul(time, 858993459), y: 0, z: 0 },
        );
        let crack_pattern: i64 = noise(crack_q);
        if crack_pattern < 644245094 {
            let crack_glow: i64 = fx_mul(fx_sub(644245094, crack_pattern), 25769803776);
            color = v3_lerp(
                color,
                V3 { x: 4294967296, y: 1503238554, z: 0 },
                fx_min(crack_glow, 2147483648),
            );
        }
    }
    let ash_q: V3 = v3_add(
        v3_scale(uv, 107374182400),
        V3 { x: fx_mul(time, 1717986918), y: fx_mul(time, 2576980378), z: 0 },
    );
    let ash_pattern: i64 = noise(ash_q);
    if ash_pattern > 3350074491 {
        let ash_density: i64 = fx_mul(fx_sub(ash_pattern, 3350074491), 17179869184);
        color = v3_lerp(
            color,
            V3 { x: 1503238554, y: 1288490189, z: 1202590843 },
            fx_min(ash_density, 1288490189),
        );
    }
    clamp_color(color, 6442450944)
}

/// The ocean planet's color as a value: the exact fixed-point
/// composition the shader computes.
#[verifier::opaque]
pub open spec fn shade_ocean_planet_s(point: V3, time: i64) -> V3 {
    let uv = v3_normalize_s(point);
    let wave_q = v3_add_s(
        v3_scale_s(uv, 64424509440),
        V3 {
            x: sat_i64(fx_mul_s(time as int, 2147483648)),
            y: sat_i64(fx_mul_s(time as int, 1073741824)),
            z: 0i64,
        },
    );
    let waves = fbm_s(wave_q, 3, 2576980378, 8589934592);
    let deep_ocean = V3 { x: 0i64, y: 858993459i64, z: 2147483648i64 };
    let shallow_ocean = V3 { x: 429496730i64, y: 2147483648i64, z: 3435973837i64 };
    let foam = V3 { x: 3006477107i64, y: 3865470566i64, z: 4294967296i64 };
    let c0 = v3_lerp_s(deep_ocean, shallow_ocean, waves);
    let c1 = if waves > 3006477107 {
        v3_lerp_s(c0, foam, fx_mul_s(fx_sub_s(waves, 3006477107), 12884901888))
    } else {
        c0
    };
    clamp_color_s(c1, FX_ONE as int)
}

/// The ocean planet: fbm waves blending deep and shallow water, foam on
/// the crests.
pub fn shade_ocean_planet(point: V3, time: i64) -> (r: V3)
    requires
        v3_ok(point),
        FX_MIN <= time,
    ensures
        0 <= r.x <= FX_ONE,
        0 <= r.y <= FX_ONE,
        r == shade_ocean_planet_s(point, time),
        0 <= r.z <= FX_ONE,
{
    proof {
        reveal(shade_ocean_planet_s);
    }
    let uv: V3 = v3_normalize(point);
    let wave_q: V3 = v3_add(
        v3_scale(uv, 64424509440),
        V3 { x: fx_mul(time, 2147483648), y: fx_mul(time, 1073741824), z: 0 },
    );
    let waves: i64 = fbm(wave_q, 3, 2576980378, 8589934592);
    let deep_ocean: V3 = V3 { x: 0, y: 858993459, z: 2147483648 };
    let shallow_ocean: V3 = V3 { x: 429496730, y: 2147483648, z: 3435973837 };
    let foam: V3 = V3 { x: 3006477107, y: 3865470566, z: 4294967296 };
    let mut color: V3 = v3_lerp(deep_ocean, shallow_ocean, waves);
    if waves > 3006477107 {
        color = v3_lerp(color, foam, fx_mul(fx_sub(waves, 3006477107), 12884901888));
    }
    clamp_color(color, FX_ONE)
}

/// The purple planet's color as a value: the exact fixed-point
/// composition the shader computes.
#[verifier::opaque]
pub open spec fn shade_purple_planet_s(point: V3, time: i64) -> V3 {
    let uv = v3_normalize_s(point);
    let crystal_q = v3_add_s(
        v3_scale_s(uv, 34359738368),
        V3 { x: 0i64, y: sat_i64(fx_mul_s(time as int, 429496730)), z: 0i64 },
    );
    let n = fbm_s(crystal_q, 4, 2147483648, 10737418240);
    let dark_purple = V3 { x: 1288490189i64, y: 429496730i64, z: 2147483648i64 };
    let bright_purple = V3 { x: 3006477107i64, y: 858993459i64, z: 3865470566i64 };
    let crystal_color = V3 { x: 3865470566i64, y: 2147483648i64, z: 4294967296i64 };
    let c0 = v3_lerp_s(dark_purple, bright_purple, n);
    let crystal_noise = noise_s(v3_scale_s(uv, 85899345920));
    let c1 = if crystal_noise > 3221225472 {
        v3_lerp_s(c0, crystal_color, fx_mul_s(fx_sub_s(crystal_noise, 3221225472), 17179869184))
    } else {
        c0
    };
    clamp_color_s(c1, FX_ONE as int)
}

/// The alien purple planet: fbm-banded purples with bright crystal
/// highlights.
pub fn shade_purple_planet(point: V3, time: i64) -> (r: V3)
    requires
        v3_ok(point),
        FX_MIN <= time,
    ensures
        0 <= r.x <= FX_ONE,
        0 <= r.y <= FX_ONE,
        r == shade_purple_planet_s(point, time),
        0 <= r.z <= FX_ONE,
{
    proof {
        reveal(shade_purple_planet_s);
    }
    let uv: V3 = v3_normalize(point);
    let crystal_q: V3 = v3_add(
        v3_scale(uv, 34359738368),
        V3 { x: 0, y: fx_mul(time, 429496730), z: 0 },
    );
    let n: i64 = fbm(crystal_q, 4, 2147483648, 10737418240);
    let dark_purple: V3 = V3 { x: 1288490189, y: 429496730, z: 2147483648 };
    let bright_purple: V3 = V3 { x: 3006477107, y: 858993459, z: 3865470566 };
    let crystal_color: V3 = V3 { x: 3865470566, y: 2147483648, z: 4294967296 };
    let mut color: V3 = v3_lerp(dark_purple, bright_purple, n);
    let crystal_noise: i64 = noise(v3_scale(uv, 85899345920));
    if crystal_noise > 3221225472 {
        color = v3_lerp(
            color,
            crystal_color,
            fx_mul(fx_sub(crystal_noise, 3221225472), 17179869184),
        );
    }
    clamp_color(color, FX_ONE)
}

/// The ringed planet's color as a value: the exact fixed-point
/// composition the shader computes.
#[verifier::opaque]
pub open spec fn shade_ringed_planet_s(point: V3, time: i64) -> V3 {
    let uv = v3_normalize_s(point);
    let base_q = v3_add_s(
        v3_scale_s(uv, 21474836480),
        V3 { x: sat_i64(fx_mul_s(time as int, 644245094)), y: 0i64, z: 0i64 },
    );
    let n = fbm_s(base_q, 3, 2147483648, 8589934592);
    let turquoise_dark = V3 { x: 429496730i64, y: 1717986918i64, z: 2147483648i64 };
    let turquoise_light = V3 { x: 1288490189i64, y: 3435973837i64, z: 3865470566i64 };
    let white_clouds = V3 { x: 3865470566i64, y: 4080218931i64, z: 4294967296i64 };
    let c0 = v3_lerp_s(turquoise_dark, turquoise_light, n);
    let cloud_q = v3_add_s(
        v3_scale_s(uv, 42949672960),
        V3 { x: sat_i64(fx_mul_s(time as int, 858993459)), y: 0i64, z: 0i64 },
    );
    let cloud_noise = fbm_s(cloud_q, 2, 2576980378, 8589934592);
    let c1 = if cloud_noise > 2576980378 {
        v3_lerp_s(c0, white_clouds, fx_mul_s(fx_sub_s(cloud_noise, 2576980378), 10737418240))
    } else {
        c0
    };
    clamp_color_s(c1, FX_ONE as int)
}

/// The ringed planet's turquoise atmosphere with bright clouds.
pub fn shade_ringed_planet(point: V3, time: i64) -> (r: V3)
    requires
        v3_ok(point),
        FX_MIN <= time,
    ensures
        0 <= r.x <= FX_ONE,
        0 <= r.y <= FX_ONE,
        r == shade_ringed_planet_s(point, time),
        0 <= r.z <= FX_ONE,
{
    proof {
        reveal(shade_ringed_planet_s);
    }
    let uv: V3 = v3_normalize(point);
    let base_q: V3 = v3_add(
        v3_scale(uv, 21474836480),
        V3 { x: fx_mul(time, 644245094), y: 0, z: 0 },
    );
    let n: i64 = fbm(base_q, 3, 2147483648, 8589934592);
    let turquoise_dark: V3 = V3 { x: 429496730, y: 1717986918, z: 2147483648 };
    let turquoise_light: V3 = V3 { x: 1288490189, y: 3435973837, z: 3865470566 };
    let white_clouds: V3 = V3 { x: 3865470566, y: 4080218931, z: 4294967296 };
    let mut color: V3 = v3_lerp(turquoise_dark, turquoise_light, n);
    let cloud_q: V3 = v3_add(
        v3_scale(uv, 42949672960),
        V3 { x: fx_mul(time, 858993459), y: 0, z: 0 },
    );
    let cloud_noise: i64 = fbm(cloud_q, 2, 2576980378, 8589934592);
    if cloud_noise > 2576980378 {
        color = v3_lerp(color, white_clouds, fx_mul(fx_sub(cloud_noise, 2576980378), 10737418240));
    }
    clamp_color(color, FX_ONE)
}

/// The starfield background: plain black space.
pub fn shade_starfield(point: V3, time: i64) -> (r: V3)
    ensures
        r == (V3 { x: 0i64, y: 0i64, z: 0i64 }),
{
    let _ = point;
    let _ = time;
    V3 { x: 0, y: 0, z: 0 }
}

/// The shaded color of any material as a value: exhaustive dispatch over
/// the per-material spec mirrors.
pub open spec fn shade_s(material: Material, point: V3, time: i64) -> V3 {
    match material {
        Material::Star => shade_star_s(point, time),
        Material::Rocky => shade_rocky_s(point, time),
        Material::GasGiant => shade_gas_giant_s(point, time),
        Material::Spaceship => V3 { x: 2147483648i64, y: 2147483648i64, z: 2147483648i64 },
        Material::Ice => shade_ice_planet_s(point, time),
        Material::Desert => shade_desert_planet_s(point, time),
        Material::Volcanic => shade_volcanic_planet_s(point, time),
        Material::Ocean => shade_ocean_planet_s(point, time),
        Material::Purple => shade_purple_planet_s(point, time),
        Material::Ringed => shade_ringed_planet_s(point, time),
    }
}

/// Shading dispatch: one shader per material tag, exhaustively.  Every
/// material's channels stay inside `[0, 2]`.
pub fn shade(material: Material, point: V3, time: i64) -> (r: V3)
    requires
        v3_ok(point),
        FX_MIN <= time,
    ensures
        r == shade_s(material, point, time),
        0 <= r.x <= 8589934592,
        0 <= r.y <= 8589934592,
        0 <= r.z <= 8589934592,
{
    match material {
        Material::Star => shade_star(point, time),
        Material::Rocky => shade_rocky(point, time),
        Material::GasGiant => shade_gas_giant(point, time),
        Material::Spaceship => shade_spaceship(point, time),
        Material::Ice => shade_ice_planet(point, time),
        Material::Desert => shade_desert_planet(point, time),
        Material::Volcanic => shade_volcanic_planet(point, time),
        Material::Ocean => shade_ocean_planet(point, time),
        Material::Purple => shade_purple_planet(point, time),
        Material::Ringed => shade_ringed_planet(point, time),
    }
}

} // verus!
