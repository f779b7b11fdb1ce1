//! Deterministic procedural value noise and fractal Brownian motion.
//!
//! A lattice hash maps each integer cell corner to a pseudo-random value
//! in `[0, 1)`: the corner is dotted with a fixed irrational-coefficient
//! vector, pushed through a sine approximation, scaled by a large
//! constant, and reduced to its fractional part — non-cryptographic by
//! design, but a pure function of its input, so every call with the same
//! argument returns the identical bits.  `noise` blends the eight corner
//! hashes of a point's cell with smoothstep weights; `fbm` sums octaves
//! of `noise` at growing frequency and decaying amplitude, normalized by
//! the total amplitude so the result stays inside `[0, 1]`.

use vstd::prelude::*;
use vstd::arithmetic::div_mod::{
    lemma_div_by_multiple, lemma_div_is_ordered, lemma_div_pos_is_pos, lemma_mul_hoist_inequality,
};
use vstd::arithmetic::mul::{lemma_mul_inequality, lemma_mul_is_commutative};
use crate::fx::{
    FX_MIN, FX_ONE, emod128, fdiv64, fx_add, fx_add_s, fx_div, fx_div_s, fx_min, fx_mul,
    fx_mul_s, fx_sub, fx_sub_s, lemma_fx_mul_unit, lemma_fx_mul_unit_signed, lemma_mul_sign,
};
use crate::geom::{V3, v3_ok, v3_scale, v3_scale_s};

verus! {

/// First lattice-hash dot coefficient (12.9898 in Q32.32).
pub const NOISE_C1: i64 = 55790766182;

/// Second lattice-hash dot coefficient (78.233 in Q32.32).
pub const NOISE_C2: i64 = 336008176468;

/// Third lattice-hash dot coefficient (45.5432 in Q32.32).
pub const NOISE_C3: i64 = 195606554555;

/// The hash's large scaling constant (43758.5453 in Q32.32).
pub const NOISE_SCALE: i64 = 187941520984034;

/// Pi in Q32.32.
pub const PI_FX: i64 = 13493037705;

/// Two pi in Q32.32: the sine's reduction period.
pub const TWO_PI_FX: i64 = 26986075409;

/// Five pi squared in Q32.32: the rational sine approximation's
/// denominator offset.
pub const FIVE_PI_SQ_FX: i64 = 211948140636;

/// Linear blend `a + t*(b - a)`.
pub open spec fn mix_s(a: int, b: int, t: int) -> int {
    fx_add_s(a, fx_mul_s(t, fx_sub_s(b, a)))
}

/// A blend with a weight in `[0, 1]` stays between its endpoints' bounds.
pub proof fn lemma_mix_range(a: int, b: int, t: int)
    requires
        0 <= a <= FX_ONE,
        0 <= b <= FX_ONE,
        0 <= t <= FX_ONE,
    ensures
        0 <= mix_s(a, b, t) <= FX_ONE,
{
    let d = fx_sub_s(b, a);
    lemma_fx_mul_unit_signed(t, d);
}

/// Linear blend of two hash values by a smoothstep weight.
pub fn mix(a: i64, b: i64, t: i64) -> (r: i64)
    requires
        0 <= a <= FX_ONE,
        0 <= b <= FX_ONE,
        0 <= t <= FX_ONE,
    ensures
        r == mix_s(a as int, b as int, t as int),
        0 <= r <= FX_ONE,
{
    proof {
        lemma_mix_range(a as int, b as int, t as int);
    }
    fx_add(a, fx_mul(t, fx_sub(b, a)))
}

/// Smoothstep weight `f*f*(3 - 2*f)`, clamped to `[0, 1]`.
pub open spec fn smooth_s(f: int) -> int {
    let u = fx_mul_s(fx_mul_s(f, f), 3 * FX_ONE - 2 * f);
    if u > FX_ONE {
        FX_ONE as int
    } else {
        u
    }
}

/// Smoothstep weight for one fractional coordinate.
pub fn smooth(f: i64) -> (r: i64)
    requires
        0 <= f < FX_ONE,
    ensures
        r == smooth_s(f as int),
        0 <= r <= FX_ONE,
{
    let f2: i64 = fx_mul(f, f);
    let g: i64 = 12884901888 - 2 * f;
    proof {
        lemma_mul_sign(f as int, f as int);
        lemma_div_pos_is_pos(f as int * f as int, FX_ONE as int);
        lemma_mul_sign(f2 as int, g as int);
        lemma_div_pos_is_pos(f2 as int * g as int, FX_ONE as int);
    }
    let u: i64 = fx_mul(f2, g);
    fx_min(u, FX_ONE)
}

/// Dot of a lattice corner with the fixed coefficient vector.
pub open spec fn lat_dot_s(x: int, y: int, z: int) -> int {
    x * (NOISE_C1 as int) + y * (NOISE_C2 as int) + z * (NOISE_C3 as int)
}

/// Rational sine approximation on `[0, pi]`:
/// `16*phi*(pi - phi) / (5*pi^2 - 4*phi*(pi - phi))`, clamped to `[0, 1]`.
pub open spec fn bhaskara_s(phi: int) -> int {
    let t = fx_mul_s(phi, PI_FX - phi);
    let r = fx_div_s(16 * t, FIVE_PI_SQ_FX - 4 * t);
    if r > FX_ONE {
        FX_ONE as int
    } else {
        r
    }
}

/// Sine on one period `[0, 2*pi)`: the approximation on the first half,
/// its negation on the second.
pub open spec fn sin_s(theta: int) -> int {
    if theta <= PI_FX {
        bhaskara_s(theta)
    } else {
        -bhaskara_s(theta - PI_FX)
    }
}

/// The pseudo-random value of one lattice corner, in `[0, 1)`.
pub open spec fn lat_hash_s(x: int, y: int, z: int) -> int {
    fx_mul_s(sin_s(lat_dot_s(x, y, z) % (TWO_PI_FX as int)), NOISE_SCALE as int) % (FX_ONE as int)
}

/// Rational sine approximation for the first half period.
fn bhaskara(phi: i64) -> (r: i64)
    requires
        0 <= phi <= PI_FX,
    ensures
        r == bhaskara_s(phi as int),
        0 <= r <= FX_ONE,
{
    let pd: i64 = 13493037705 - phi;
    let t: i64 = fx_mul(phi, pd);
    proof {
        let n = phi as int * pd as int;
        lemma_mul_sign(phi as int, pd as int);
        lemma_div_pos_is_pos(n, FX_ONE as int);
        assert(4 * n <= 13493037705 * 13493037705) by (nonlinear_arith)
            requires
                0 <= phi <= 13493037705,
                pd == 13493037705 - phi,
                n == phi as int * pd as int,
        ;
        lemma_mul_hoist_inequality(4, n, FX_ONE as int);
        lemma_div_is_ordered(4 * n, 182062066508551667025, FX_ONE as int);
        vstd::arithmetic::div_mod::lemma_fundamental_div_mod_converse_div(
            182062066508551667025,
            FX_ONE as int,
            42389628130,
            600030545,
        );
        assert(4 * (t as int) <= 42389628130);
    }
    let den: i64 = 211948140636 - 4 * t;
    let num: i64 = 16 * t;
    let r0: i64 = fx_div(num, den);
    proof {
        lemma_mul_sign(num as int, FX_ONE as int);
        lemma_div_pos_is_pos(num as int * FX_ONE as int, den as int);
    }
    fx_min(r0, FX_ONE)
}

/// Sine over one reduced period.
fn fx_sin(theta: i64) -> (r: i64)
    requires
        0 <= theta < TWO_PI_FX,
    ensures
        r == sin_s(theta as int),
        -FX_ONE <= r <= FX_ONE,
{
    if theta <= 13493037705 {
        bhaskara(theta)
    } else {
        -(bhaskara(theta - 13493037705))
    }
}

/// Sine of an unrestricted fixed-point angle: reduce into one period,
/// then apply the half-period approximation.
pub open spec fn sine_s(a: int) -> int {
    sin_s(a % (TWO_PI_FX as int))
}

/// Sine of an unrestricted fixed-point angle, in `[-1, 1]`; drives the
/// shaders' pulsing and banding animations.
pub fn sine(a: i64) -> (r: i64)
    requires
        FX_MIN <= a,
    ensures
        r == sine_s(a as int),
        -FX_ONE <= r <= FX_ONE,
{
    let theta: i64 = emod128(a as i128, TWO_PI_FX);
    fx_sin(theta)
}

/// The pseudo-random value of one lattice corner: dot with the fixed
/// vector, sine, large scale, fractional part.  A pure function of the
/// corner, so repeated calls are bit-identical.
pub fn rand(x: i64, y: i64, z: i64) -> (r: i64)
    requires
        -4294967296 <= x <= 4294967296,
        -4294967296 <= y <= 4294967296,
        -4294967296 <= z <= 4294967296,
    ensures
        r == lat_hash_s(x as int, y as int, z as int),
        0 <= r < FX_ONE,
{
    let d: i128 = (x as i128) * 55790766182 + (y as i128) * 336008176468 + (z as i128)
        * 195606554555;
    let theta: i64 = emod128(d, TWO_PI_FX);
    let s: i64 = fx_sin(theta);
    let v: i64 = fx_mul(s, NOISE_SCALE);
    emod128(v as i128, FX_ONE)
}

/// Value noise at a point: smoothstep-weighted trilinear blend of the
/// eight corner hashes of the point's integer lattice cell, in `[0, 1]`.
pub open spec fn noise_s(p: V3) -> int {
    let ix = (p.x as int) / (FX_ONE as int);
    let iy = (p.y as int) / (FX_ONE as int);
    let iz = (p.z as int) / (FX_ONE as int);
    let u = smooth_s((p.x as int) % (FX_ONE as int));
    let v = smooth_s((p.y as int) % (FX_ONE as int));
    let w = smooth_s((p.z as int) % (FX_ONE as int));
    mix_s(
        mix_s(
            mix_s(lat_hash_s(ix, iy, iz), lat_hash_s(ix + 1, iy, iz), u),
            mix_s(lat_hash_s(ix, iy + 1, iz), lat_hash_s(ix + 1, iy + 1, iz), u),
            v,
        ),
        mix_s(
            mix_s(lat_hash_s(ix, iy, iz + 1), lat_hash_s(ix + 1, iy, iz + 1), u),
            mix_s(lat_hash_s(ix, iy + 1, iz + 1), lat_hash_s(ix + 1, iy + 1, iz + 1), u),
            v,
        ),
        w,
    )
}

/// Deterministic value noise: a pure function of the point (identical
/// inputs give bit-identical results), bounded in `[0, 1]`.
pub fn noise(p: V3) -> (r: i64)
    requires
        v3_ok(p),
    ensures
        r == noise_s(p),
        0 <= r <= FX_ONE,
{
    let ix: i64 = fdiv64(p.x, FX_ONE);
    let iy: i64 = fdiv64(p.y, FX_ONE);
    let iz: i64 = fdiv64(p.z, FX_ONE);
    let f1: i64 = emod128(p.x as i128, FX_ONE);
    let f2: i64 = emod128(p.y as i128, FX_ONE);
    let f3: i64 = emod128(p.z as i128, FX_ONE);
    let u: i64 = smooth(f1);
    let v: i64 = smooth(f2);
    let w: i64 = smooth(f3);
    let h000: i64 = rand(ix, iy, iz);
    let h100: i64 = rand(ix + 1, iy, iz);
    let h010: i64 = rand(ix, iy + 1, iz);
    let h110: i64 = rand(ix + 1, iy + 1, iz);
    let h001: i64 = rand(ix, iy, iz + 1);
    let h101: i64 = rand(ix + 1, iy, iz + 1);
    let h011: i64 = rand(ix, iy + 1, iz + 1);
    let h111: i64 = rand(ix + 1, iy + 1, iz + 1);
    let x00: i64 = mix(h000, h100, u);
    let x10: i64 = mix(h010, h110, u);
    let x01: i64 = mix(h001, h101, u);
    let x11: i64 = mix(h011, h111, u);
    let y0: i64 = mix(x00, x10, v);
    let y1: i64 = mix(x01, x11, v);
    mix(y0, y1, w)
}

/// Accumulated octave sum and total amplitude of `k` octaves of noise
/// starting at the given frequency and amplitude.
pub open spec fn fbm_acc(p: V3, k: nat, freq: int, amp: int, pers: int, lac: int) -> (int, int)
    decreases k,
{
    if k == 0 {
        (0, 0)
    } else {
        let n = noise_s(v3_scale_s(p, freq));
        let term = fx_mul_s(n, amp);
        let rest = fbm_acc(p, (k - 1) as nat, fx_mul_s(freq, lac), fx_mul_s(amp, pers), pers, lac);
        (term + rest.0, amp + rest.1)
    }
}

/// Fractal Brownian motion: the octave sum normalized by the total
/// amplitude.
pub open spec fn fbm_s(p: V3, octaves: int, pers: int, lac: int) -> int {
    let acc = fbm_acc(p, octaves as nat, FX_ONE as int, FX_ONE as int, pers, lac);
    fx_div_s(acc.0, acc.1)
}

/// Fractal Brownian motion: `octaves` layers of value noise at
/// `lacunarity`-growing frequency and `persistence`-decaying amplitude,
/// normalized by the summed amplitude.  The normalization keeps the
/// result inside `[0, 1]` (hence inside `[-1, 1]`) for every octave
/// count; the only cap on octaves is the machine limit of the `i64`
/// amplitude accumulator (2^31 - 1 amplitudes of at most 1 each).
pub fn fbm(p: V3, octaves: u32, persistence: i64, lacunarity: i64) -> (r: i64)
    requires
        v3_ok(p),
        1 <= octaves <= 2147483647,
        0 <= persistence <= FX_ONE,
        0 <= lacunarity,
    ensures
        r == fbm_s(p, octaves as int, persistence as int, lacunarity as int),
        0 <= r <= FX_ONE,
{
    let ghost t_acc: (int, int) = fbm_acc(
        p,
        octaves as nat,
        FX_ONE as int,
        FX_ONE as int,
        persistence as int,
        lacunarity as int,
    );
    let mut total: i64 = 0;
    let mut max_value: i64 = 0;
    let mut frequency: i64 = FX_ONE;
    let mut amplitude: i64 = FX_ONE;
    let mut i: u32 = 0;
    while i < octaves
        invariant
            i <= octaves,
            octaves <= 2147483647,
            v3_ok(p),
            0 <= persistence <= FX_ONE,
            0 <= lacunarity,
            0 <= amplitude <= FX_ONE,
            0 <= frequency,
            0 <= total <= max_value,
            max_value <= i * (FX_ONE as int),
            i >= 1 ==> max_value >= FX_ONE,
            i == 0 ==> amplitude == FX_ONE && frequency == FX_ONE && total == 0 && max_value == 0,
            t_acc == fbm_acc(
                p,
                octaves as nat,
                FX_ONE as int,
                FX_ONE as int,
                persistence as int,
                lacunarity as int,
            ),
            t_acc.0 == total + fbm_acc(
                p,
                (octaves - i) as nat,
                frequency as int,
                amplitude as int,
                persistence as int,
                lacunarity as int,
            ).0,
            t_acc.1 == max_value + fbm_acc(
                p,
                (octaves - i) as nat,
                frequency as int,
                amplitude as int,
                persistence as int,
                lacunarity as int,
            ).1,
        decreases octaves - i,
    {
        let scaled: V3 = v3_scale(p, frequency);
        let n: i64 = noise(scaled);
        let term: i64 = fx_mul(n, amplitude);
        proof {
            lemma_fx_mul_unit(n as int, amplitude as int);
            lemma_fx_mul_unit(amplitude as int, persistence as int);
            lemma_mul_sign(frequency as int, lacunarity as int);
            assert(fbm_acc(
                p,
                (octaves - i) as nat,
                frequency as int,
                amplitude as int,
                persistence as int,
                lacunarity as int,
            ) == {
                let rest = fbm_acc(
                    p,
                    (octaves - i - 1) as nat,
                    fx_mul_s(frequency as int, lacunarity as int),
                    fx_mul_s(amplitude as int, persistence as int),
                    persistence as int,
                    lacunarity as int,
                );
                (term as int + rest.0, amplitude as int + rest.1)
            });
        }
        total = total + term;
        max_value = max_value + amplitude;
        amplitude = fx_mul(amplitude, persistence);
        frequency = fx_mul(frequency, lacunarity);
        i = i + 1;
    }
    proof {
        assert(fbm_acc(
            p,
            0,
            frequency as int,
            amplitude as int,
            persistence as int,
            lacunarity as int,
        ) == (0int, 0int));
        assert(total as int == t_acc.0);
        assert(max_value as int == t_acc.1);
        lemma_mul_inequality(total as int, max_value as int, FX_ONE as int);
        lemma_mul_is_commutative(FX_ONE as int, max_value as int);
        lemma_div_is_ordered(
            total as int * FX_ONE as int,
            max_value as int * FX_ONE as int,
            max_value as int,
        );
        lemma_div_by_multiple(FX_ONE as int, max_value as int);
        lemma_mul_sign(total as int, FX_ONE as int);
        lemma_div_pos_is_pos(total as int * FX_ONE as int, max_value as int);
    }
    fx_div(total, max_value)
}

} // verus!
