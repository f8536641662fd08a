//! Deterministic value noise and fractal Brownian motion.
//!
//! The construction is the classic shader one: a pseudo-random scalar per
//! integer lattice point (`random2d`), bilinear interpolation between the four
//! corners around a sample with Hermite-smoothed weights (`vnoise2d`), and a
//! four-octave sum with a fixed rotation and slightly uneven gains between
//! octaves (`fbm`).  All of it is exact fixed-point arithmetic.

use vstd::prelude::*;

use crate::fixed::{
    fract, floor_units, iabs, lemma_mul_fx_in, mix, mul_fx, sin_fx, smoothstep, spec_fract,
    spec_floor_units, spec_mix, spec_mul_fx, spec_sin, spec_smoothstep, SCALE,
};
use crate::geom::{vec2_bounded, Vec2Fx};

verus! {

/// First hash key, 12.9898 in micro-units.
pub const HASH_KX: i64 = 12_989_800;

/// Second hash key, 78.233 in micro-units.
pub const HASH_KY: i64 = 78_233_000;

/// Hash magnifier, 43758.5453123 in micro-units.
pub const HASH_MAG: i64 = 43_758_545_312;

/// Octave rotation, first column entry: 0.8.
pub const M2_C: i64 = 800_000;

/// Octave rotation, second column entry: 0.6.
pub const M2_S: i64 = 600_000;

/// Largest magnitude accepted by `random2d`.
pub const RAND_LIM: i64 = 240_000_000_000_000;

/// Largest magnitude accepted by `vnoise2d` and `noise2`.
pub const NOISE_LIM: i64 = 120_000_000_000_000;

/// Largest magnitude accepted by `fbm` and `fbm_half`.
pub const FBM_LIM: i64 = 4_000_000_000_000;

/// The lattice hash: the fractional part of a magnified sine of a keyed dot
/// product, `fract(sin(dot(v, (12.9898, 78.233))) * 43758.5453123)`.
pub open spec fn spec_random2d(x: int, y: int) -> int {
    let phase = spec_mul_fx(x, HASH_KX as int) + spec_mul_fx(y, HASH_KY as int);
    spec_fract(spec_mul_fx(spec_sin(phase), HASH_MAG as int))
}

/// `random2d` of the componentwise floor of `v`.
pub open spec fn spec_random2di(x: int, y: int) -> int {
    spec_random2d(
        spec_floor_units(x) * (SCALE as int),
        spec_floor_units(y) * (SCALE as int),
    )
}

/// Deterministic pseudo-random scalar in `[0, 1)` from a 2-d input.
pub fn random2d(v: Vec2Fx) -> (r: i64)
    requires
        vec2_bounded(v, RAND_LIM as int),
    ensures
        r == spec_random2d(v.x as int, v.y as int),
        0 <= r < SCALE,
{
    proof {
        lemma_mul_fx_in(v.x as int, HASH_KX as int, RAND_LIM as int, HASH_KX as int);
        lemma_mul_fx_in(v.y as int, HASH_KY as int, RAND_LIM as int, HASH_KY as int);
    }
    let phase = mul_fx(v.x, HASH_KX) + mul_fx(v.y, HASH_KY);
    let s = sin_fx(phase);
    proof {
        lemma_mul_fx_in(s as int, HASH_MAG as int, SCALE as int, HASH_MAG as int);
    }
    fract(mul_fx(s, HASH_MAG))
}

/// The lattice hash of the cell that `v` falls in: `random2d(floor(v))`.
pub fn random2di(v: Vec2Fx) -> (r: i64)
    requires
        vec2_bounded(v, NOISE_LIM as int + 2 * SCALE as int),
    ensures
        r == spec_random2di(v.x as int, v.y as int),
        0 <= r < SCALE,
{
    let fx = floor_units(v.x);
    let fy = floor_units(v.y);
    random2d(Vec2Fx { x: fx * SCALE, y: fy * SCALE })
}

/// Componentwise fractional part.
pub fn fract_vec2(v: Vec2Fx) -> (r: Vec2Fx)
    ensures
        r.x == spec_fract(v.x as int),
        r.y == spec_fract(v.y as int),
        0 <= r.x < SCALE,
        0 <= r.y < SCALE,
{
    Vec2Fx { x: fract(v.x), y: fract(v.y) }
}

/// Componentwise unit smoothstep: the Hermite fade curve applied to both
/// interpolation weights.
pub fn cubic_hermite_curve_2d(p: Vec2Fx) -> (r: Vec2Fx)
    requires
        -10_000_000 <= p.x <= 10_000_000,
        -10_000_000 <= p.y <= 10_000_000,
    ensures
        r.x == spec_smoothstep(0, SCALE as int, p.x as int),
        r.y == spec_smoothstep(0, SCALE as int, p.y as int),
        0 <= r.x <= SCALE,
        0 <= r.y <= SCALE,
{
    Vec2Fx { x: smoothstep(0, SCALE, p.x), y: smoothstep(0, SCALE, p.y) }
}

/// A linear interpolation of values from `[0, hi]` by a weight in `[0, 1]`
/// stays within `[0, hi]`.
pub proof fn lemma_mix_range(x: int, y: int, a: int, hi: int)
    requires
        0 <= x <= hi,
        0 <= y <= hi,
        0 <= a <= SCALE,
        hi <= 4_000_000_000_000,
    ensures
        0 <= spec_mix(x, y, a) <= hi,
{
    let s = SCALE as int;
    assert(0 <= x * (s - a) && 0 <= y * a && x * (s - a) + y * a <= hi * s) by (nonlinear_arith)
        requires
            0 <= x <= hi,
            0 <= y <= hi,
            0 <= a <= s,
    ;
    assert(0 <= x * (s - a) / s + y * a / s <= hi) by (nonlinear_arith)
        requires
            0 <= x * (s - a),
            0 <= y * a,
            x * (s - a) + y * a <= hi * s,
            s == 1_000_000,
    ;
}

/// Bilinear value noise: the four corner hashes of the lattice cell around
/// `x, y`, interpolated twice with Hermite-smoothed weights.
pub open spec fn spec_vnoise2d(x: int, y: int) -> int {
    let s = SCALE as int;
    let ix = spec_floor_units(x) * s;
    let iy = spec_floor_units(y) * s;
    let ux = spec_smoothstep(0, s, spec_fract(x));
    let uy = spec_smoothstep(0, s, spec_fract(y));
    let a = spec_random2d(ix, iy);
    let b = spec_random2d(ix + s, iy);
    let c = spec_random2d(ix, iy + s);
    let d = spec_random2d(ix + s, iy + s);
    spec_mix(spec_mix(a, b, ux), spec_mix(c, d, ux), uy)
}

/// Value noise in `[0, 1)`: deterministic, and exact at lattice points, where
/// it returns the lattice hash itself (`lemma_vnoise_at_lattice`).
pub fn vnoise2d(v: Vec2Fx) -> (r: i64)
    requires
        vec2_bounded(v, NOISE_LIM as int),
    ensures
        r == spec_vnoise2d(v.x as int, v.y as int),
        0 <= r < SCALE,
{
    let ix = floor_units(v.x);
    let iy = floor_units(v.y);
    let i = Vec2Fx { x: ix * SCALE, y: iy * SCALE };
    let f = fract_vec2(v);

    let a = random2di(i);
    let b = random2di(Vec2Fx { x: i.x + SCALE, y: i.y });
    let c = random2di(Vec2Fx { x: i.x, y: i.y + SCALE });
    let d = random2di(Vec2Fx { x: i.x + SCALE, y: i.y + SCALE });

    let u = cubic_hermite_curve_2d(f);

    let ab = mix(a, b, u.x);
    let cd = mix(c, d, u.x);
    proof {
        lemma_mix_range(a as int, b as int, u.x as int, SCALE as int - 1);
        lemma_mix_range(c as int, d as int, u.x as int, SCALE as int - 1);
        lemma_mix_range(ab as int, cd as int, u.y as int, SCALE as int - 1);
    }
    mix(ab, cd, u.y)
}

/// On the integer lattice the bilinear interpolation collapses to its first
/// corner: the noise passes through the lattice hashes exactly.
pub proof fn lemma_vnoise_at_lattice(x: int, y: int)
    requires
        x % (SCALE as int) == 0,
        y % (SCALE as int) == 0,
    ensures
        spec_vnoise2d(x, y) == spec_random2d(x, y),
{
    let s = SCALE as int;
    vstd::arithmetic::div_mod::lemma_fundamental_div_mod(x, s);
    vstd::arithmetic::div_mod::lemma_fundamental_div_mod(y, s);
    assert(spec_floor_units(x) * s == x && spec_floor_units(y) * s == y) by (nonlinear_arith)
        requires
            x == s * (x / s) + x % s,
            y == s * (y / s) + y % s,
            x % s == 0,
            y % s == 0,
            spec_floor_units(x) == x / s,
            spec_floor_units(y) == y / s,
    ;
    crate::fixed::lemma_smoothstep_unit_edges();
    let a = spec_random2d(x, y);
    let b = spec_random2d(x + s, y);
    let c = spec_random2d(x, y + s);
    let d = spec_random2d(x + s, y + s);
    vstd::arithmetic::div_mod::lemma_div_multiples_vanish(a, s);
    vstd::arithmetic::div_mod::lemma_div_multiples_vanish(b, s);
    vstd::arithmetic::div_mod::lemma_div_multiples_vanish(c, s);
    vstd::arithmetic::div_mod::lemma_div_multiples_vanish(d, s);
    assert(a * (s - 0) == s * a && b * 0int == 0 && c * 0int == 0 && d * 0int
        == 0) by (nonlinear_arith);
    assert(0int / s == 0);
    assert(spec_mix(a, b, 0) == a && spec_mix(c, d, 0) == c && spec_mix(a, c, 0) == a);
}

/// The noise the octave sum draws from.
pub open spec fn spec_noise2(x: int, y: int) -> int {
    spec_vnoise2d(x, y)
}

/// The noise the octave sum draws from; one name for one construction, so a
/// different lattice noise could be swapped in at a single place.
pub fn noise2(v: Vec2Fx) -> (r: i64)
    requires
        vec2_bounded(v, NOISE_LIM as int),
    ensures
        r == spec_noise2(v.x as int, v.y as int),
        0 <= r < SCALE,
{
    vnoise2d(v)
}

/// First component of the rotated and magnified octave coordinate.
pub open spec fn spec_m2_x(x: int, y: int, k: int) -> int {
    spec_mul_fx(spec_mul_fx(x, M2_C as int) - spec_mul_fx(y, M2_S as int), k)
}

/// Second component of the rotated and magnified octave coordinate.
pub open spec fn spec_m2_y(x: int, y: int, k: int) -> int {
    spec_mul_fx(spec_mul_fx(x, M2_S as int) + spec_mul_fx(y, M2_C as int), k)
}

/// The rotation keeps coordinates bounded: one octave step at most triples a
/// bound (the exact factor is the gain times 1.4, plus the flooring slack).
pub proof fn lemma_m2_range(x: int, y: int, k: int, b: int)
    requires
        -b <= x <= b,
        -b <= y <= b,
        0 < k <= 2_030_000,
        1_000 <= b,
    ensures
        -3 * b <= spec_m2_x(x, y, k) <= 3 * b,
        -3 * b <= spec_m2_y(x, y, k) <= 3 * b,
{
    let s = SCALE as int;
    lemma_mul_fx_in(x, M2_C as int, b, M2_C as int);
    lemma_mul_fx_in(y, M2_S as int, b, M2_S as int);
    lemma_mul_fx_in(x, M2_S as int, b, M2_S as int);
    lemma_mul_fx_in(y, M2_C as int, b, M2_C as int);
    assert(b * 800_000 / s == b * 4 / 5 && b * 600_000 / s == b * 3 / 5) by (nonlinear_arith)
        requires
            s == 1_000_000,
            b >= 0,
    ;
    let ib = b * 4 / 5 + b * 3 / 5 + 2;
    assert(iabs(spec_mul_fx(x, M2_C as int) - spec_mul_fx(y, M2_S as int)) <= ib);
    assert(iabs(spec_mul_fx(x, M2_S as int) + spec_mul_fx(y, M2_C as int)) <= ib);
    lemma_mul_fx_in(
        spec_mul_fx(x, M2_C as int) - spec_mul_fx(y, M2_S as int),
        k,
        ib,
        2_030_000,
    );
    lemma_mul_fx_in(
        spec_mul_fx(x, M2_S as int) + spec_mul_fx(y, M2_C as int),
        k,
        ib,
        2_030_000,
    );
    assert(ib * 2_030_000 / s + 1 <= 3 * b) by (nonlinear_arith)
        requires
            ib == b * 4 / 5 + b * 3 / 5 + 2,
            s == 1_000_000,
            1_000 <= b,
    ;
}

/// One octave step: rotate by the fixed 2x2 matrix with rows (0.8, -0.6) and
/// (0.6, 0.8), then magnify by the gain `k`.
fn m2_scale(v: Vec2Fx, k: i64) -> (r: Vec2Fx)
    requires
        vec2_bounded(v, 40_000_000_000_000),
        0 < k <= 2_030_000,
    ensures
        r.x == spec_m2_x(v.x as int, v.y as int, k as int),
        r.y == spec_m2_y(v.x as int, v.y as int, k as int),
{
    proof {
        lemma_mul_fx_in(v.x as int, M2_C as int, 40_000_000_000_000, M2_C as int);
        lemma_mul_fx_in(v.y as int, M2_S as int, 40_000_000_000_000, M2_S as int);
        lemma_mul_fx_in(v.x as int, M2_S as int, 40_000_000_000_000, M2_S as int);
        lemma_mul_fx_in(v.y as int, M2_C as int, 40_000_000_000_000, M2_C as int);
    }
    let rx0 = mul_fx(v.x, M2_C) - mul_fx(v.y, M2_S);
    let ry0 = mul_fx(v.x, M2_S) + mul_fx(v.y, M2_C);
    proof {
        lemma_mul_fx_in(rx0 as int, k as int, 56_000_000_000_002, 2_030_000);
        lemma_mul_fx_in(ry0 as int, k as int, 56_000_000_000_002, 2_030_000);
    }
    Vec2Fx { x: mul_fx(rx0, k), y: mul_fx(ry0, k) }
}

/// The four-octave fractal sum with weights 1/2, 1/4, 1/8, 1/16, normalized by
/// the weight total 15/16; the gains between octaves are 2.02, 2.03 and 2.01.
pub open spec fn spec_fbm(x: int, y: int) -> int {
    let x1 = spec_m2_x(x, y, 2_020_000);
    let y1 = spec_m2_y(x, y, 2_020_000);
    let x2 = spec_m2_x(x1, y1, 2_030_000);
    let y2 = spec_m2_y(x1, y1, 2_030_000);
    let x3 = spec_m2_x(x2, y2, 2_010_000);
    let y3 = spec_m2_y(x2, y2, 2_010_000);
    (8 * spec_noise2(x, y) + 4 * spec_noise2(x1, y1) + 2 * spec_noise2(x2, y2) + spec_noise2(
        x3,
        y3,
    )) / 15
}

/// The cheap two-octave variant, normalized by the same weight total.
pub open spec fn spec_fbm_half(x: int, y: int) -> int {
    let x1 = spec_m2_x(x, y, 2_020_000);
    let y1 = spec_m2_y(x, y, 2_020_000);
    (8 * spec_noise2(x, y) + 4 * spec_noise2(x1, y1)) / 15
}

/// Fractal Brownian motion: four noise octaves summed with halving weights and
/// normalized so the result always stays within `[0, 1)`.
pub fn fbm(p: Vec2Fx) -> (r: i64)
    requires
        vec2_bounded(p, FBM_LIM as int),
    ensures
        r == spec_fbm(p.x as int, p.y as int),
        0 <= r < SCALE,
{
    let n0 = noise2(p);
    let p1 = m2_scale(p, 2_020_000);
    proof {
        lemma_m2_range(p.x as int, p.y as int, 2_020_000, FBM_LIM as int);
    }
    let n1 = noise2(p1);
    let p2 = m2_scale(p1, 2_030_000);
    proof {
        lemma_m2_range(p1.x as int, p1.y as int, 2_030_000, 3 * FBM_LIM as int);
    }
    let n2 = noise2(p2);
    let p3 = m2_scale(p2, 2_010_000);
    proof {
        lemma_m2_range(p2.x as int, p2.y as int, 2_010_000, 9 * FBM_LIM as int);
    }
    let n3 = noise2(p3);
    (8 * n0 + 4 * n1 + 2 * n2 + n3) / 15
}

/// The two-octave fractal sum for the low quality tiers; also within `[0, 1)`.
pub fn fbm_half(p: Vec2Fx) -> (r: i64)
    requires
        vec2_bounded(p, FBM_LIM as int),
    ensures
        r == spec_fbm_half(p.x as int, p.y as int),
        0 <= r < SCALE,
{
    let n0 = noise2(p);
    let p1 = m2_scale(p, 2_020_000);
    proof {
        lemma_m2_range(p.x as int, p.y as int, 2_020_000, FBM_LIM as int);
    }
    let n1 = noise2(p1);
    (8 * n0 + 4 * n1) / 15
}

} // verus!
