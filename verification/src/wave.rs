//! The wave field evaluator.
//!
//! A single-direction wave sample is an anisotropic ridge profile (a cosine
//! phase feeding a smoothstepped sine) plus fractal noise detail, evaluated in
//! a frame rotated so the ridges run across the travel direction.  One to four
//! such layers at staggered scales and opposed scroll directions are summed
//! according to the quality tier, and two directional fields are crossfaded by
//! a smoothed blend factor when the wave direction is in transition.
//!
//! Everything here is a pure function of its arguments: the contracts pin each
//! result to a spec-level value, so two queries with the same inputs always
//! agree, on any platform.

use vstd::prelude::*;

use crate::fixed::{
    abs_fx, cos_fx, iabs, lemma_mul_fx_in, mix, mul_fx, sin_fx, smoothstep, spec_cos, spec_mix,
    spec_mul_fx, spec_sin, spec_smoothstep, SCALE,
};
use crate::geom::{vec2_bounded, Vec2Fx, Vec3Fx};
use crate::noise::{fbm, fbm_half, spec_fbm, spec_fbm_half};

verus! {

/// Cosmetic phase offset, 23.0, so the surface is not visually flat at time
/// zero.
pub const TIME_OFFSET: i64 = 23_000_000;

/// Reciprocal of the ridge wavelength along x: 1/2.
pub const INV_WAVELEN_X: i64 = 500_000;

/// Reciprocal of the ridge wavelength along y: 1/5.
pub const INV_WAVELEN_Y: i64 = 200_000;

/// Largest position magnitude accepted by the wave queries.
pub const POS_LIM: i64 = 1_000_000_000_000;

/// Largest simulation time accepted by the wave queries.
pub const TIME_LIM: i64 = 4_000_000_000_000;

/// Largest wave amplitude accepted by the height queries.
pub const AMP_LIM: i64 = 1_000_000_000;

/// Largest base height magnitude accepted by the height queries.
pub const HEIGHT_LIM: i64 = 1_000_000_000;

/// Upper edge of the blend smoothing window, 0.85: the crossfade settles
/// before the raw blend factor reaches 1.
pub const BLEND_EDGE: i64 = 850_000;

/// A quality tier at or below this uses the cheap two-octave noise.
pub const CHEAP_NOISE_QUALITY: u32 = 2;

/// One single-direction wave sample: the ridge profile
/// `smoothstep(1, 0, |sin(x/2 + cos(y/5 + 2t) + t)|)` plus the fractal detail
/// `fbm/2 - 1`, with the internal phase `t = simTime/2 + 23`.  Kept opaque:
/// the layer sums above it only need it as a pure function of its arguments.
#[verifier::opaque]
pub open spec fn spec_wave(x: int, y: int, sim_time: int, quality: int) -> int {
    let s = SCALE as int;
    let time = sim_time / 2 + TIME_OFFSET as int;
    let time_y = 2 * time;
    let wy = spec_cos(spec_mul_fx(y, INV_WAVELEN_Y as int) + time_y);
    let wx = spec_smoothstep(
        s,
        0,
        iabs(spec_sin(spec_mul_fx(x, INV_WAVELEN_X as int) + wy + time)),
    );
    let noise = if quality <= CHEAP_NOISE_QUALITY as int {
        spec_fbm_half(x, y)
    } else {
        spec_fbm(x, y)
    };
    wx + noise / 2 - s
}

/// A single-direction wave sample at a position, built from the ridge profile
/// and the fractal detail of the tier.  Always within `[-1, 1/2]`.
pub fn wave(p: Vec2Fx, sim_time: i64, quality: u32) -> (r: i64)
    requires
        vec2_bounded(p, 4_000_000_000_000),
        0 <= sim_time <= TIME_LIM,
    ensures
        r == spec_wave(p.x as int, p.y as int, sim_time as int, quality as int),
        -SCALE <= r <= SCALE / 2,
{
    let time = sim_time / 2 + TIME_OFFSET;
    let time_y = 2 * time;
    proof {
        reveal(spec_wave);
        lemma_mul_fx_in(p.y as int, INV_WAVELEN_Y as int, 4_000_000_000_000, 200_000);
        lemma_mul_fx_in(p.x as int, INV_WAVELEN_X as int, 4_000_000_000_000, 500_000);
    }
    let wy = cos_fx(mul_fx(p.y, INV_WAVELEN_Y) + time_y);
    let wx = smoothstep(SCALE, 0, abs_fx(sin_fx(mul_fx(p.x, INV_WAVELEN_X) + wy + time)));
    let noise = if quality <= CHEAP_NOISE_QUALITY {
        fbm_half(p)
    } else {
        fbm(p)
    };
    wx + noise / 2 - SCALE
}

/// First component of the position rotated into the travel frame of `d`; the
/// negation makes the crests scroll along `d` rather than against it.
pub open spec fn spec_rot_x(px: int, py: int, dx: int, dy: int) -> int {
    -(spec_mul_fx(px, dx) + spec_mul_fx(py, dy))
}

/// Second component of the position rotated into the travel frame of `d`.
pub open spec fn spec_rot_y(px: int, py: int, dx: int, dy: int) -> int {
    spec_mul_fx(py, dx) - spec_mul_fx(px, dy)
}

/// One layer of the directional sum: the wave sampled at the rotated position
/// scrolled by the phase `time` and magnified, times the layer weight.
/// Layers 1 and 4 scroll against the phase, layers 2 and 3 with it.
pub open spec fn spec_layer(rx: int, ry: int, time: int, sim_time: int, quality: int, i: int) -> int {
    if i == 1 {
        spec_mul_fx(
            spec_wave(
                spec_mul_fx(rx - time, 300_000),
                spec_mul_fx(ry - time, 300_000),
                sim_time,
                quality,
            ),
            300_000,
        )
    } else if i == 2 {
        spec_mul_fx(
            spec_wave(
                spec_mul_fx(rx + time, 400_000),
                spec_mul_fx(ry + time, 400_000),
                sim_time,
                quality,
            ),
            300_000,
        )
    } else if i == 3 {
        spec_mul_fx(
            spec_wave(
                spec_mul_fx(rx + time, 500_000),
                spec_mul_fx(ry + time, 500_000),
                sim_time,
                quality,
            ),
            200_000,
        )
    } else if i == 4 {
        spec_mul_fx(
            spec_wave(
                spec_mul_fx(rx - time, 600_000),
                spec_mul_fx(ry - time, 600_000),
                sim_time,
                quality,
            ),
            200_000,
        )
    } else {
        0
    }
}

/// The directional sample: the layers the quality tier enables, summed.
/// A tier above 4 enables the same four layers as tier 4.
pub open spec fn spec_sample_directional(
    px: int,
    py: int,
    time: int,
    sim_time: int,
    dx: int,
    dy: int,
    quality: int,
) -> int {
    let rx = spec_rot_x(px, py, dx, dy);
    let ry = spec_rot_y(px, py, dx, dy);
    spec_layer(rx, ry, time, sim_time, quality, 1) + (if quality >= 2 {
        spec_layer(rx, ry, time, sim_time, quality, 2)
    } else {
        0
    }) + (if quality >= 3 {
        spec_layer(rx, ry, time, sim_time, quality, 3)
    } else {
        0
    }) + (if quality >= 4 {
        spec_layer(rx, ry, time, sim_time, quality, 4)
    } else {
        0
    })
}

/// Sums 1 to 4 layers of the single-direction wave in the frame of the unit
/// (or zero) direction `d`.  The result is a function of the arguments alone:
/// repeated calls with the same inputs return the same value.
pub fn sample_directional_wave(
    p: Vec2Fx,
    time: i64,
    sim_time: i64,
    d: Vec2Fx,
    quality: u32,
) -> (r: i64)
    requires
        vec2_bounded(p, POS_LIM as int),
        vec2_bounded(d, SCALE as int),
        0 <= time <= TIME_LIM,
        0 <= sim_time <= TIME_LIM,
        quality >= 1,
    ensures
        r == spec_sample_directional(
            p.x as int,
            p.y as int,
            time as int,
            sim_time as int,
            d.x as int,
            d.y as int,
            quality as int,
        ),
        -1_000_004 <= r <= 1_000_000,
{
    proof {
        lemma_mul_fx_in(p.x as int, d.x as int, POS_LIM as int, SCALE as int);
        lemma_mul_fx_in(p.y as int, d.y as int, POS_LIM as int, SCALE as int);
        lemma_mul_fx_in(p.y as int, d.x as int, POS_LIM as int, SCALE as int);
        lemma_mul_fx_in(p.x as int, d.y as int, POS_LIM as int, SCALE as int);
    }
    let rx = -(mul_fx(p.x, d.x) + mul_fx(p.y, d.y));
    let ry = mul_fx(p.y, d.x) - mul_fx(p.x, d.y);

    proof {
        lemma_mul_fx_in(rx - time as int, 300_000, 6_100_000_000_000, 300_000);
        lemma_mul_fx_in(ry - time as int, 300_000, 6_100_000_000_000, 300_000);
    }
    let l1 = wave(
        Vec2Fx { x: mul_fx(rx - time, 300_000), y: mul_fx(ry - time, 300_000) },
        sim_time,
        quality,
    );
    proof {
        lemma_mul_fx_in(l1 as int, 300_000, SCALE as int, 300_000);
    }
    let mut r = mul_fx(l1, 300_000);

    if quality >= 2 {
        proof {
            lemma_mul_fx_in(rx + time as int, 400_000, 6_100_000_000_000, 400_000);
            lemma_mul_fx_in(ry + time as int, 400_000, 6_100_000_000_000, 400_000);
        }
        let l2 = wave(
            Vec2Fx { x: mul_fx(rx + time, 400_000), y: mul_fx(ry + time, 400_000) },
            sim_time,
            quality,
        );
        proof {
            lemma_mul_fx_in(l2 as int, 300_000, SCALE as int, 300_000);
        }
        r = r + mul_fx(l2, 300_000);
    }
    if quality >= 3 {
        proof {
            lemma_mul_fx_in(rx + time as int, 500_000, 6_100_000_000_000, 500_000);
            lemma_mul_fx_in(ry + time as int, 500_000, 6_100_000_000_000, 500_000);
        }
        let l3 = wave(
            Vec2Fx { x: mul_fx(rx + time, 500_000), y: mul_fx(ry + time, 500_000) },
            sim_time,
            quality,
        );
        proof {
            lemma_mul_fx_in(l3 as int, 200_000, SCALE as int, 200_000);
        }
        r = r + mul_fx(l3, 200_000);
    }
    if quality >= 4 {
        proof {
            lemma_mul_fx_in(rx - time as int, 600_000, 6_100_000_000_000, 600_000);
            lemma_mul_fx_in(ry - time as int, 600_000, 6_100_000_000_000, 600_000);
        }
        let l4 = wave(
            Vec2Fx { x: mul_fx(rx - time, 600_000), y: mul_fx(ry - time, 600_000) },
            sim_time,
            quality,
        );
        proof {
            lemma_mul_fx_in(l4 as int, 200_000, SCALE as int, 200_000);
        }
        r = r + mul_fx(l4, 200_000);
    }
    r
}

/// The quality tier enters a single wave sample only through the choice of
/// noise variant, so tiers on the same side of the variant cut sample the
/// same wave.
pub proof fn lemma_wave_same_tier(x: int, y: int, sim_time: int, q1: int, q2: int)
    requires
        (q1 <= CHEAP_NOISE_QUALITY as int && q2 <= CHEAP_NOISE_QUALITY as int) || (q1
            > CHEAP_NOISE_QUALITY as int && q2 > CHEAP_NOISE_QUALITY as int),
    ensures
        spec_wave(x, y, sim_time, q1) == spec_wave(x, y, sim_time, q2),
{
    reveal(spec_wave);
}

/// Raising the quality tier adds a layer on top of the sum of the tier below;
/// it never removes or changes the layers already present.  The one exception
/// is the step from tier 2 to tier 3, where the fractal detail inside every
/// layer switches from the two-octave to the four-octave noise.
pub proof fn lemma_quality_adds_layers(
    px: int,
    py: int,
    time: int,
    sim_time: int,
    dx: int,
    dy: int,
    quality: int,
)
    requires
        quality == 1 || quality == 3,
    ensures
        spec_sample_directional(px, py, time, sim_time, dx, dy, quality + 1)
            == spec_sample_directional(px, py, time, sim_time, dx, dy, quality) + spec_layer(
            spec_rot_x(px, py, dx, dy),
            spec_rot_y(px, py, dx, dy),
            time,
            sim_time,
            quality + 1,
            quality + 1,
        ),
{
    let rx = spec_rot_x(px, py, dx, dy);
    let ry = spec_rot_y(px, py, dx, dy);
    if quality == 1 {
        lemma_wave_same_tier(
            spec_mul_fx(rx - time, 300_000),
            spec_mul_fx(ry - time, 300_000),
            sim_time,
            1,
            2,
        );
    } else {
        lemma_wave_same_tier(
            spec_mul_fx(rx - time, 300_000),
            spec_mul_fx(ry - time, 300_000),
            sim_time,
            3,
            4,
        );
        lemma_wave_same_tier(
            spec_mul_fx(rx + time, 400_000),
            spec_mul_fx(ry + time, 400_000),
            sim_time,
            3,
            4,
        );
        lemma_wave_same_tier(
            spec_mul_fx(rx + time, 500_000),
            spec_mul_fx(ry + time, 500_000),
            sim_time,
            3,
            4,
        );
    }
}

/// Quality saturates at four layers: any tier beyond 4 (a caller's "maximum
/// fidelity" sentinel) samples exactly as tier 4 does.
pub proof fn lemma_quality_saturates(
    px: int,
    py: int,
    time: int,
    sim_time: int,
    dx: int,
    dy: int,
    quality: int,
)
    requires
        quality >= 4,
    ensures
        spec_sample_directional(px, py, time, sim_time, dx, dy, quality)
            == spec_sample_directional(px, py, time, sim_time, dx, dy, 4),
{
    let rx = spec_rot_x(px, py, dx, dy);
    let ry = spec_rot_y(px, py, dx, dy);
    lemma_wave_same_tier(
        spec_mul_fx(rx - time, 300_000),
        spec_mul_fx(ry - time, 300_000),
        sim_time,
        quality,
        4,
    );
    lemma_wave_same_tier(
        spec_mul_fx(rx + time, 400_000),
        spec_mul_fx(ry + time, 400_000),
        sim_time,
        quality,
        4,
    );
    lemma_wave_same_tier(
        spec_mul_fx(rx + time, 500_000),
        spec_mul_fx(ry + time, 500_000),
        sim_time,
        quality,
        4,
    );
    lemma_wave_same_tier(
        spec_mul_fx(rx - time, 600_000),
        spec_mul_fx(ry - time, 600_000),
        sim_time,
        quality,
        4,
    );
}

/// The blended sample: single-direction at either end of the transition, the
/// linear mix of the two directional fields under the smoothed blend factor
/// in between.
pub open spec fn spec_sample_blended(
    sim_time: int,
    px: int,
    py: int,
    ax: int,
    ay: int,
    bx: int,
    by: int,
    blend: int,
    quality: int,
) -> int {
    let s = SCALE as int;
    let time = sim_time / 2;
    if blend <= 0 {
        spec_sample_directional(px, py, time, sim_time, ax, ay, quality)
    } else if blend >= s {
        spec_sample_directional(px, py, time, sim_time, bx, by, quality)
    } else {
        spec_mix(
            spec_sample_directional(px, py, time, sim_time, ax, ay, quality),
            spec_sample_directional(px, py, time, sim_time, bx, by, quality),
            spec_smoothstep(0, BLEND_EDGE as int, blend),
        )
    }
}

/// Crossfades the wave fields of the outgoing direction `da` and the incoming
/// direction `db`.  At blend 0 this is exactly the `da` field and at blend 1
/// exactly the `db` field; in between, the mixing weight is
/// `smoothstep(0, 0.85, blend)`, so the transition accelerates early and
/// settles into a plateau before the raw blend reaches 1.
pub fn sample_directional_wave_blended(
    sim_time: i64,
    p: Vec2Fx,
    da: Vec2Fx,
    db: Vec2Fx,
    blend: i64,
    quality: u32,
) -> (r: i64)
    requires
        vec2_bounded(p, POS_LIM as int),
        vec2_bounded(da, SCALE as int),
        vec2_bounded(db, SCALE as int),
        0 <= sim_time <= TIME_LIM,
        quality >= 1,
    ensures
        r == spec_sample_blended(
            sim_time as int,
            p.x as int,
            p.y as int,
            da.x as int,
            da.y as int,
            db.x as int,
            db.y as int,
            blend as int,
            quality as int,
        ),
        blend <= 0 ==> r == spec_sample_directional(
            p.x as int,
            p.y as int,
            sim_time as int / 2,
            sim_time as int,
            da.x as int,
            da.y as int,
            quality as int,
        ),
        blend >= SCALE ==> r == spec_sample_directional(
            p.x as int,
            p.y as int,
            sim_time as int / 2,
            sim_time as int,
            db.x as int,
            db.y as int,
            quality as int,
        ),
        -1_000_006 <= r <= 1_000_004,
{
    let time = sim_time / 2;
    if blend <= 0 {
        sample_directional_wave(p, time, sim_time, da, quality)
    } else if blend >= SCALE {
        sample_directional_wave(p, time, sim_time, db, quality)
    } else {
        let wa = sample_directional_wave(p, time, sim_time, da, quality);
        let wb = sample_directional_wave(p, time, sim_time, db, quality);
        let w = smoothstep(0, BLEND_EDGE, blend);
        proof {
            crate::fixed::lemma_mix_range_signed(wa as int, wb as int, w as int, 1_000_004);
        }
        mix(wa, wb, w)
    }
}

/// The single-direction height field sample with the conventional phase
/// `time = simTime / 2`.
pub open spec fn spec_get_wave_height_2d(
    sim_time: int,
    px: int,
    py: int,
    dx: int,
    dy: int,
    quality: int,
) -> int {
    spec_sample_directional(px, py, sim_time / 2, sim_time, dx, dy, quality)
}

/// Convenience single-direction sample: the directional wave with the phase
/// `time = simTime / 2`.
pub fn get_wave_height_2d(sim_time: i64, p: Vec2Fx, d: Vec2Fx, quality: u32) -> (r: i64)
    requires
        vec2_bounded(p, POS_LIM as int),
        vec2_bounded(d, SCALE as int),
        0 <= sim_time <= TIME_LIM,
        quality >= 1,
    ensures
        r == spec_get_wave_height_2d(
            sim_time as int,
            p.x as int,
            p.y as int,
            d.x as int,
            d.y as int,
            quality as int,
        ),
        -1_000_004 <= r <= 1_000_000,
{
    sample_directional_wave(p, sim_time / 2, sim_time, d, quality)
}

/// The world-space height: base height plus the amplified wave sample at the
/// horizontal coordinates of `pos`.
pub open spec fn spec_get_wave_height(
    sim_time: int,
    base_height: int,
    amplitude: int,
    px: int,
    pz: int,
    dx: int,
    dy: int,
    quality: int,
) -> int {
    base_height + spec_mul_fx(
        amplitude,
        spec_get_wave_height_2d(sim_time, px, pz, dx, dy, quality),
    )
}

/// Wave height at the global position `pos`, for the single travel direction
/// `d`: `base_height + amplitude * wave(pos.xz)`.
pub fn get_wave_height(
    sim_time: i64,
    base_height: i64,
    amplitude: i64,
    pos: Vec3Fx,
    d: Vec2Fx,
    quality: u32,
) -> (r: i64)
    requires
        -POS_LIM <= pos.x <= POS_LIM,
        -POS_LIM <= pos.z <= POS_LIM,
        vec2_bounded(d, SCALE as int),
        0 <= sim_time <= TIME_LIM,
        0 <= amplitude <= AMP_LIM,
        -HEIGHT_LIM <= base_height <= HEIGHT_LIM,
        quality >= 1,
    ensures
        r == spec_get_wave_height(
            sim_time as int,
            base_height as int,
            amplitude as int,
            pos.x as int,
            pos.z as int,
            d.x as int,
            d.y as int,
            quality as int,
        ),
        -2_100_000_000 <= r <= 2_100_000_000,
{
    let w = get_wave_height_2d(sim_time, Vec2Fx { x: pos.x, y: pos.z }, d, quality);
    proof {
        lemma_mul_fx_in(amplitude as int, w as int, AMP_LIM as int, 1_000_004);
    }
    base_height + mul_fx(amplitude, w)
}

/// Wave surface point above or below `pos`: only the vertical component moves;
/// the horizontal coordinates come through unchanged, and the new height is
/// exactly what `get_wave_height` returns for the same inputs.
pub fn get_wave_point(
    sim_time: i64,
    base_height: i64,
    amplitude: i64,
    pos: Vec3Fx,
    d: Vec2Fx,
    quality: u32,
) -> (r: Vec3Fx)
    requires
        -POS_LIM <= pos.x <= POS_LIM,
        -POS_LIM <= pos.z <= POS_LIM,
        vec2_bounded(d, SCALE as int),
        0 <= sim_time <= TIME_LIM,
        0 <= amplitude <= AMP_LIM,
        -HEIGHT_LIM <= base_height <= HEIGHT_LIM,
        quality >= 1,
    ensures
        r.x == pos.x,
        r.z == pos.z,
        r.y == spec_get_wave_height(
            sim_time as int,
            base_height as int,
            amplitude as int,
            pos.x as int,
            pos.z as int,
            d.x as int,
            d.y as int,
            quality as int,
        ),
{
    let y = get_wave_height(sim_time, base_height, amplitude, pos, d, quality);
    Vec3Fx { x: pos.x, y, z: pos.z }
}

} // verus!
