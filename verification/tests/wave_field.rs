//! The directional wave sampler, the quality tiers and the crossfade.

use wavefield::fixed::{mul_fx, SCALE};
use wavefield::geom::{Vec2Fx, Vec3Fx};
use wavefield::wave::{
    get_wave_height, get_wave_height_2d, get_wave_point, sample_directional_wave,
    sample_directional_wave_blended, wave, POS_LIM,
};

fn v(x: i64, y: i64) -> Vec2Fx {
    Vec2Fx { x, y }
}

const EAST: Vec2Fx = Vec2Fx { x: 1_000_000, y: 0 };
const NORTH: Vec2Fx = Vec2Fx { x: 0, y: 1_000_000 };

#[test]
fn wave_exact_values() {
    assert_eq!(wave(v(1_500_000, 2_500_000), 10_000_000, 4), -698_445);
    assert_eq!(wave(v(1_500_000, 2_500_000), 10_000_000, 1), -747_048);
}

#[test]
fn wave_is_bounded() {
    for k in -6i64..6 {
        let w = wave(v(k * 533_111, -k * 797_003), 3_700_000, 4);
        assert!(-SCALE <= w && w <= SCALE / 2);
    }
}

#[test]
fn sampler_is_deterministic() {
    // Identical inputs give the identical result, however often the call is
    // repeated.
    let first = sample_directional_wave(v(3_000_000, -2_000_000), 5_000_000, 10_000_000, EAST, 4);
    for _ in 0..3 {
        let again =
            sample_directional_wave(v(3_000_000, -2_000_000), 5_000_000, 10_000_000, EAST, 4);
        assert_eq!(again, first);
    }
    assert_eq!(first, -668_056);
}

#[test]
fn sampler_per_quality_values() {
    let p = v(3_000_000, -2_000_000);
    let expected = [-211_318, -451_135, -557_068, -668_056];
    for (q, e) in (1u32..=4).zip(expected.iter()) {
        assert_eq!(sample_directional_wave(p, 5_000_000, 10_000_000, EAST, q), *e);
    }
}

#[test]
fn raising_quality_adds_a_layer() {
    // Tier 2 is tier 1 plus the second layer, computed here from scratch out
    // of the public pieces; likewise tier 4 on top of tier 3.  (Between tiers
    // 2 and 3 the noise variant inside every layer changes as well, so only
    // these two steps are pure additions.)
    let (px, py) = (3_000_000i64, -2_000_000i64);
    let (time, sim_time) = (5_000_000i64, 10_000_000i64);
    let rx = -(mul_fx(px, EAST.x) + mul_fx(py, EAST.y));
    let ry = mul_fx(py, EAST.x) - mul_fx(px, EAST.y);

    let layer2 = mul_fx(
        wave(
            v(mul_fx(rx + time, 400_000), mul_fx(ry + time, 400_000)),
            sim_time,
            2,
        ),
        300_000,
    );
    assert_eq!(
        sample_directional_wave(v(px, py), time, sim_time, EAST, 2),
        sample_directional_wave(v(px, py), time, sim_time, EAST, 1) + layer2
    );

    let layer4 = mul_fx(
        wave(
            v(mul_fx(rx - time, 600_000), mul_fx(ry - time, 600_000)),
            sim_time,
            4,
        ),
        200_000,
    );
    assert_eq!(
        sample_directional_wave(v(px, py), time, sim_time, EAST, 4),
        sample_directional_wave(v(px, py), time, sim_time, EAST, 3) + layer4
    );
}

#[test]
fn quality_saturates_at_four_layers() {
    let p = v(3_000_000, -2_000_000);
    let four = sample_directional_wave(p, 5_000_000, 10_000_000, EAST, 4);
    for q in 5u32..9 {
        assert_eq!(sample_directional_wave(p, 5_000_000, 10_000_000, EAST, q), four);
    }
}

#[test]
fn blend_zero_is_exactly_the_outgoing_field() {
    let p = v(3_000_000, -2_000_000);
    let blended = sample_directional_wave_blended(10_000_000, p, EAST, NORTH, 0, 4);
    let direct = sample_directional_wave(p, 5_000_000, 10_000_000, EAST, 4);
    assert_eq!(blended, direct);
    assert_eq!(blended, -668_056);
}

#[test]
fn blend_one_is_exactly_the_incoming_field() {
    let p = v(3_000_000, -2_000_000);
    let blended = sample_directional_wave_blended(10_000_000, p, EAST, NORTH, SCALE, 4);
    let direct = sample_directional_wave(p, 5_000_000, 10_000_000, NORTH, 4);
    assert_eq!(blended, direct);
    assert_eq!(blended, -500_718);
}

#[test]
fn blend_midway_mixes_the_two_fields() {
    let p = v(3_000_000, -2_000_000);
    assert_eq!(
        sample_directional_wave_blended(10_000_000, p, EAST, NORTH, 300_000, 4),
        -620_237
    );
}

#[test]
fn zero_direction_degrades_gracefully() {
    // A zero wave direction still yields a finite, deterministic sample.
    let a = get_wave_height_2d(10_000_000, v(3_000_000, -2_000_000), v(0, 0), 4);
    let b = get_wave_height_2d(10_000_000, v(3_000_000, -2_000_000), v(0, 0), 4);
    assert_eq!(a, b);
    assert_eq!(a, -555_454);
}

#[test]
fn sampling_at_the_position_limits() {
    assert_eq!(
        get_wave_height_2d(10_000_000, v(POS_LIM, -POS_LIM), EAST, 4),
        -245_304
    );
    assert_eq!(
        get_wave_height_2d(
            4_000_000_000_000,
            v(-POS_LIM, POS_LIM),
            v(707_106, 707_106),
            4
        ),
        -405_075
    );
}

#[test]
fn height_is_base_plus_amplified_sample() {
    let pos = Vec3Fx { x: 3_000_000, y: 0, z: -2_000_000 };
    let h = get_wave_height(10_000_000, SCALE, SCALE, pos, EAST, 4);
    assert_eq!(h, SCALE + (-668_056));
}

#[test]
fn wave_point_moves_only_the_height() {
    let pos = Vec3Fx { x: 3_000_000, y: 424_242, z: -2_000_000 };
    let p = get_wave_point(10_000_000, SCALE, SCALE, pos, EAST, 4);
    assert_eq!(p.x, pos.x);
    assert_eq!(p.z, pos.z);
    assert_eq!(p.y, get_wave_height(10_000_000, SCALE, SCALE, pos, EAST, 4));
}
