//! The physics-facing queries: height, surface point and surface normal.

use wavefield::blend::GlobalWaveState;
use wavefield::fixed::SCALE;
use wavefield::geom::{Vec2Fx, Vec3Fx};
use wavefield::param::WaterParam;
use wavefield::water::{WaterQuality, WaterSettings};
use wavefield::wave::{get_wave_height_2d, sample_directional_wave_blended};

fn state_east_to_north(blend: i64) -> GlobalWaveState {
    GlobalWaveState {
        dir_a: Vec2Fx { x: SCALE, y: 0 },
        dir_b: Vec2Fx { x: 0, y: SCALE },
        blend,
    }
}

fn param(quality: WaterQuality, blend: i64) -> WaterParam {
    WaterParam {
        settings: WaterSettings {
            height: 1_000_000,
            amplitude: 500_000,
            wave_direction: Vec2Fx { x: 0, y: SCALE },
            blend_duration: 5_000_000,
            water_quality: quality,
        },
        time: 10_000_000,
        wave_state: state_east_to_north(blend),
    }
}

#[test]
fn quality_levels() {
    assert_eq!(WaterQuality::Basic.into(), 1u32);
    assert_eq!(WaterQuality::Medium.into(), 2u32);
    assert_eq!(WaterQuality::High.into(), 3u32);
    assert_eq!(WaterQuality::Ultra.into(), 4u32);
    assert!(!WaterQuality::Basic.uses_crossfade());
    assert!(!WaterQuality::Medium.uses_crossfade());
    assert!(WaterQuality::High.uses_crossfade());
    assert!(WaterQuality::Ultra.uses_crossfade());
}

#[test]
fn default_settings_are_calm_ultra() {
    let s = WaterSettings::default();
    assert_eq!(s.height, SCALE);
    assert_eq!(s.amplitude, SCALE);
    assert_eq!(s.wave_direction, Vec2Fx { x: SCALE, y: 0 });
    assert_eq!(s.blend_duration, 5_000_000);
    assert_eq!(s.water_quality, WaterQuality::Ultra);
}

#[test]
fn high_tiers_crossfade_both_directions() {
    let p = param(WaterQuality::Ultra, 300_000);
    let pos = Vec3Fx { x: 3_000_000, y: 0, z: -2_000_000 };
    assert_eq!(p.wave_height(pos), 689_881);

    // The same value assembled from the public pieces.
    let w = sample_directional_wave_blended(
        10_000_000,
        Vec2Fx { x: 3_000_000, y: -2_000_000 },
        Vec2Fx { x: SCALE, y: 0 },
        Vec2Fx { x: 0, y: SCALE },
        300_000,
        4,
    );
    assert_eq!(p.wave_height(pos), 1_000_000 + wavefield::fixed::mul_fx(500_000, w));
}

#[test]
fn cheap_tiers_use_the_outgoing_direction_only() {
    let p = param(WaterQuality::Medium, 300_000);
    let pos = Vec3Fx { x: 3_000_000, y: 0, z: -2_000_000 };
    assert_eq!(p.wave_height(pos), 774_432);

    let w = get_wave_height_2d(
        10_000_000,
        Vec2Fx { x: 3_000_000, y: -2_000_000 },
        Vec2Fx { x: SCALE, y: 0 },
        2,
    );
    assert_eq!(p.wave_height(pos), 1_000_000 + wavefield::fixed::mul_fx(500_000, w));
}

#[test]
fn wave_point_round_trips_the_height() {
    // Only the vertical component is replaced, and it equals the height
    // query at the same position.
    let p = param(WaterQuality::Ultra, 300_000);
    let pos = Vec3Fx { x: 3_000_000, y: 777, z: -2_000_000 };
    let point = p.wave_point(pos);
    assert_eq!(point.y, p.wave_height(pos));
    assert_eq!(point.x, pos.x);
    assert_eq!(point.z, pos.z);
    assert_eq!(point.y, 689_881);
}

#[test]
fn wave_normal_points_up() {
    let p = param(WaterQuality::Ultra, 300_000);
    let pos = Vec3Fx { x: 3_000_000, y: 0, z: -2_000_000 };
    let n = p.wave_normal(pos);
    assert_eq!(n, Vec3Fx { x: -20_556, y: 999_606, z: 19_144 });
    assert!(n.y > 0);

    // Unit length, up to the normalization tolerance.
    let sq = n.x as i128 * n.x as i128 + n.y as i128 * n.y as i128 + n.z as i128 * n.z as i128;
    let unit_sq = SCALE as i128 * SCALE as i128;
    let tol = wavefield::geom::UNIT_TOL as i128;
    assert!(unit_sq - tol <= sq && sq <= unit_sq + tol);
}

#[test]
fn queries_are_deterministic() {
    let p = param(WaterQuality::High, 654_321);
    let pos = Vec3Fx { x: -7_250_000, y: 0, z: 11_125_000 };
    assert_eq!(p.wave_height(pos), p.wave_height(pos));
    assert_eq!(p.wave_normal(pos), p.wave_normal(pos));
}
