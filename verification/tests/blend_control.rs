//! The direction blend controller: transitions, clamping, the no-op epsilon,
//! the per-region stagger and the global mirror.

use wavefield::blend::{
    region_offset_from_coords, GlobalWaveState, WaveDirection, MIN_BLEND_DURATION,
};
use wavefield::fixed::SCALE;
use wavefield::geom::{normalize_or_zero, Vec2Fx};

fn v(x: i64, y: i64) -> Vec2Fx {
    Vec2Fx { x, y }
}

#[test]
fn normalization_values() {
    assert_eq!(normalize_or_zero(v(3_000_000, 4_000_000)), v(600_000, 800_000));
    assert_eq!(normalize_or_zero(v(1_000_000, 0)), v(SCALE, 0));
    assert_eq!(normalize_or_zero(v(-5_000_000, 12_000_000)), v(-384_616, 923_076));
    // The zero vector, and anything within the dead band, collapses to zero.
    assert_eq!(normalize_or_zero(v(0, 0)), v(0, 0));
    assert_eq!(normalize_or_zero(v(400_000, 0)), v(0, 0));
}

#[test]
fn normalization_is_unit_up_to_tolerance() {
    let unit_sq = SCALE as i128 * SCALE as i128;
    let tol = wavefield::geom::UNIT_TOL as i128;
    for (x, y) in [
        (3_000_000i64, 4_000_000i64),
        (1_000_000, 0),
        (-5_000_000, 12_000_000),
        (123_456_789, -987_654_321),
        (5_000, 1_000_000),
    ] {
        let n = normalize_or_zero(v(x, y));
        let sq = n.x as i128 * n.x as i128 + n.y as i128 * n.y as i128;
        assert!(unit_sq - tol <= sq && sq <= unit_sq + tol);
    }
}

#[test]
fn a_new_region_is_settled() {
    let wd = WaveDirection::new(v(2_000_000, 0), 1_000_000, 0, 0);
    assert_eq!(wd.blend, SCALE);
    assert_eq!(wd.dir_a, v(SCALE, 0));
    assert_eq!(wd.dir_b, v(SCALE, 0));
    assert_eq!(wd.blend_duration, 1_000_000);
    assert_eq!(wd.region_offset, 0);
}

#[test]
fn repeated_target_does_not_reset_the_blend() {
    // Set a target, advance partway, set the same target again: the second
    // request must leave the blend untouched.
    let mut wd = WaveDirection::new(v(2_000_000, 0), 1_000_000, 0, 0);
    wd.set_target(v(0, 3_000_000));
    assert_eq!(wd.blend, 0);
    assert_eq!(wd.dir_a, v(SCALE, 0));
    assert_eq!(wd.dir_b, v(0, SCALE));

    wd.advance(250_000);
    assert_eq!(wd.blend, 250_000);

    wd.set_target(v(0, 3_000_000));
    assert_eq!(wd.blend, 250_000);
    assert_eq!(wd.dir_a, v(SCALE, 0));
    assert_eq!(wd.dir_b, v(0, SCALE));

    // A target within epsilon of the incoming direction is also a no-op.
    wd.set_target(v(5_000, 1_000_000));
    assert_eq!(wd.blend, 250_000);
    assert_eq!(wd.dir_b, v(0, SCALE));
}

#[test]
fn advancing_by_the_full_duration_lands_exactly_on_one() {
    let mut wd = WaveDirection::new(v(1_000_000, 0), 1_000_000, 0, 0);
    wd.set_target(v(0, 1_000_000));
    wd.advance(1_000_000);
    assert_eq!(wd.blend, SCALE);

    // Overshooting clamps too.
    let mut wd2 = WaveDirection::new(v(1_000_000, 0), 2_000_000, 0, 0);
    wd2.set_target(v(0, 1_000_000));
    wd2.advance(250_000);
    assert_eq!(wd2.blend, 125_000);
    wd2.advance(30_000_000);
    assert_eq!(wd2.blend, SCALE);
}

#[test]
fn a_settled_region_stays_settled() {
    let mut wd = WaveDirection::new(v(1_000_000, 0), 1_000_000, 0, 0);
    wd.advance(123_456);
    assert_eq!(wd.blend, SCALE);
}

#[test]
fn advance_rate_is_one_over_duration() {
    let mut wd = WaveDirection::new(v(1_000_000, 0), 2_000_000, 0, 0);
    wd.set_target(v(0, 1_000_000));
    wd.advance(500_000);
    assert_eq!(wd.blend, 250_000);
    wd.advance(500_000);
    assert_eq!(wd.blend, 500_000);
}

#[test]
fn retargeting_midway_snapshots_the_blended_direction() {
    let mut wd = WaveDirection::new(v(1_000_000, 0), 1_000_000, 0, 0);
    wd.set_target(v(0, 1_000_000));
    wd.advance(250_000);
    assert_eq!(wd.current_blended_dir(), v(966_962, 254_920));

    wd.set_target(v(-1_000_000, 0));
    assert_eq!(wd.blend, 0);
    assert_eq!(wd.dir_a, v(966_962, 254_920));
    assert_eq!(wd.dir_b, v(-SCALE, 0));
}

#[test]
fn blended_direction_is_exact_at_the_ends() {
    let mut wd = WaveDirection::new(v(1_000_000, 0), 1_000_000, 0, 0);
    assert_eq!(wd.current_blended_dir(), wd.dir_b);
    wd.set_target(v(0, 1_000_000));
    assert_eq!(wd.current_blended_dir(), v(SCALE, 0));
    wd.advance(2_000_000);
    assert_eq!(wd.current_blended_dir(), v(0, SCALE));
}

#[test]
fn durations_are_clamped_to_the_defensive_band() {
    let mut wd = WaveDirection::new(v(1_000_000, 0), 0, 0, 0);
    assert_eq!(wd.blend_duration, MIN_BLEND_DURATION);
    wd.set_duration(-5);
    assert_eq!(wd.blend_duration, MIN_BLEND_DURATION);
    wd.set_duration(2_000_000);
    assert_eq!(wd.blend_duration, 2_000_000);
}

#[test]
fn changing_duration_keeps_progress() {
    let mut wd = WaveDirection::new(v(1_000_000, 0), 1_000_000, 0, 0);
    wd.set_target(v(0, 1_000_000));
    wd.advance(400_000);
    assert_eq!(wd.blend, 400_000);
    wd.set_duration(4_000_000);
    assert_eq!(wd.blend, 400_000);
    wd.advance(1_000_000);
    assert_eq!(wd.blend, 650_000);
}

#[test]
fn effective_blend_is_the_clamped_staggered_blend() {
    // With a region offset of 0.2: a blend of 0.1 is fully held back, and a
    // blend of 0.5 shows as 0.3.
    let east = v(SCALE, 0);
    let wd = WaveDirection {
        dir_a: east,
        dir_b: east,
        blend: 100_000,
        blend_duration: 1_000_000,
        region_offset: 200_000,
    };
    assert_eq!(wd.effective_blend(), 0);
    let wd2 = WaveDirection { blend: 500_000, ..wd };
    assert_eq!(wd2.effective_blend(), 300_000);
    let wd3 = WaveDirection { blend: SCALE, region_offset: 0, ..wd };
    assert_eq!(wd3.effective_blend(), SCALE);
}

#[test]
fn region_offsets_are_deterministic_and_in_band() {
    assert_eq!(region_offset_from_coords(0, 0), 0);
    assert_eq!(region_offset_from_coords(1, 2), 55_044);
    assert_eq!(region_offset_from_coords(-3, 7), 279_650);
    for rx in -4i64..4 {
        for ry in -4i64..4 {
            let o = region_offset_from_coords(rx, ry);
            assert!(0 <= o && o <= 300_000);
            assert_eq!(o, region_offset_from_coords(rx, ry));
        }
    }
}

#[test]
fn the_global_state_mirrors_the_canonical_region() {
    let mut wd = WaveDirection::new(v(1_000_000, 0), 1_000_000, 3, 4);
    wd.set_target(v(0, 1_000_000));
    wd.advance(300_000);

    let mut global = GlobalWaveState::new(v(1_000_000, 0));
    assert_eq!(global.blend, SCALE);
    global.sync_from(&wd);
    assert_eq!(global.dir_a, wd.dir_a);
    assert_eq!(global.dir_b, wd.dir_b);
    assert_eq!(global.blend, wd.blend);
}
