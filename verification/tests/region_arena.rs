//! The region arena: stable keys, idempotent spawning, and whole-surface
//! ticks that leave regions staggered by their offsets.

use wavefield::fixed::SCALE;
use wavefield::geom::Vec2Fx;
use wavefield::regions::WaveRegions;

fn v(x: i64, y: i64) -> Vec2Fx {
    Vec2Fx { x, y }
}

#[test]
fn spawning_is_idempotent() {
    let mut arena = WaveRegions::new();
    assert_eq!(arena.len(), 0);
    arena.ensure_region(0, 0, v(1_000_000, 0), 1_000_000);
    arena.ensure_region(1, 2, v(1_000_000, 0), 1_000_000);
    assert_eq!(arena.len(), 2);

    // Spawning an existing region changes nothing, even mid-transition.
    arena.set_target_all(v(0, 1_000_000));
    arena.ensure_region(0, 0, v(-1_000_000, 0), 9_000_000);
    assert_eq!(arena.len(), 2);
    let e = arena.entry_at(0);
    assert_eq!(e.state.dir_b, v(0, SCALE));
    assert_eq!(e.state.blend, 0);
}

#[test]
fn find_locates_regions_by_grid_coordinates() {
    let mut arena = WaveRegions::new();
    arena.ensure_region(3, -4, v(1_000_000, 0), 1_000_000);
    arena.ensure_region(-7, 11, v(1_000_000, 0), 1_000_000);
    assert_eq!(arena.find(3, -4), Some(0));
    assert_eq!(arena.find(-7, 11), Some(1));
    assert_eq!(arena.find(0, 0), None);
}

#[test]
fn new_regions_carry_their_hashed_stagger() {
    let mut arena = WaveRegions::new();
    arena.ensure_region(0, 0, v(1_000_000, 0), 1_000_000);
    arena.ensure_region(1, 2, v(1_000_000, 0), 1_000_000);
    assert_eq!(arena.entry_at(0).state.region_offset, 0);
    assert_eq!(arena.entry_at(1).state.region_offset, 55_044);
}

#[test]
fn a_tick_advances_every_region_at_its_own_stagger() {
    let mut arena = WaveRegions::new();
    arena.ensure_region(0, 0, v(1_000_000, 0), 1_000_000);
    arena.ensure_region(1, 2, v(1_000_000, 0), 1_000_000);

    arena.set_target_all(v(0, 1_000_000));
    arena.advance_all(500_000);

    let a = arena.entry_at(0).state;
    let b = arena.entry_at(1).state;
    assert_eq!(a.blend, 500_000);
    assert_eq!(b.blend, 500_000);
    // The raw blends agree, the shader-facing blends are staggered.
    assert_eq!(a.effective_blend(), 500_000);
    assert_eq!(b.effective_blend(), 444_956);

    // A repeated request for the in-flight target resets nothing.
    arena.set_target_all(v(0, 1_000_000));
    assert_eq!(arena.entry_at(0).state.blend, 500_000);

    // Advancing past the duration settles every region exactly.
    arena.advance_all(3_000_000);
    assert_eq!(arena.entry_at(0).state.blend, SCALE);
    assert_eq!(arena.entry_at(1).state.blend, SCALE);
}
