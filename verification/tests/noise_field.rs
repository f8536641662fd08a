//! The lattice hash, the value noise and the fractal sum.

use wavefield::fixed::SCALE;
use wavefield::geom::Vec2Fx;
use wavefield::noise::{fbm, fbm_half, noise2, random2d, random2di, vnoise2d};

fn v(x: i64, y: i64) -> Vec2Fx {
    Vec2Fx { x, y }
}

#[test]
fn hash_values_differ_and_stay_in_the_unit_range() {
    // The origin and the diagonal neighbour hash to different values, and
    // both land in [0, 1).
    let h00 = random2d(v(0, 0));
    let h11 = random2d(v(SCALE, SCALE));
    assert_ne!(h00, h11);
    assert!(0 <= h00 && h00 < SCALE);
    assert!(0 <= h11 && h11 < SCALE);
    assert_eq!(h00, 0);
    assert_eq!(h11, 584_672);
}

#[test]
fn hash_is_deterministic() {
    let a = random2d(v(-3 * SCALE, 2 * SCALE));
    let b = random2d(v(-3 * SCALE, 2 * SCALE));
    assert_eq!(a, b);
    assert_eq!(a, 463_037);
}

#[test]
fn lattice_hash_floors_its_input() {
    assert_eq!(
        random2di(v(7 * SCALE + 123, 3 * SCALE + 456_789)),
        random2d(v(7 * SCALE, 3 * SCALE))
    );
}

#[test]
fn value_noise_agrees_with_the_hash_on_the_lattice() {
    assert_eq!(vnoise2d(v(0, 0)), random2d(v(0, 0)));
    assert_eq!(vnoise2d(v(7 * SCALE, 3 * SCALE)), random2d(v(7 * SCALE, 3 * SCALE)));
    assert_eq!(vnoise2d(v(7 * SCALE, 3 * SCALE)), 622_378);
}

#[test]
fn value_noise_between_lattice_points() {
    assert_eq!(vnoise2d(v(2_500_000, -1_250_000)), 208_331);
    assert_eq!(noise2(v(2_500_000, -1_250_000)), 208_331);
}

#[test]
fn value_noise_stays_in_the_unit_range() {
    for k in -10i64..10 {
        let n = vnoise2d(v(k * 437_113, -k * 911_317));
        assert!(0 <= n && n < SCALE);
    }
}

#[test]
fn fbm_exact_values() {
    assert_eq!(fbm(v(0, 0)), 0);
    assert_eq!(fbm(v(1_500_000, -2_250_000)), 485_898);
    assert_eq!(fbm_half(v(1_500_000, -2_250_000)), 410_871);
}

#[test]
fn fbm_output_is_bounded() {
    // The octave weights are normalized by their own sum, so the fractal sum
    // can never leave [0, 1).
    for k in 0i64..8 {
        let n = fbm(v(k * 737_000 - 2_000_000, -k * 311_000 + 1_500_000));
        assert!(0 <= n && n < SCALE);
        let h = fbm_half(v(k * 737_000 - 2_000_000, -k * 311_000 + 1_500_000));
        assert!(0 <= h && h < SCALE);
    }
    let expected = [
        474_448, 612_537, 627_764, 277_311, 636_298, 813_903, 562_753, 437_089,
    ];
    for (k, e) in (0i64..8).zip(expected.iter()) {
        assert_eq!(fbm(v(k * 737_000 - 2_000_000, -k * 311_000 + 1_500_000)), *e);
    }
}
