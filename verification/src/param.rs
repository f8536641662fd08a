//! The physics-facing query facade: wave height, surface point and surface
//! normal at a world position, computed from the current settings, simulation
//! time and global direction-blend state.

use vstd::prelude::*;

use crate::blend::GlobalWaveState;
use crate::fixed::{lemma_mul_fx_in, mul_fx, spec_mul_fx, SCALE};
use crate::geom::{
    normal_from_slopes, spec_normal3_x, spec_normal3_y, spec_normal3_z, Vec2Fx, Vec3Fx,
};
use crate::water::WaterSettings;
use crate::wave::{
    get_wave_height_2d, sample_directional_wave_blended, spec_get_wave_height_2d,
    spec_sample_blended, POS_LIM, TIME_LIM,
};

verus! {

/// Everything a height query reads: the settings, the simulation time (in
/// micro-seconds) and the global blend state, gathered once per tick.
#[derive(Clone, Copy, PartialEq, Eq, Structural, Debug)]
pub struct WaterParam {
    /// The current water settings.
    pub settings: WaterSettings,
    /// Simulation time, micro-seconds.
    pub time: i64,
    /// The global direction transition state.
    pub wave_state: GlobalWaveState,
}

impl WaterParam {
    /// A queryable parameter set: valid settings, a valid blend state and a
    /// time within the band the wave arithmetic is proven for.
    pub open spec fn wf(self) -> bool {
        &&& self.settings.wf()
        &&& self.wave_state.wf()
        &&& 0 <= self.time <= TIME_LIM as int
    }

    /// The height the queries return: on the crossfading tiers the blended
    /// sample of both directions, on the cheaper tiers the sample of the
    /// outgoing direction alone; then amplified and offset by the base
    /// height.
    pub open spec fn spec_wave_height(self, px: int, pz: int) -> int {
        let q = self.settings.water_quality.spec_level();
        let w = if q >= 3 {
            spec_sample_blended(
                self.time as int,
                px,
                pz,
                self.wave_state.dir_a.x as int,
                self.wave_state.dir_a.y as int,
                self.wave_state.dir_b.x as int,
                self.wave_state.dir_b.y as int,
                self.wave_state.blend as int,
                q,
            )
        } else {
            spec_get_wave_height_2d(
                self.time as int,
                px,
                pz,
                self.wave_state.dir_a.x as int,
                self.wave_state.dir_a.y as int,
                q,
            )
        };
        self.settings.height + spec_mul_fx(self.settings.amplitude as int, w)
    }

    /// Wave height at the global position: base height plus the amplified
    /// wave sample at the horizontal coordinates.
    pub fn wave_height(&self, position: Vec3Fx) -> (r: i64)
        requires
            self.wf(),
            -(POS_LIM as int) <= position.x <= POS_LIM as int,
            -(POS_LIM as int) <= position.z <= POS_LIM as int,
        ensures
            r == self.spec_wave_height(position.x as int, position.z as int),
            -2_100_000_000 <= r <= 2_100_000_000,
    {
        let p = Vec2Fx { x: position.x, y: position.z };
        let quality = self.settings.water_quality.into();
        let w = if self.settings.water_quality.uses_crossfade() {
            sample_directional_wave_blended(
                self.time,
                p,
                self.wave_state.dir_a,
                self.wave_state.dir_b,
                self.wave_state.blend,
                quality,
            )
        } else {
            get_wave_height_2d(self.time, p, self.wave_state.dir_a, quality)
        };
        proof {
            lemma_mul_fx_in(
                self.settings.amplitude as int,
                w as int,
                crate::wave::AMP_LIM as int,
                1_000_006,
            );
        }
        self.settings.height + mul_fx(self.settings.amplitude, w)
    }

    /// The surface point above or below the given position: only the height
    /// is replaced, and it is exactly what `wave_height` returns there.
    pub fn wave_point(&self, position: Vec3Fx) -> (r: Vec3Fx)
        requires
            self.wf(),
            -(POS_LIM as int) <= position.x <= POS_LIM as int,
            -(POS_LIM as int) <= position.z <= POS_LIM as int,
        ensures
            r.x == position.x,
            r.z == position.z,
            r.y == self.spec_wave_height(position.x as int, position.z as int),
    {
        let y = self.wave_height(position);
        Vec3Fx { x: position.x, y, z: position.z }
    }

    /// The surface normal at a position, by first-order forward differences
    /// with a one-unit step along each horizontal axis: the normalized
    /// `(h - h(+x), 1, h - h(+z))`.  It always points upward.
    pub fn wave_normal(&self, position: Vec3Fx) -> (r: Vec3Fx)
        requires
            self.wf(),
            -(POS_LIM as int) + SCALE <= position.x <= POS_LIM as int - SCALE,
            -(POS_LIM as int) + SCALE <= position.z <= POS_LIM as int - SCALE,
        ensures
            ({
                let h = self.spec_wave_height(position.x as int, position.z as int);
                let hdx = self.spec_wave_height(
                    position.x as int + SCALE,
                    position.z as int,
                );
                let hdz = self.spec_wave_height(
                    position.x as int,
                    position.z as int + SCALE,
                );
                r.x == spec_normal3_x(h - hdx, h - hdz) && r.y == spec_normal3_y(
                    h - hdx,
                    h - hdz,
                ) && r.z == spec_normal3_z(h - hdx, h - hdz)
            }),
            1 <= r.y <= SCALE,
            -(SCALE as int) <= r.x <= SCALE as int,
            -(SCALE as int) <= r.z <= SCALE as int,
            (SCALE as int) * (SCALE as int) - crate::geom::UNIT_TOL <= r.x * r.x + r.y * r.y + r.z
                * r.z <= (SCALE as int) * (SCALE as int) + crate::geom::UNIT_TOL,
    {
        let h = self.wave_height(position);
        let h_dx = self.wave_height(
            Vec3Fx { x: position.x + SCALE, y: position.y, z: position.z },
        );
        let h_dz = self.wave_height(
            Vec3Fx { x: position.x, y: position.y, z: position.z + SCALE },
        );
        normal_from_slopes(h - h_dx, h - h_dz)
    }
}

} // verus!
