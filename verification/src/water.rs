//! Water configuration: quality tiers and the settings the evaluator and the
//! blend controller consume each tick.

use vstd::prelude::*;

use crate::fixed::SCALE;
use crate::geom::{vec2_bounded, Vec2Fx, NORM_IN_LIM};
use crate::wave::{AMP_LIM, HEIGHT_LIM};

verus! {

/// Rendering/physics quality tier, least to most detailed.  It gates how many
/// directional wave layers are summed and which fractal noise variant is
/// used; a higher tier only ever adds detail on top of a lower one.
#[derive(Clone, Copy, PartialEq, Eq, Structural, Debug)]
pub enum WaterQuality {
    /// One wave layer, two-octave noise.
    Basic,
    /// Two wave layers, two-octave noise.
    Medium,
    /// Three wave layers, four-octave noise, direction crossfade.
    High,
    /// Four wave layers, four-octave noise, direction crossfade.
    Ultra,
}

impl WaterQuality {
    /// The tier as the ordinal the evaluator takes, 1 to 4.
    pub open spec fn spec_level(self) -> int {
        match self {
            WaterQuality::Basic => 1,
            WaterQuality::Medium => 2,
            WaterQuality::High => 3,
            WaterQuality::Ultra => 4,
        }
    }

    /// Converts the tier into the layer count the evaluator takes.
    pub fn into(self) -> (r: u32)
        ensures
            r == self.spec_level(),
            1 <= r <= 4,
    {
        match self {
            WaterQuality::Basic => 1,
            WaterQuality::Medium => 2,
            WaterQuality::High => 3,
            WaterQuality::Ultra => 4,
        }
    }

    /// Whether this tier crossfades two wave directions (the cheaper tiers
    /// sample the outgoing direction only).
    pub fn uses_crossfade(self) -> (r: bool)
        ensures
            r == (self.spec_level() >= 3),
    {
        match self {
            WaterQuality::High => true,
            WaterQuality::Ultra => true,
            _ => false,
        }
    }
}

/// The per-surface configuration, supplied by the embedding application and
/// read by the evaluator and the controller once per tick.
#[derive(Clone, Copy, PartialEq, Eq, Structural, Debug)]
pub struct WaterSettings {
    /// Base water height.
    pub height: i64,
    /// Wave amplitude.
    pub amplitude: i64,
    /// Target wave travel direction; fed to the controller as it changes.
    pub wave_direction: Vec2Fx,
    /// Seconds (in micro-units) a direction transition takes.
    pub blend_duration: i64,
    /// Water quality tier.
    pub water_quality: WaterQuality,
}

impl WaterSettings {
    /// Settings the queries accept: height and amplitude within the band the
    /// fixed-point height arithmetic is proven for, and a direction the
    /// normalizer accepts.
    pub open spec fn wf(self) -> bool {
        &&& -(HEIGHT_LIM as int) <= self.height <= HEIGHT_LIM as int
        &&& 0 <= self.amplitude <= AMP_LIM as int
        &&& vec2_bounded(self.wave_direction, NORM_IN_LIM as int)
    }
}

impl Default for WaterSettings {
    /// Calm defaults: waves one unit high around a base height of one unit,
    /// travelling along the x axis, five-second transitions, highest quality.
    fn default() -> (r: WaterSettings)
        ensures
            r.wf(),
            r.height == SCALE,
            r.amplitude == SCALE,
            r.wave_direction == (Vec2Fx { x: SCALE as i64, y: 0 }),
            r.blend_duration == 5_000_000,
            r.water_quality == WaterQuality::Ultra,
    {
        WaterSettings {
            height: SCALE,
            amplitude: SCALE,
            wave_direction: Vec2Fx { x: SCALE, y: 0 },
            blend_duration: 5_000_000,
            water_quality: WaterQuality::Ultra,
        }
    }
}

} // verus!
