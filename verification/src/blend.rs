//! The direction blend controller.
//!
//! Each surface region keeps an outgoing direction `dir_a`, an incoming
//! direction `dir_b` and a blend factor that `advance` moves from 0 to 1 at
//! the rate `1 / blend_duration`.  A region is settled when the blend is
//! exactly 1; `set_target` starts a new transition by snapshotting the current
//! blended direction into `dir_a`, unless the new target is already within a
//! small epsilon of the incoming direction, in which case the call changes
//! nothing.  A per-region offset, hashed from the region's grid coordinates,
//! staggers the shader-facing blend across regions so they do not all settle
//! on the same frame.

use vstd::prelude::*;

use crate::fixed::{iclamp, mix, smoothstep, spec_mix, spec_smoothstep, SCALE};
use crate::geom::{
    is_unit_or_zero, normalize_or_zero, spec_norm_x, spec_norm_y, vec2_bounded, Vec2Fx,
    NORM_IN_LIM,
};
use crate::wave::BLEND_EDGE;

verus! {

/// Shortest accepted transition, one millisecond: a zero or negative duration
/// would stall or reverse the blend, so anything shorter is clamped up to
/// this defensive floor.
pub const MIN_BLEND_DURATION: i64 = 1_000;

/// Longest accepted transition.
pub const MAX_BLEND_DURATION: i64 = 4_000_000_000_000;

/// Largest time step `advance` accepts.
pub const MAX_ADVANCE_DT: i64 = 4_000_000_000_000;

/// Squared epsilon under which a new target counts as the current one: 0.01
/// of direction distance, squared.
pub const DIR_EPS_SQ: i64 = 100_000_000;

/// Region offsets are reduced modulo this, so they span `[0, 0.3]`.
pub const REGION_OFFSET_MOD: i64 = 300_001;

/// First region hash key.
pub const REGION_HASH_A: i64 = 73_856_093;

/// Second region hash key.
pub const REGION_HASH_B: i64 = 19_349_663;

/// Largest region grid coordinate magnitude accepted by the offset hash.
pub const REGION_COORD_LIM: i64 = 1_000_000_000;

/// The per-region stagger: a keyed integer hash of the grid coordinates,
/// reduced into `[0, 0.3]`.
pub open spec fn spec_region_offset(rx: int, ry: int) -> int {
    (rx * (REGION_HASH_A as int) + ry * (REGION_HASH_B as int)) % (REGION_OFFSET_MOD as int)
}

/// Deterministic per-region blend offset in `[0, 0.3]`, from the region's
/// integer grid coordinates.
pub fn region_offset_from_coords(rx: i64, ry: i64) -> (r: i64)
    requires
        -REGION_COORD_LIM <= rx <= REGION_COORD_LIM,
        -REGION_COORD_LIM <= ry <= REGION_COORD_LIM,
    ensures
        r == spec_region_offset(rx as int, ry as int),
        0 <= r < REGION_OFFSET_MOD,
{
    let sum = rx * REGION_HASH_A + ry * REGION_HASH_B;
    let q = crate::fixed::fdiv(sum, REGION_OFFSET_MOD);
    proof {
        vstd::arithmetic::div_mod::lemma_fundamental_div_mod(
            sum as int,
            REGION_OFFSET_MOD as int,
        );
        vstd::arithmetic::div_mod::lemma_mod_bound(sum as int, REGION_OFFSET_MOD as int);
    }
    sum - q * REGION_OFFSET_MOD
}

/// Whether the normalization of the target `(tx, ty)` lies within epsilon of
/// the incoming direction of `s`, so that retargeting it changes nothing.
pub open spec fn spec_target_is_close(s: WaveDirection, tx: int, ty: int) -> bool {
    let ex = spec_norm_x(tx, ty) - s.dir_b.x as int;
    let ey = spec_norm_y(tx, ty) - s.dir_b.y as int;
    ex * ex + ey * ey <= DIR_EPS_SQ as int
}

/// The blend after advancing `s` by `dt`: unchanged once settled, otherwise
/// moved by `dt / blend_duration` and clamped at exactly 1.
pub open spec fn spec_advanced_blend(s: WaveDirection, dt: int) -> int {
    if s.blend >= SCALE {
        s.blend as int
    } else {
        let q = dt * (SCALE as int) / s.blend_duration as int;
        if s.blend + q >= SCALE {
            SCALE as int
        } else {
            s.blend + q
        }
    }
}

/// Per-region direction transition state.
#[derive(Clone, Copy, PartialEq, Eq, Structural, Debug)]
pub struct WaveDirection {
    /// The fading-out direction.
    pub dir_a: Vec2Fx,
    /// The fading-in direction, the current target.
    pub dir_b: Vec2Fx,
    /// Transition progress in `[0, 1]`; 1 means settled.
    pub blend: i64,
    /// Seconds (in micro-units) for a full transition.
    pub blend_duration: i64,
    /// This region's stagger, subtracted from the shader-facing blend.
    pub region_offset: i64,
}

impl WaveDirection {
    /// The state invariant: both directions unit length or zero, the blend in
    /// `[0, 1]`, the duration within its clamp band and the offset in
    /// `[0, 0.3]`.
    pub open spec fn wf(self) -> bool {
        &&& is_unit_or_zero(self.dir_a)
        &&& is_unit_or_zero(self.dir_b)
        &&& 0 <= self.blend <= SCALE
        &&& MIN_BLEND_DURATION <= self.blend_duration <= MAX_BLEND_DURATION
        &&& 0 <= self.region_offset < REGION_OFFSET_MOD
    }

    /// First component of the currently blended direction: `dir_a` before the
    /// transition starts, `dir_b` once it has settled, and in between the
    /// renormalized mix of the two under the smoothed blend weight.
    pub open spec fn spec_blended_dir_x(self) -> int {
        if self.blend <= 0 {
            self.dir_a.x as int
        } else if self.blend >= SCALE {
            self.dir_b.x as int
        } else {
            let w = spec_smoothstep(0, BLEND_EDGE as int, self.blend as int);
            spec_norm_x(
                spec_mix(self.dir_a.x as int, self.dir_b.x as int, w),
                spec_mix(self.dir_a.y as int, self.dir_b.y as int, w),
            )
        }
    }

    /// Second component of the currently blended direction.
    pub open spec fn spec_blended_dir_y(self) -> int {
        if self.blend <= 0 {
            self.dir_a.y as int
        } else if self.blend >= SCALE {
            self.dir_b.y as int
        } else {
            let w = spec_smoothstep(0, BLEND_EDGE as int, self.blend as int);
            spec_norm_y(
                spec_mix(self.dir_a.x as int, self.dir_b.x as int, w),
                spec_mix(self.dir_a.y as int, self.dir_b.y as int, w),
            )
        }
    }

    /// Creates a settled region: both directions are the normalized initial
    /// direction, the blend starts at 1 (no transition plays on spawn), and
    /// the stagger comes deterministically from the region coordinates.
    pub fn new(initial_dir: Vec2Fx, duration: i64, region_x: i64, region_y: i64) -> (r:
        WaveDirection)
        requires
            vec2_bounded(initial_dir, NORM_IN_LIM as int),
            -REGION_COORD_LIM <= region_x <= REGION_COORD_LIM,
            -REGION_COORD_LIM <= region_y <= REGION_COORD_LIM,
        ensures
            r.wf(),
            r.dir_a.x == spec_norm_x(initial_dir.x as int, initial_dir.y as int),
            r.dir_a.y == spec_norm_y(initial_dir.x as int, initial_dir.y as int),
            r.dir_b == r.dir_a,
            r.blend == SCALE,
            r.blend_duration == iclamp(
                duration as int,
                MIN_BLEND_DURATION as int,
                MAX_BLEND_DURATION as int,
            ),
            r.region_offset == spec_region_offset(region_x as int, region_y as int),
    {
        let d = normalize_or_zero(initial_dir);
        WaveDirection {
            dir_a: d,
            dir_b: d,
            blend: SCALE,
            blend_duration: clamp_duration(duration),
            region_offset: region_offset_from_coords(region_x, region_y),
        }
    }

    /// The currently blended direction, as physics sees it (no region
    /// offset): exactly `dir_a` at blend 0 and exactly `dir_b` at blend 1,
    /// and the renormalized smoothstep mix of the two in between.
    pub fn current_blended_dir(&self) -> (r: Vec2Fx)
        requires
            self.wf(),
        ensures
            r.x == self.spec_blended_dir_x(),
            r.y == self.spec_blended_dir_y(),
            is_unit_or_zero(r),
    {
        if self.blend <= 0 {
            self.dir_a
        } else if self.blend >= SCALE {
            self.dir_b
        } else {
            let w = smoothstep(0, BLEND_EDGE, self.blend);
            proof {
                crate::fixed::lemma_mix_range_signed(
                    self.dir_a.x as int,
                    self.dir_b.x as int,
                    w as int,
                    SCALE as int,
                );
                crate::fixed::lemma_mix_range_signed(
                    self.dir_a.y as int,
                    self.dir_b.y as int,
                    w as int,
                    SCALE as int,
                );
            }
            let mx = mix(self.dir_a.x, self.dir_b.x, w);
            let my = mix(self.dir_a.y, self.dir_b.y, w);
            normalize_or_zero(Vec2Fx { x: mx, y: my })
        }
    }

    /// Requests a transition toward `target`.  A target whose normalization
    /// is within epsilon of the current incoming direction changes nothing,
    /// so an in-flight transition is never restarted by a repeated request.
    /// Otherwise the currently blended direction is snapshotted into `dir_a`,
    /// the normalized target becomes `dir_b`, and the blend restarts at 0.
    pub fn set_target(&mut self, target: Vec2Fx)
        requires
            old(self).wf(),
            vec2_bounded(target, NORM_IN_LIM as int),
        ensures
            final(self).wf(),
            final(self).blend_duration == old(self).blend_duration,
            final(self).region_offset == old(self).region_offset,
            ({
                if spec_target_is_close(*old(self), target.x as int, target.y as int) {
                    *final(self) == *old(self)
                } else {
                    &&& final(self).dir_a.x == old(self).spec_blended_dir_x()
                    &&& final(self).dir_a.y == old(self).spec_blended_dir_y()
                    &&& final(self).dir_b.x == spec_norm_x(target.x as int, target.y as int)
                    &&& final(self).dir_b.y == spec_norm_y(target.x as int, target.y as int)
                    &&& final(self).blend == 0
                }
            }),
    {
        let n = normalize_or_zero(target);
        let ex = n.x - self.dir_b.x;
        let ey = n.y - self.dir_b.y;
        proof {
            assert(ex as int * ex as int + ey as int * ey as int
                <= 18_000_000_000_000) by (nonlinear_arith)
                requires
                    -3_000_000 <= ex as int <= 3_000_000,
                    -3_000_000 <= ey as int <= 3_000_000,
            ;
            assert(ex as int * ex as int >= 0 && ey as int * ey as int >= 0) by (nonlinear_arith);
        }
        let dist_sq = ex * ex + ey * ey;
        if dist_sq <= DIR_EPS_SQ {
            return ;
        }
        let snapshot = self.current_blended_dir();
        self.dir_a = snapshot;
        self.dir_b = n;
        self.blend = 0;
    }

    /// Moves the blend toward 1 by `dt / blend_duration`, clamped so it never
    /// overshoots: any `dt` at or beyond the remaining duration lands on
    /// exactly 1.  A settled region stays settled.
    pub fn advance(&mut self, dt: i64)
        requires
            old(self).wf(),
            0 <= dt <= MAX_ADVANCE_DT,
        ensures
            final(self).wf(),
            final(self).dir_a == old(self).dir_a,
            final(self).dir_b == old(self).dir_b,
            final(self).blend_duration == old(self).blend_duration,
            final(self).region_offset == old(self).region_offset,
            final(self).blend == spec_advanced_blend(*old(self), dt as int),
            final(self).blend >= old(self).blend,
            dt >= old(self).blend_duration ==> final(self).blend == SCALE,
    {
        if self.blend >= SCALE {
            return ;
        }
        let q = (dt * SCALE) / self.blend_duration;
        proof {
            let dur = self.blend_duration as int;
            assert(0 <= dt * (SCALE as int) <= 4_000_000_000_000_000_000) by (nonlinear_arith)
                requires
                    0 <= dt <= MAX_ADVANCE_DT,
                    MAX_ADVANCE_DT == 4_000_000_000_000,
                    SCALE == 1_000_000,
            ;
            assert(0 <= dt * (SCALE as int) / dur) by (nonlinear_arith)
                requires
                    0 <= dt * (SCALE as int),
                    dur > 0,
            ;
            if dt >= self.blend_duration {
                assert(dur * (SCALE as int) / dur == SCALE as int) by (nonlinear_arith)
                    requires
                        dur > 0,
                        SCALE == 1_000_000,
                ;
                assert(dur * (SCALE as int) <= dt * (SCALE as int)) by (nonlinear_arith)
                    requires
                        dur <= dt,
                        SCALE == 1_000_000,
                ;
                vstd::arithmetic::div_mod::lemma_div_is_ordered(
                    dur * (SCALE as int),
                    dt * (SCALE as int),
                    dur,
                );
            }
        }
        let next = self.blend + q;
        self.blend = if next >= SCALE {
            SCALE
        } else {
            next
        };
    }

    /// Changes the duration of future transitions (and the remaining rate of
    /// an in-flight one); progress already made is kept as is.  Out-of-band
    /// values are clamped into the accepted band rather than rejected.
    pub fn set_duration(&mut self, duration: i64)
        requires
            old(self).wf(),
        ensures
            final(self).wf(),
            final(self).dir_a == old(self).dir_a,
            final(self).dir_b == old(self).dir_b,
            final(self).blend == old(self).blend,
            final(self).region_offset == old(self).region_offset,
            final(self).blend_duration == iclamp(
                duration as int,
                MIN_BLEND_DURATION as int,
                MAX_BLEND_DURATION as int,
            ),
    {
        self.blend_duration = clamp_duration(duration);
    }

    /// The shader-facing blend of this region: the raw blend minus the
    /// region's stagger, clamped back into `[0, 1]`, so regions with larger
    /// offsets lag behind the canonical blend.
    pub fn effective_blend(&self) -> (r: i64)
        requires
            self.wf(),
        ensures
            r == iclamp(self.blend as int - self.region_offset as int, 0, SCALE as int),
            0 <= r <= SCALE,
    {
        let raw = self.blend - self.region_offset;
        if raw < 0 {
            0
        } else if raw > SCALE {
            SCALE
        } else {
            raw
        }
    }
}

/// Clamps a requested transition duration into the accepted band.
fn clamp_duration(duration: i64) -> (r: i64)
    ensures
        r == iclamp(duration as int, MIN_BLEND_DURATION as int, MAX_BLEND_DURATION as int),
        MIN_BLEND_DURATION <= r <= MAX_BLEND_DURATION,
{
    if duration < MIN_BLEND_DURATION {
        MIN_BLEND_DURATION
    } else if duration > MAX_BLEND_DURATION {
        MAX_BLEND_DURATION
    } else {
        duration
    }
}

/// Once a transition toward a target has begun, that target is the incoming
/// direction, so requesting it again meets the no-change test of
/// `set_target`: by its contract the state, and in particular the blend, is
/// left untouched.  A repeated request can therefore never restart an
/// in-flight transition.
pub proof fn lemma_repeated_target_is_noop(s: WaveDirection, tx: int, ty: int)
    requires
        s.dir_b.x == spec_norm_x(tx, ty),
        s.dir_b.y == spec_norm_y(tx, ty),
    ensures
        spec_target_is_close(s, tx, ty),
{
}

/// The one controller state that physics queries read when a single global
/// approximation is enough: a copy of one canonical region's transition,
/// refreshed once per tick.
#[derive(Clone, Copy, PartialEq, Eq, Structural, Debug)]
pub struct GlobalWaveState {
    /// The fading-out direction of the canonical region.
    pub dir_a: Vec2Fx,
    /// The fading-in direction of the canonical region.
    pub dir_b: Vec2Fx,
    /// The canonical region's raw blend, in `[0, 1]`.
    pub blend: i64,
}

impl GlobalWaveState {
    /// The mirror of the region invariant.
    pub open spec fn wf(self) -> bool {
        &&& is_unit_or_zero(self.dir_a)
        &&& is_unit_or_zero(self.dir_b)
        &&& 0 <= self.blend <= SCALE
    }

    /// A settled global state pointing along the normalized direction.
    pub fn new(initial_dir: Vec2Fx) -> (r: GlobalWaveState)
        requires
            vec2_bounded(initial_dir, NORM_IN_LIM as int),
        ensures
            r.wf(),
            r.dir_a.x == spec_norm_x(initial_dir.x as int, initial_dir.y as int),
            r.dir_a.y == spec_norm_y(initial_dir.x as int, initial_dir.y as int),
            r.dir_b == r.dir_a,
            r.blend == SCALE,
    {
        let d = normalize_or_zero(initial_dir);
        GlobalWaveState { dir_a: d, dir_b: d, blend: SCALE }
    }

    /// Refreshes the global copy from the canonical region.
    pub fn sync_from(&mut self, region: &WaveDirection)
        requires
            region.wf(),
        ensures
            final(self).wf(),
            final(self).dir_a == region.dir_a,
            final(self).dir_b == region.dir_b,
            final(self).blend == region.blend,
    {
        self.dir_a = region.dir_a;
        self.dir_b = region.dir_b;
        self.blend = region.blend;
    }
}

} // verus!
