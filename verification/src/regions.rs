//! An arena of per-region blend states, keyed by stable grid coordinates, so
//! that a surface region is decoupled from any particular scene-graph entity.
//! Once per tick the embedding application applies target and duration
//! changes, advances every region by the elapsed time, and mirrors one
//! canonical region into the global state physics reads.

use vstd::prelude::*;

use crate::blend::{
    spec_advanced_blend, spec_region_offset, spec_target_is_close, WaveDirection,
    MAX_ADVANCE_DT, MAX_BLEND_DURATION, MIN_BLEND_DURATION, REGION_COORD_LIM,
};
use crate::fixed::{iclamp, SCALE};
use crate::geom::{spec_norm_x, spec_norm_y, vec2_bounded, Vec2Fx, NORM_IN_LIM};

verus! {

/// One arena slot: a region's grid coordinates and its transition state.
#[derive(Clone, Copy, PartialEq, Eq, Structural, Debug)]
pub struct WaveRegionEntry {
    /// Region grid coordinate along x.
    pub grid_x: i64,
    /// Region grid coordinate along y.
    pub grid_y: i64,
    /// The region's transition state.
    pub state: WaveDirection,
}

/// The arena of all surface regions.
pub struct WaveRegions {
    regions: Vec<WaveRegionEntry>,
}

/// The entry's coordinates are in band, its state satisfies the controller
/// invariant, and its stagger is the one its coordinates hash to.
pub open spec fn entry_wf(e: WaveRegionEntry) -> bool {
    &&& -(REGION_COORD_LIM as int) <= e.grid_x <= REGION_COORD_LIM as int
    &&& -(REGION_COORD_LIM as int) <= e.grid_y <= REGION_COORD_LIM as int
    &&& e.state.wf()
    &&& e.state.region_offset == spec_region_offset(e.grid_x as int, e.grid_y as int)
}

impl WaveRegions {
    /// The arena as the sequence of its entries.
    pub closed spec fn entries(self) -> Seq<WaveRegionEntry> {
        self.regions@
    }

    /// Every entry well formed, and no two entries for the same coordinates.
    pub open spec fn wf(self) -> bool {
        &&& forall|i: int|
            0 <= i < self.entries().len() ==> entry_wf(#[trigger] self.entries()[i])
        &&& forall|i: int, j: int|
            0 <= i < j < self.entries().len() ==> !(#[trigger] self.entries()[i].grid_x
                == #[trigger] self.entries()[j].grid_x && self.entries()[i].grid_y
                == self.entries()[j].grid_y)
    }

    /// An empty arena.
    pub fn new() -> (r: WaveRegions)
        ensures
            r.wf(),
            r.entries().len() == 0,
    {
        WaveRegions { regions: Vec::new() }
    }

    /// How many regions the arena holds.
    pub fn len(&self) -> (r: usize)
        ensures
            r == self.entries().len(),
    {
        self.regions.len()
    }

    /// The entry at an index.
    pub fn entry_at(&self, i: usize) -> (r: WaveRegionEntry)
        requires
            i < self.entries().len(),
        ensures
            r == self.entries()[i as int],
    {
        self.regions[i]
    }

    /// The index of the region with the given coordinates, if it exists.
    pub fn find(&self, gx: i64, gy: i64) -> (r: Option<usize>)
        ensures
            match r {
                Some(i) => i < self.entries().len() && self.entries()[i as int].grid_x == gx
                    && self.entries()[i as int].grid_y == gy,
                None => forall|i: int|
                    0 <= i < self.entries().len() ==> !(#[trigger] self.entries()[i].grid_x == gx
                        && self.entries()[i].grid_y == gy),
            },
    {
        let n = self.regions.len();
        let mut i: usize = 0;
        while i < n
            invariant
                n == self.entries().len(),
                i <= n,
                forall|j: int|
                    0 <= j < i ==> !(#[trigger] self.entries()[j].grid_x == gx
                        && self.entries()[j].grid_y == gy),
            decreases n - i,
        {
            let e = self.regions[i];
            if e.grid_x == gx && e.grid_y == gy {
                return Some(i);
            }
            i = i + 1;
        }
        None
    }

    /// Adds a settled region for the given coordinates unless one is already
    /// there; an existing region is left untouched, so repeated spawning is
    /// harmless.
    pub fn ensure_region(&mut self, gx: i64, gy: i64, initial_dir: Vec2Fx, duration: i64)
        requires
            old(self).wf(),
            -REGION_COORD_LIM <= gx <= REGION_COORD_LIM,
            -REGION_COORD_LIM <= gy <= REGION_COORD_LIM,
            vec2_bounded(initial_dir, NORM_IN_LIM as int),
            old(self).entries().len() < 1_000_000,
        ensures
            final(self).wf(),
            ({
                if exists|i: int|
                    0 <= i < old(self).entries().len() && (#[trigger] old(self).entries()[i].grid_x
                        == gx && old(self).entries()[i].grid_y == gy) {
                    final(self).entries() == old(self).entries()
                } else {
                    &&& final(self).entries().len() == old(self).entries().len() + 1
                    &&& final(self).entries().subrange(0, old(self).entries().len() as int)
                        == old(self).entries()
                    &&& ({
                        let e = final(self).entries().last();
                        &&& e.grid_x == gx
                        &&& e.grid_y == gy
                        &&& e.state.blend == SCALE
                        &&& e.state.dir_a.x == spec_norm_x(
                            initial_dir.x as int,
                            initial_dir.y as int,
                        )
                        &&& e.state.dir_a.y == spec_norm_y(
                            initial_dir.x as int,
                            initial_dir.y as int,
                        )
                        &&& e.state.dir_b == e.state.dir_a
                        &&& e.state.blend_duration == iclamp(
                            duration as int,
                            MIN_BLEND_DURATION as int,
                            MAX_BLEND_DURATION as int,
                        )
                    })
                }
            }),
    {
        match self.find(gx, gy) {
            Some(_) => {
                proof {
                    assert(self.entries() =~= old(self).entries());
                }
            },
            None => {
                let state = WaveDirection::new(initial_dir, duration, gx, gy);
                self.regions.push(WaveRegionEntry { grid_x: gx, grid_y: gy, state });
                proof {
                    assert(self.entries().subrange(0, old(self).entries().len() as int) =~= old(
                        self,
                    ).entries());
                }
            },
        }
    }

    /// Requests the same new target direction from every region; each region
    /// applies its own no-change test, so settled and transitioning regions
    /// react exactly as a direct `set_target` on them would.
    pub fn set_target_all(&mut self, target: Vec2Fx)
        requires
            old(self).wf(),
            vec2_bounded(target, NORM_IN_LIM as int),
        ensures
            final(self).wf(),
            final(self).entries().len() == old(self).entries().len(),
            forall|j: int|
                0 <= j < old(self).entries().len() ==> {
                    let before = old(self).entries()[j];
                    let after = #[trigger] final(self).entries()[j];
                    &&& after.grid_x == before.grid_x
                    &&& after.grid_y == before.grid_y
                    &&& after.state.blend_duration == before.state.blend_duration
                    &&& after.state.region_offset == before.state.region_offset
                    &&& if spec_target_is_close(before.state, target.x as int, target.y as int) {
                        after == before
                    } else {
                        &&& after.state.dir_a.x == before.state.spec_blended_dir_x()
                        &&& after.state.dir_a.y == before.state.spec_blended_dir_y()
                        &&& after.state.dir_b.x == spec_norm_x(target.x as int, target.y as int)
                        &&& after.state.dir_b.y == spec_norm_y(target.x as int, target.y as int)
                        &&& after.state.blend == 0
                    }
                },
    {
        let n = self.regions.len();
        let mut i: usize = 0;
        while i < n
            invariant
                old(self).wf(),
                vec2_bounded(target, NORM_IN_LIM as int),
                n == old(self).entries().len(),
                self.entries().len() == n,
                i <= n,
                forall|j: int| i <= j < n ==> #[trigger] self.entries()[j] == old(self).entries()[j],
                forall|j: int|
                    0 <= j < i ==> {
                        let before = old(self).entries()[j];
                        let after = #[trigger] self.entries()[j];
                        &&& entry_wf(after)
                        &&& after.grid_x == before.grid_x
                        &&& after.grid_y == before.grid_y
                        &&& after.state.blend_duration == before.state.blend_duration
                        &&& after.state.region_offset == before.state.region_offset
                        &&& if spec_target_is_close(
                            before.state,
                            target.x as int,
                            target.y as int,
                        ) {
                            after == before
                        } else {
                            &&& after.state.dir_a.x == before.state.spec_blended_dir_x()
                            &&& after.state.dir_a.y == before.state.spec_blended_dir_y()
                            &&& after.state.dir_b.x == spec_norm_x(
                                target.x as int,
                                target.y as int,
                            )
                            &&& after.state.dir_b.y == spec_norm_y(
                                target.x as int,
                                target.y as int,
                            )
                            &&& after.state.blend == 0
                        }
                    },
            decreases n - i,
        {
            let mut entry = self.regions[i];
            entry.state.set_target(target);
            self.regions[i] = entry;
            i = i + 1;
        }
        proof {
            let es = self.entries();
            assert forall|a: int, b: int| 0 <= a < b < es.len() implies !(#[trigger] es[a].grid_x
                == #[trigger] es[b].grid_x && es[a].grid_y == es[b].grid_y) by {
                assert(es[a].grid_x == old(self).entries()[a].grid_x && es[a].grid_y == old(
                    self,
                ).entries()[a].grid_y);
                assert(es[b].grid_x == old(self).entries()[b].grid_x && es[b].grid_y == old(
                    self,
                ).entries()[b].grid_y);
            }
        }
    }

    /// Advances every region by the elapsed time; each blend moves toward 1
    /// at its own rate and regions already settled stay settled.
    pub fn advance_all(&mut self, dt: i64)
        requires
            old(self).wf(),
            0 <= dt <= MAX_ADVANCE_DT,
        ensures
            final(self).wf(),
            final(self).entries().len() == old(self).entries().len(),
            forall|j: int|
                0 <= j < old(self).entries().len() ==> {
                    let before = old(self).entries()[j];
                    let after = #[trigger] final(self).entries()[j];
                    &&& after.grid_x == before.grid_x
                    &&& after.grid_y == before.grid_y
                    &&& after.state.dir_a == before.state.dir_a
                    &&& after.state.dir_b == before.state.dir_b
                    &&& after.state.blend_duration == before.state.blend_duration
                    &&& after.state.region_offset == before.state.region_offset
                    &&& after.state.blend == spec_advanced_blend(before.state, dt as int)
                },
    {
        let n = self.regions.len();
        let mut i: usize = 0;
        while i < n
            invariant
                old(self).wf(),
                0 <= dt <= MAX_ADVANCE_DT,
                n == old(self).entries().len(),
                self.entries().len() == n,
                i <= n,
                forall|j: int| i <= j < n ==> #[trigger] self.entries()[j] == old(self).entries()[j],
                forall|j: int|
                    0 <= j < i ==> {
                        let before = old(self).entries()[j];
                        let after = #[trigger] self.entries()[j];
                        &&& entry_wf(after)
                        &&& after.grid_x == before.grid_x
                        &&& after.grid_y == before.grid_y
                        &&& after.state.dir_a == before.state.dir_a
                        &&& after.state.dir_b == before.state.dir_b
                        &&& after.state.blend_duration == before.state.blend_duration
                        &&& after.state.region_offset == before.state.region_offset
                        &&& after.state.blend == spec_advanced_blend(before.state, dt as int)
                    },
            decreases n - i,
        {
            let mut entry = self.regions[i];
            entry.state.advance(dt);
            self.regions[i] = entry;
            i = i + 1;
        }
        proof {
            let es = self.entries();
            assert forall|a: int, b: int| 0 <= a < b < es.len() implies !(#[trigger] es[a].grid_x
                == #[trigger] es[b].grid_x && es[a].grid_y == es[b].grid_y) by {
                assert(es[a].grid_x == old(self).entries()[a].grid_x && es[a].grid_y == old(
                    self,
                ).entries()[a].grid_y);
                assert(es[b].grid_x == old(self).entries()[b].grid_x && es[b].grid_y == old(
                    self,
                ).entries()[b].grid_y);
            }
        }
    }
}

} // verus!
