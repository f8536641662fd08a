//! A deterministic procedural ocean surface.
//!
//! The library computes a fractal wave-height field — value noise, a
//! four-octave fractal sum, and one to four directional wave layers blended
//! across a direction change — and runs the per-region state machine that
//! crossfades the wave direction over time.  All arithmetic is exact
//! fixed-point (64-bit counts of micro-units, 1.0 = 1 000 000), so a physics
//! query and an independently maintained rendering transcription of the same
//! formulas can never drift apart, on any platform.
//!
//! - [`fixed`]: scalar fixed-point arithmetic, the sine approximation, the
//!   smoothstep curve and the integer square root.
//! - [`geom`]: the small vector types and integer direction normalization.
//! - [`noise`]: the lattice hash, bilinear value noise and the fractal sum.
//! - [`wave`]: the directional wave sampler, the quality tiers and the
//!   two-direction crossfade, with the height and surface-point queries.
//! - [`blend`]: the per-region direction transition state machine and the
//!   global aggregate physics reads.
//! - [`regions`]: an arena of region states keyed by grid coordinates.
//! - [`water`]: the quality tiers and the settings consumed each tick.
//! - [`param`]: the physics-facing height, point and normal queries.

pub mod fixed;
pub mod geom;
pub mod noise;
pub mod wave;
pub mod blend;
pub mod regions;
pub mod water;
pub mod param;
