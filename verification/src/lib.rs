//! A procedural generator for seamlessly looping, domain-warped noise
//! animations.
//!
//! The animation's time axis is embedded as a point travelling around a
//! fixed-radius circle in an auxiliary plane; a 4-dimensional coherent
//! noise field is sampled at (space, circle point), so the frame at index
//! `n` (one full revolution) is identical to frame 0 and the loop is
//! seamless by construction. All arithmetic is fixed-point, so every
//! stage of the pipeline is deterministic and verified.

pub mod circle;
pub mod color;
pub mod mask;
pub mod params;
pub mod render;
pub mod noise;
pub mod warp;

use vstd::prelude::*;

verus! {

/// One unit in the fixed-point scale used throughout the pipeline: a
/// value `v` stands for the real number `v / FP_ONE`. Real-valued
/// configuration (the circle radius, the spatial scale) is converted
/// into this scale once, at the boundary, before the pipeline runs.
pub const FP_ONE: i64 = 1048576;

} // verus!
