//! Verified core of a Monte Carlo path tracer.
//!
//! The floating-point geometry (vectors, intersection math, shading) lives in
//! the surrounding application; this library holds the parts of the engine
//! whose behaviour is integer- and structure-valued and can be stated and
//! proved exactly: the pixel storage of image textures, the permutation
//! tables behind procedural noise, the shape of the bounding volume
//! hierarchy, the integrator's per-bounce decision, and the per-pixel
//! sampling schedule.

use vstd::prelude::*;

pub mod bvh;
pub mod integrator;
pub mod mesh;
pub mod perlin;
pub mod render;
mod rng;
pub mod texture;
mod util;

pub use rng::random_int;

verus! {

/// Rows are numbered bottom-up by the renderer but top-down in the pixel
/// buffer; this maps one numbering to the other.
pub fn flip_row(j: u32, height: u32) -> (r: u32)
    requires
        j < height,
    ensures
        r == height - 1 - j,
{
    height - 1 - j
}

} // verus!
