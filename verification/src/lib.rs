//! Procedural planet elevation fields.
//!
//! The library composes fractal noise sources into one elevation field over
//! the unit sphere, samples that field onto cube faces or an equirectangular
//! grid, and quantizes the samples into image pixel buffers.
//!
//! - [`fp`] carries scalars as 64-bit float bit patterns and names the
//!   primitive numeric operations;
//! - [`graph`] holds the field's node arena and its builders;
//! - [`eval`] fixes every node's semantics and evaluates graphs through
//!   memoizing sessions;
//! - [`planet`] assembles the planetary composition from a seed and a
//!   configuration;
//! - [`project`] maps raster coordinates onto the unit sphere;
//! - [`quantize`] turns elevations into pixel samples, exactly;
//! - [`codec`] packs samples and hands them to the image container;
//! - [`render`] samples whole tiles and produces the output images.

use vstd::prelude::*;

pub mod fp;
pub mod graph;
pub mod eval;
pub(crate) mod apply;
pub mod planet;
pub mod project;
pub mod quantize;
pub mod codec;
pub mod render;

verus! {

/// Clamps an integer sample value into an inclusive range.
pub fn clamp(value: i32, lower_bound: i32, upper_bound: i32) -> (r: i32)
    ensures
        r == if value < lower_bound { lower_bound }
             else if value > upper_bound { upper_bound }
             else { value },
{
    if value < lower_bound {
        lower_bound
    } else if value > upper_bound {
        upper_bound
    } else {
        value
    }
}

} // verus!
