//! Navigation and render-gate core of an interactive Mandelbrot viewer.
//!
//! The library models the viewer's state — pan offsets, zoom factor and the
//! dirty flag that gates redraws — in fixed-point micro-units (one unit is
//! 10^-6 of the real value), so that every transition is exact integer
//! arithmetic with a proved contract.  The windowing and OpenGL shell around
//! it only forwards plain events in and uniform values out.

use vstd::prelude::*;

pub mod budget;
pub mod input;
pub mod laws;
pub mod nav;
pub mod render;

verus! {

/// Number of fixed-point units per 1.0 of pan or zoom.
pub const SCALE: u64 = 1_000_000;

} // verus!
