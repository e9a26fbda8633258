//! Navigation state: pan offsets and zoom factor in fixed-point units.
//!
//! One real-valued unit of pan or zoom is `SCALE` fixed-point units, so
//! `zoom == 1_200_000` stands for a zoom factor of 1.2.  Every transition is
//! exact integer arithmetic: zooming in multiplies by 12/10 (rounding down),
//! zooming out by 8/10 (rounding down, never below one unit), and each zoom
//! change is immediately clamped to `ZOOM_MAX_UNITS`.  Pan is unbounded by
//! design, so pan updates saturate only at the extreme ends of `i64`.

use vstd::prelude::*;
use crate::SCALE;

verus! {

/// Upper bound on the zoom factor: 1000.0 in fixed-point units.
pub const ZOOM_MAX_UNITS: u64 = 1_000_000_000;

/// Base pan step of 0.05 in fixed-point units; the effective step is
/// `BASE_STEP_UNITS * SCALE / zoom`, shrinking as the zoom deepens.
pub const BASE_STEP_UNITS: u64 = 50_000;

/// Initial horizontal pan offset: 0.75 in fixed-point units.
pub const INITIAL_PAN_X_UNITS: i64 = 750_000;

/// Initial vertical pan offset: 0.0.
pub const INITIAL_PAN_Y_UNITS: i64 = 0;

/// Initial zoom factor: 1.0 in fixed-point units.
pub const INITIAL_ZOOM_UNITS: u64 = 1_000_000;

/// Pan offsets and zoom factor of the current view, in fixed-point units.
#[derive(Clone, Copy, Debug, PartialEq, Eq, Structural)]
pub struct NavState {
    pub pan_x: i64,
    pub pan_y: i64,
    pub zoom: u64,
}

/// Clamp of an unbounded integer into the `i64` range.
pub open spec fn sat_i64(v: int) -> i64 {
    if v > i64::MAX {
        i64::MAX
    } else if v < i64::MIN {
        i64::MIN
    } else {
        v as i64
    }
}

/// Zoom factor after one zoom-in press: multiplied by 12/10 (rounded down)
/// and clamped to `ZOOM_MAX_UNITS`.
pub open spec fn zoom_in_spec(z: int) -> int {
    if z * 12 / 10 > ZOOM_MAX_UNITS {
        ZOOM_MAX_UNITS as int
    } else {
        z * 12 / 10
    }
}

/// Zoom factor after one zoom-out press: multiplied by 8/10 (rounded down),
/// held at one unit so the zoom factor stays positive.
pub open spec fn zoom_out_spec(z: int) -> int {
    if z * 8 / 10 < 1 {
        1
    } else {
        z * 8 / 10
    }
}

/// Effective pan step for zoom factor `z`: `0.05 / zoom` in fixed-point
/// units, rounded down.
pub open spec fn step_units(z: int) -> int {
    BASE_STEP_UNITS * SCALE / z
}

impl NavState {
    /// A navigation state is well formed when its zoom factor is positive
    /// and clamped: strictly between zero and `ZOOM_MAX_UNITS` inclusive.
    pub open spec fn wf(self) -> bool {
        1 <= self.zoom <= ZOOM_MAX_UNITS
    }

    /// The fixed startup view: pan (0.75, 0.0) at zoom 1.0.
    pub fn initial() -> (s: NavState)
        ensures
            s.pan_x == INITIAL_PAN_X_UNITS,
            s.pan_y == INITIAL_PAN_Y_UNITS,
            s.zoom == INITIAL_ZOOM_UNITS,
            s.wf(),
    {
        NavState { pan_x: INITIAL_PAN_X_UNITS, pan_y: INITIAL_PAN_Y_UNITS, zoom: INITIAL_ZOOM_UNITS }
    }

    /// Multiply the zoom factor by 12/10 and clamp it to the maximum.
    pub fn zoom_in(&mut self)
        requires
            old(self).wf(),
        ensures
            final(self).zoom == zoom_in_spec(old(self).zoom as int),
            final(self).pan_x == old(self).pan_x,
            final(self).pan_y == old(self).pan_y,
            final(self).wf(),
    {
        let grown: u64 = self.zoom * 12 / 10;
        if grown > ZOOM_MAX_UNITS {
            self.zoom = ZOOM_MAX_UNITS;
        } else {
            self.zoom = grown;
        }
    }

    /// Multiply the zoom factor by 8/10, holding it at one unit from below.
    pub fn zoom_out(&mut self)
        requires
            old(self).wf(),
        ensures
            final(self).zoom == zoom_out_spec(old(self).zoom as int),
            final(self).pan_x == old(self).pan_x,
            final(self).pan_y == old(self).pan_y,
            final(self).wf(),
    {
        let shrunk: u64 = self.zoom * 8 / 10;
        if shrunk < 1 {
            self.zoom = 1;
        } else {
            self.zoom = shrunk;
        }
    }

    /// The effective pan step at the current zoom factor.
    pub fn pan_step(&self) -> (s: u64)
        requires
            self.wf(),
        ensures
            s == step_units(self.zoom as int),
            s <= BASE_STEP_UNITS * SCALE,
    {
        BASE_STEP_UNITS * SCALE / self.zoom
    }
}

/// Addition on `i64` that saturates at the ends of the range instead of
/// overflowing; pan offsets have no other bound.
pub fn sat_add(a: i64, b: i64) -> (r: i64)
    ensures
        r == sat_i64(a + b),
{
    let wide: i128 = a as i128 + b as i128;
    if wide > i64::MAX as i128 {
        i64::MAX
    } else if wide < i64::MIN as i128 {
        i64::MIN
    } else {
        wide as i64
    }
}

} // verus!
