//! Render gate: once per frame tick, redraw exactly when the view is dirty.
//!
//! A tick either skips all drawing (clean view) or recomputes the five
//! shader uniforms from the navigation state and the current framebuffer
//! size, hands them out, and lowers the dirty flag.  The caller performs the
//! actual clear/draw/present with the returned values and nothing else.

use vstd::prelude::*;
use crate::budget::iteration_budget;
use crate::budget::max_iterations_spec;
use crate::input::ViewState;
use crate::nav::NavState;

verus! {

/// The five per-draw uniforms of the fractal shader, in plain values: the
/// square viewport edge in pixels, the two pan offsets and the zoom factor
/// in fixed-point units, and the escape-time iteration budget.
#[derive(Clone, Copy, Debug, PartialEq, Eq, Structural)]
pub struct RenderUniforms {
    pub window_size: i32,
    pub step_x: i64,
    pub step_y: i64,
    pub zoom: u64,
    pub max_iterations: i32,
}

/// The side of the square view region inscribed in the framebuffer: the
/// smaller of its two dimensions, so the fractal keeps its aspect ratio.
pub open spec fn window_size_spec(fb_width: i32, fb_height: i32) -> i32 {
    if fb_width >= fb_height {
        fb_height
    } else {
        fb_width
    }
}

/// The uniforms a redraw pushes, as a function of the navigation state and
/// the framebuffer size alone.  The `step_x`/`step_y` uniforms carry the pan
/// offsets, named after the shader inputs they feed.
pub open spec fn uniforms_spec(n: NavState, fb_width: i32, fb_height: i32) -> RenderUniforms {
    RenderUniforms {
        window_size: window_size_spec(fb_width, fb_height),
        step_x: n.pan_x,
        step_y: n.pan_y,
        zoom: n.zoom,
        max_iterations: max_iterations_spec(n.zoom as int) as i32,
    }
}

impl ViewState {
    /// One frame tick after input processing: redraw if and only if the
    /// view is dirty.  On a redraw the recomputed uniforms are returned and
    /// the dirty flag is lowered; on a clean tick nothing changes and no
    /// drawing work is owed.
    pub fn frame(&mut self, fb_width: i32, fb_height: i32) -> (uniforms: Option<RenderUniforms>)
        requires
            old(self).wf(),
        ensures
            uniforms is Some <==> old(self).dirty,
            old(self).dirty ==> uniforms == Some(
                uniforms_spec(old(self).nav, fb_width, fb_height),
            ),
            !final(self).dirty,
            final(self).nav == old(self).nav,
            final(self).close_requested == old(self).close_requested,
            final(self).wf(),
    {
        if self.dirty {
            self.dirty = false;
            let max_iterations: i32 = iteration_budget(self.nav.zoom);
            let window_size: i32 = if fb_width >= fb_height {
                fb_height
            } else {
                fb_width
            };
            Some(
                RenderUniforms {
                    window_size,
                    step_x: self.nav.pan_x,
                    step_y: self.nav.pan_y,
                    zoom: self.nav.zoom,
                    max_iterations,
                },
            )
        } else {
            None
        }
    }
}

} // verus!
