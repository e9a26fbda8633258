//! Input translator: discrete key and window events become navigation-state
//! deltas and a dirty flag.
//!
//! The key mapping is fixed: W/S move the view vertically, A/D horizontally,
//! E zooms in, Q zooms out, Escape requests close.  Every state-mutating key
//! press raises the dirty flag; a framebuffer resize raises it without
//! touching the navigation state; anything else is ignored.

use vstd::prelude::*;
use crate::nav::NavState;
use crate::nav::sat_add;
use crate::nav::sat_i64;
use crate::nav::step_units;
use crate::nav::zoom_in_spec;
use crate::nav::zoom_out_spec;
use crate::nav::INITIAL_PAN_X_UNITS;
use crate::nav::INITIAL_PAN_Y_UNITS;
use crate::nav::INITIAL_ZOOM_UNITS;

verus! {

/// The keys the viewer recognizes; every other key is `Other`.
#[derive(Clone, Copy, Debug, PartialEq, Eq, Structural)]
pub enum KeyCode {
    W,
    S,
    A,
    D,
    E,
    Q,
    Escape,
    Other,
}

/// One polled event, already reduced to plain values: a key press, a
/// framebuffer resize in pixels, or anything else the window reported.
#[derive(Clone, Copy, Debug, PartialEq, Eq, Structural)]
pub enum InputEvent {
    KeyPress(KeyCode),
    Resize(i32, i32),
    Other,
}

/// The whole per-tick state of the viewer: the navigation state, the dirty
/// flag that gates redraws, and whether close was requested.
#[derive(Clone, Copy, Debug, PartialEq, Eq, Structural)]
pub struct ViewState {
    pub nav: NavState,
    pub dirty: bool,
    pub close_requested: bool,
}

/// Navigation state after one recognized key press: W/S/A/D pan by the
/// effective step at the current zoom factor, E and Q rescale the zoom.
pub open spec fn nav_after_key(n: NavState, k: KeyCode) -> NavState {
    let step = step_units(n.zoom as int);
    match k {
        KeyCode::W => (NavState { pan_y: sat_i64(n.pan_y - step), ..n }),
        KeyCode::S => (NavState { pan_y: sat_i64(n.pan_y + step), ..n }),
        KeyCode::A => (NavState { pan_x: sat_i64(n.pan_x + step), ..n }),
        KeyCode::D => (NavState { pan_x: sat_i64(n.pan_x - step), ..n }),
        KeyCode::E => (NavState { zoom: zoom_in_spec(n.zoom as int) as u64, ..n }),
        KeyCode::Q => (NavState { zoom: zoom_out_spec(n.zoom as int) as u64, ..n }),
        _ => n,
    }
}

/// Whether a key press mutates the navigation state (and so raises the
/// dirty flag).
pub open spec fn key_mutates(k: KeyCode) -> bool {
    match k {
        KeyCode::W | KeyCode::S | KeyCode::A | KeyCode::D | KeyCode::E | KeyCode::Q => true,
        _ => false,
    }
}

/// View state after one event: the single transition function of the viewer.
pub open spec fn state_after(s: ViewState, ev: InputEvent) -> ViewState {
    match ev {
        InputEvent::KeyPress(k) => {
            if k is Escape {
                ViewState { close_requested: true, ..s }
            } else if key_mutates(k) {
                ViewState { nav: nav_after_key(s.nav, k), dirty: true, ..s }
            } else {
                s
            }
        },
        InputEvent::Resize(_, _) => (ViewState { dirty: true, ..s }),
        InputEvent::Other => s,
    }
}

/// View state after a whole sequence of events, applied in order.
pub open spec fn state_after_seq(s: ViewState, evs: Seq<InputEvent>) -> ViewState
    decreases evs.len(),
{
    if evs.len() == 0 {
        s
    } else {
        state_after(state_after_seq(s, evs.drop_last()), evs.last())
    }
}

/// The view state the viewer starts in: the fixed initial view, with the
/// dirty flag raised so that the very first tick redraws, and no close
/// request.
pub open spec fn initial_view() -> ViewState {
    ViewState {
        nav: NavState {
            pan_x: INITIAL_PAN_X_UNITS,
            pan_y: INITIAL_PAN_Y_UNITS,
            zoom: INITIAL_ZOOM_UNITS,
        },
        dirty: true,
        close_requested: false,
    }
}

impl ViewState {
    /// Well-formedness of the whole view state: the navigation state is.
    pub open spec fn wf(self) -> bool {
        self.nav.wf()
    }

    /// The startup state; its dirty flag is raised, so the first tick
    /// always redraws.
    pub fn initial() -> (s: ViewState)
        ensures
            s == initial_view(),
            s.wf(),
    {
        ViewState { nav: NavState::initial(), dirty: true, close_requested: false }
    }

    /// Apply one event to the view state.
    pub fn apply_event(&mut self, ev: InputEvent)
        requires
            old(self).wf(),
        ensures
            *final(self) == state_after(*old(self), ev),
            final(self).wf(),
    {
        match ev {
            InputEvent::KeyPress(k) => {
                match k {
                    KeyCode::W => {
                        let step: u64 = self.nav.pan_step();
                        self.nav.pan_y = sat_add(self.nav.pan_y, -(step as i64));
                        self.dirty = true;
                    },
                    KeyCode::S => {
                        let step: u64 = self.nav.pan_step();
                        self.nav.pan_y = sat_add(self.nav.pan_y, step as i64);
                        self.dirty = true;
                    },
                    KeyCode::A => {
                        let step: u64 = self.nav.pan_step();
                        self.nav.pan_x = sat_add(self.nav.pan_x, step as i64);
                        self.dirty = true;
                    },
                    KeyCode::D => {
                        let step: u64 = self.nav.pan_step();
                        self.nav.pan_x = sat_add(self.nav.pan_x, -(step as i64));
                        self.dirty = true;
                    },
                    KeyCode::E => {
                        self.nav.zoom_in();
                        self.dirty = true;
                    },
                    KeyCode::Q => {
                        self.nav.zoom_out();
                        self.dirty = true;
                    },
                    KeyCode::Escape => {
                        self.close_requested = true;
                    },
                    KeyCode::Other => {},
                }
            },
            InputEvent::Resize(_, _) => {
                self.dirty = true;
            },
            InputEvent::Other => {},
        }
    }

    /// Drain a whole tick's pending events through the translator, in order.
    pub fn process_events(&mut self, events: &Vec<InputEvent>)
        requires
            old(self).wf(),
        ensures
            *final(self) == state_after_seq(*old(self), events@),
            final(self).wf(),
    {
        let ghost start: ViewState = *self;
        let mut i: usize = 0;
        while i < events.len()
            invariant
                i <= events.len(),
                *self == state_after_seq(start, events@.subrange(0, i as int)),
                self.wf(),
            decreases events.len() - i,
        {
            self.apply_event(events[i]);
            proof {
                let pre = events@.subrange(0, i as int);
                let post = events@.subrange(0, i as int + 1);
                assert(post.drop_last() =~= pre);
                assert(post.last() == events@[i as int]);
            }
            i = i + 1;
        }
        proof {
            assert(events@.subrange(0, events@.len() as int) =~= events@);
        }
    }
}

} // verus!
