//! The laws of the navigation core, each proved once and for all: zoom stays
//! in range under every input sequence, a pan press moves exactly one axis,
//! the pan step shrinks as zoom deepens, the iteration budget grows with
//! zoom, a resize always forces a redraw, and close requests are idempotent.

use vstd::prelude::*;
use vstd::arithmetic::div_mod::lemma_div_is_ordered_by_denominator;
use vstd::arithmetic::div_mod::lemma_div_pos_is_pos;
use crate::SCALE;
use crate::budget::max_iterations_spec;
use crate::budget::pow10;
use crate::budget::up_count;
use crate::budget::up_ok;
use crate::input::InputEvent;
use crate::input::KeyCode;
use crate::input::ViewState;
use crate::input::initial_view;
use crate::input::key_mutates;
use crate::input::nav_after_key;
use crate::input::state_after;
use crate::input::state_after_seq;
use crate::nav::BASE_STEP_UNITS;
use crate::nav::NavState;
use crate::nav::ZOOM_MAX_UNITS;
use crate::nav::step_units;
use crate::nav::zoom_in_spec;
use crate::nav::zoom_out_spec;

verus! {

/// The effective pan step is nonnegative and never above the base step
/// times the fixed-point scale.
pub proof fn lemma_step_bounds(z: int)
    requires
        1 <= z,
    ensures
        0 <= step_units(z) <= BASE_STEP_UNITS * SCALE,
{
    lemma_div_pos_is_pos(BASE_STEP_UNITS * SCALE, z);
    lemma_div_is_ordered_by_denominator(BASE_STEP_UNITS * SCALE, 1, z);
}

/// A single zoom change keeps the zoom factor positive and clamped.
pub proof fn lemma_zoom_change_in_range(z: int)
    requires
        1 <= z <= ZOOM_MAX_UNITS,
    ensures
        1 <= zoom_in_spec(z) <= ZOOM_MAX_UNITS,
        1 <= zoom_out_spec(z) <= ZOOM_MAX_UNITS,
{
    assert(z * 12 / 10 >= 1 && z * 8 / 10 <= z) by (nonlinear_arith)
        requires
            1 <= z,
    ;
}

/// One step of the transition function preserves well-formedness.
pub proof fn lemma_wf_preserved(s: ViewState, ev: InputEvent)
    requires
        s.wf(),
    ensures
        state_after(s, ev).wf(),
{
    if let InputEvent::KeyPress(k) = ev {
        if k is E || k is Q {
            lemma_zoom_change_in_range(s.nav.zoom as int);
        }
    }
}

/// Well-formedness is preserved by every sequence of events.
pub proof fn lemma_wf_preserved_seq(s: ViewState, evs: Seq<InputEvent>)
    requires
        s.wf(),
    ensures
        state_after_seq(s, evs).wf(),
    decreases evs.len(),
{
    if evs.len() > 0 {
        lemma_wf_preserved_seq(s, evs.drop_last());
        lemma_wf_preserved(state_after_seq(s, evs.drop_last()), evs.last());
    }
}

/// After any sequence of events from the startup state — zoom presses
/// included — the clamped zoom factor satisfies `0 < zoom <= zoom_max`.
pub proof fn lemma_zoom_always_in_range(evs: Seq<InputEvent>)
    ensures
        0 < state_after_seq(initial_view(), evs).nav.zoom <= ZOOM_MAX_UNITS,
{
    lemma_wf_preserved_seq(initial_view(), evs);
}

/// One press of W, S, A or D moves exactly one of the two pan offsets, by
/// exactly the effective step at the zoom factor before the press (negative
/// for W and D, positive for S and A), leaves the zoom factor unchanged,
/// and raises the dirty flag.  The hypotheses keep the moved offset inside
/// the `i64` range, where the update does not saturate.
pub proof fn lemma_pan_press_moves_one_axis(s: ViewState, k: KeyCode)
    requires
        s.wf(),
        k is W || k is S || k is A || k is D,
        k is W ==> i64::MIN <= s.nav.pan_y - step_units(s.nav.zoom as int),
        k is S ==> s.nav.pan_y + step_units(s.nav.zoom as int) <= i64::MAX,
        k is A ==> s.nav.pan_x + step_units(s.nav.zoom as int) <= i64::MAX,
        k is D ==> i64::MIN <= s.nav.pan_x - step_units(s.nav.zoom as int),
    ensures
        state_after(s, InputEvent::KeyPress(k)).nav.zoom == s.nav.zoom,
        state_after(s, InputEvent::KeyPress(k)).dirty,
        k is W ==> state_after(s, InputEvent::KeyPress(k)).nav == (NavState {
            pan_y: (s.nav.pan_y - step_units(s.nav.zoom as int)) as i64,
            ..s.nav
        }),
        k is S ==> state_after(s, InputEvent::KeyPress(k)).nav == (NavState {
            pan_y: (s.nav.pan_y + step_units(s.nav.zoom as int)) as i64,
            ..s.nav
        }),
        k is A ==> state_after(s, InputEvent::KeyPress(k)).nav == (NavState {
            pan_x: (s.nav.pan_x + step_units(s.nav.zoom as int)) as i64,
            ..s.nav
        }),
        k is D ==> state_after(s, InputEvent::KeyPress(k)).nav == (NavState {
            pan_x: (s.nav.pan_x - step_units(s.nav.zoom as int)) as i64,
            ..s.nav
        }),
{
    lemma_step_bounds(s.nav.zoom as int);
    assert(key_mutates(k));
    assert(state_after(s, InputEvent::KeyPress(k)).nav == nav_after_key(s.nav, k));
}

/// The effective pan step never grows as the zoom factor grows: panning
/// slows down (or at the fixed-point grain, stays) as the view deepens.
pub proof fn lemma_pan_step_monotone(z1: int, z2: int)
    requires
        1 <= z1 <= z2,
    ensures
        step_units(z2) <= step_units(z1),
{
    lemma_div_is_ordered_by_denominator(BASE_STEP_UNITS * SCALE, z1, z2);
}

/// Where the fixed-point grain can still tell two steps apart — whenever
/// `z1 * z2` is at most the step numerator, so the two exact steps differ by
/// at least one unit — the effective pan step strictly shrinks as the zoom
/// factor strictly grows.  (Beyond that range two distinct zoom factors can
/// round down to the same step.)
pub proof fn lemma_pan_step_strictly_monotone(z1: int, z2: int)
    requires
        1 <= z1 < z2,
        z1 * z2 <= BASE_STEP_UNITS * SCALE,
    ensures
        step_units(z2) < step_units(z1),
{
    let numer = BASE_STEP_UNITS * SCALE;
    let s1 = numer / z1;
    let s2 = numer / z2;
    vstd::arithmetic::div_mod::lemma_fundamental_div_mod(numer as int, z1);
    vstd::arithmetic::div_mod::lemma_fundamental_div_mod(numer as int, z2);
    vstd::arithmetic::div_mod::lemma_mod_bound(numer as int, z1);
    vstd::arithmetic::div_mod::lemma_mod_bound(numer as int, z2);
    lemma_div_pos_is_pos(numer as int, z1);
    lemma_div_pos_is_pos(numer as int, z2);
    let r1 = numer % z1;
    let r2 = numer % z2;
    if s2 >= s1 {
        assert(numer >= z2 * s1) by (nonlinear_arith)
            requires
                numer == z2 * s2 + r2,
                r2 >= 0,
                s2 >= s1,
                z2 >= 1,
                s1 >= 0,
        ;
        assert(z2 * s1 >= z1 * s1 + s1) by (nonlinear_arith)
            requires
                z2 >= z1 + 1,
                s1 >= 0,
        ;
        assert(s1 <= r1);
        assert(z1 * z2 <= numer);
        assert(numer < z1 * (s1 + 1)) by (nonlinear_arith)
            requires
                numer == z1 * s1 + r1,
                r1 < z1,
        ;
        assert(z1 * z2 < z1 * (s1 + 1));
        assert(z2 < s1 + 1) by (nonlinear_arith)
            requires
                z1 * z2 < z1 * (s1 + 1),
                z1 >= 1,
        ;
        assert(z2 <= s1 <= r1 <= z1 - 1);
        assert(false);
    }
}

/// Ten to any power is positive.
pub proof fn lemma_pow10_pos(e: nat)
    ensures
        pow10(e) >= 1,
    decreases e,
{
    if e > 0 {
        lemma_pow10_pos((e - 1) as nat);
    }
}

/// Reaching an ascending threshold is monotone in the zoom factor.
proof fn lemma_up_ok_monotone(z1: int, z2: int, j: int)
    requires
        0 <= z1 <= z2,
        up_ok(z1, j),
    ensures
        up_ok(z2, j),
{
    let p = pow10((5 - j / 8) as nat);
    lemma_pow10_pos((5 - j / 8) as nat);
    assert(z2 * p >= z1 * p) by (nonlinear_arith)
        requires
            z1 <= z2,
            p >= 0,
    ;
}

/// The ascending threshold count is monotone in the zoom factor.
proof fn lemma_up_count_monotone(z1: int, z2: int, j: int)
    requires
        0 <= z1 <= z2,
    ensures
        up_count(z1, j) <= up_count(z2, j),
    decreases j,
{
    if j > 0 {
        lemma_up_count_monotone(z1, z2, j - 1);
        if up_ok(z1, j) {
            lemma_up_ok_monotone(z1, z2, j);
        }
    }
}

/// From zoom factor 1.0 upward, the iteration budget never shrinks as the
/// zoom deepens: a deeper zoom never reduces the escape-time budget.
pub proof fn lemma_iteration_budget_monotone(z1: int, z2: int)
    requires
        SCALE <= z1 <= z2,
    ensures
        max_iterations_spec(z1) <= max_iterations_spec(z2),
{
    lemma_up_count_monotone(z1, z2, 24);
}

/// A resize event forces a redraw on the next tick — it raises the dirty
/// flag even though it leaves the navigation state untouched.
pub proof fn lemma_resize_forces_redraw(s: ViewState, fb_width: i32, fb_height: i32)
    ensures
        state_after(s, InputEvent::Resize(fb_width, fb_height)).dirty,
        state_after(s, InputEvent::Resize(fb_width, fb_height)).nav == s.nav,
        state_after(
            s,
            InputEvent::Resize(fb_width, fb_height),
        ).close_requested == s.close_requested,
{
}

/// The very first tick redraws whatever the input was: the startup state
/// carries a raised dirty flag.
pub proof fn lemma_first_tick_redraws()
    ensures
        initial_view().dirty,
{
}

/// Requesting close twice is the same as requesting it once: Escape
/// handling is idempotent.
pub proof fn lemma_escape_idempotent(s: ViewState)
    ensures
        state_after(
            state_after(s, InputEvent::KeyPress(KeyCode::Escape)),
            InputEvent::KeyPress(KeyCode::Escape),
        ) == state_after(s, InputEvent::KeyPress(KeyCode::Escape)),
{
}

} // verus!
