use fractal_nav::budget::iteration_budget;
use fractal_nav::input::InputEvent;
use fractal_nav::input::KeyCode;
use fractal_nav::input::ViewState;
use fractal_nav::nav::NavState;
use fractal_nav::nav::BASE_STEP_UNITS;
use fractal_nav::nav::ZOOM_MAX_UNITS;
use fractal_nav::SCALE;

fn press(s: &mut ViewState, k: KeyCode) {
    s.apply_event(InputEvent::KeyPress(k));
}

#[test]
fn initial_state_matches_startup_view() {
    let s = ViewState::initial();
    assert_eq!(s.nav.pan_x, 750_000);
    assert_eq!(s.nav.pan_y, 0);
    assert_eq!(s.nav.zoom, 1_000_000);
    assert!(s.dirty);
    assert!(!s.close_requested);
    assert_eq!(s.nav.pan_x as f64 / SCALE as f64, 0.75);
}

#[test]
fn zoom_in_once_from_initial() {
    let mut s = ViewState::initial();
    press(&mut s, KeyCode::E);
    assert_eq!(s.nav.zoom, 1_200_000);
    assert_eq!(s.nav.zoom as f64 / SCALE as f64, 1.2);
    assert_eq!(s.nav.pan_x, 750_000);
    assert_eq!(s.nav.pan_y, 0);
    assert!(s.dirty);
}

#[test]
fn zoom_in_then_out_gives_096() {
    let mut s = ViewState::initial();
    press(&mut s, KeyCode::E);
    press(&mut s, KeyCode::Q);
    assert_eq!(s.nav.zoom, 960_000);
    assert_eq!(s.nav.zoom as f64 / SCALE as f64, 0.96);
}

#[test]
fn pan_up_once_at_zoom_one() {
    let mut s = ViewState::initial();
    press(&mut s, KeyCode::W);
    assert_eq!(s.nav.pan_y, -50_000);
    assert_eq!(s.nav.pan_y as f64 / SCALE as f64, -0.05);
    assert_eq!(s.nav.pan_x, 750_000);
    assert_eq!(s.nav.zoom, 1_000_000);
}

#[test]
fn each_pan_key_moves_exactly_one_axis() {
    for (k, dx, dy) in [
        (KeyCode::W, 0i64, -50_000i64),
        (KeyCode::S, 0, 50_000),
        (KeyCode::A, 50_000, 0),
        (KeyCode::D, -50_000, 0),
    ] {
        let mut s = ViewState::initial();
        press(&mut s, k);
        assert_eq!(s.nav.pan_x, 750_000 + dx);
        assert_eq!(s.nav.pan_y, dy);
        assert_eq!(s.nav.zoom, 1_000_000);
        assert!(s.dirty);
    }
}

#[test]
fn pan_step_halves_as_zoom_doubles() {
    let shallow = NavState {
        pan_x: 0,
        pan_y: 0,
        zoom: 1_000_000,
    };
    let deep = NavState { zoom: 10_000_000, ..shallow };
    let deeper = NavState { zoom: ZOOM_MAX_UNITS, ..shallow };
    assert_eq!(shallow.pan_step(), 50_000);
    assert_eq!(deep.pan_step(), 5_000);
    assert_eq!(deeper.pan_step(), 50);
    assert!(deep.pan_step() < shallow.pan_step());
    assert!(deeper.pan_step() < deep.pan_step());
    assert_eq!(shallow.pan_step(), BASE_STEP_UNITS * SCALE / shallow.zoom);
}

#[test]
fn zoom_clamps_at_upper_bound() {
    let mut s = ViewState::initial();
    for _ in 0..200 {
        press(&mut s, KeyCode::E);
        assert!(0 < s.nav.zoom && s.nav.zoom <= ZOOM_MAX_UNITS);
    }
    assert_eq!(s.nav.zoom, ZOOM_MAX_UNITS);
    press(&mut s, KeyCode::E);
    assert_eq!(s.nav.zoom, ZOOM_MAX_UNITS);
}

#[test]
fn zoom_stays_positive_under_zoom_out() {
    let mut s = ViewState::initial();
    for _ in 0..200 {
        press(&mut s, KeyCode::Q);
        assert!(0 < s.nav.zoom && s.nav.zoom <= ZOOM_MAX_UNITS);
    }
    assert_eq!(s.nav.zoom, 1);
}

#[test]
fn mixed_zoom_sequence_stays_in_range() {
    let mut s = ViewState::initial();
    for i in 0..500 {
        let k = if i % 3 == 0 { KeyCode::Q } else { KeyCode::E };
        press(&mut s, k);
        assert!(0 < s.nav.zoom && s.nav.zoom <= ZOOM_MAX_UNITS);
    }
}

#[test]
fn iteration_budget_at_zoom_ten_is_108() {
    assert_eq!(iteration_budget(10_000_000), 108);
}

#[test]
fn iteration_budget_sample_values() {
    assert_eq!(iteration_budget(1_000_000), 100);
    assert_eq!(iteration_budget(1_200_000), 100);
    assert_eq!(iteration_budget(2_000_000), 102);
    assert_eq!(iteration_budget(100_000), 108);
    assert_eq!(iteration_budget(ZOOM_MAX_UNITS), 124);
    assert_eq!(iteration_budget(1), 148);
}

#[test]
fn iteration_budget_never_shrinks_with_deeper_zoom() {
    let mut previous = iteration_budget(1_000_000);
    let mut zoom: u64 = 1_000_000;
    while zoom < ZOOM_MAX_UNITS {
        zoom = (zoom * 12 / 10).min(ZOOM_MAX_UNITS);
        let budget = iteration_budget(zoom);
        assert!(budget >= previous);
        previous = budget;
    }
}

#[test]
fn first_tick_redraws_and_clears_dirty() {
    let mut s = ViewState::initial();
    let uniforms = s.frame(1024, 768).expect("first tick must redraw");
    assert_eq!(uniforms.window_size, 768);
    assert_eq!(uniforms.step_x, 750_000);
    assert_eq!(uniforms.step_y, 0);
    assert_eq!(uniforms.zoom, 1_000_000);
    assert_eq!(uniforms.max_iterations, 100);
    assert!(!s.dirty);
}

#[test]
fn window_size_is_smaller_framebuffer_side() {
    let mut s = ViewState::initial();
    let uniforms = s.frame(600, 800).expect("first tick must redraw");
    assert_eq!(uniforms.window_size, 600);
}

#[test]
fn quiet_tick_performs_zero_draw_calls() {
    let mut s = ViewState::initial();
    let mut draw_calls: u32 = 0;
    for _ in 0..10 {
        let no_events: Vec<InputEvent> = Vec::new();
        s.process_events(&no_events);
        if s.frame(1024, 768).is_some() {
            draw_calls += 1;
        }
    }
    assert_eq!(draw_calls, 1);
}

#[test]
fn key_press_makes_next_tick_redraw() {
    let mut s = ViewState::initial();
    s.frame(1024, 768);
    assert!(s.frame(1024, 768).is_none());
    press(&mut s, KeyCode::E);
    let uniforms = s.frame(1024, 768).expect("a key press must force a redraw");
    assert_eq!(uniforms.zoom, 1_200_000);
    assert_eq!(uniforms.max_iterations, 100);
    assert!(s.frame(1024, 768).is_none());
}

#[test]
fn resize_forces_redraw_without_key_press() {
    let mut s = ViewState::initial();
    s.frame(1024, 768);
    assert!(s.frame(1024, 768).is_none());
    s.apply_event(InputEvent::Resize(640, 480));
    assert_eq!(s.nav, ViewState::initial().nav);
    let uniforms = s.frame(640, 480).expect("a resize must force a redraw");
    assert_eq!(uniforms.window_size, 480);
}

#[test]
fn unrecognized_events_are_ignored() {
    let mut s = ViewState::initial();
    s.frame(1024, 768);
    let before = s;
    s.apply_event(InputEvent::KeyPress(KeyCode::Other));
    s.apply_event(InputEvent::Other);
    assert_eq!(s, before);
    assert!(s.frame(1024, 768).is_none());
}

#[test]
fn escape_requests_close_idempotently() {
    let mut s = ViewState::initial();
    s.frame(1024, 768);
    press(&mut s, KeyCode::Escape);
    assert!(s.close_requested);
    assert!(!s.dirty, "escape is not a state mutation and must not dirty the view");
    let once = s;
    press(&mut s, KeyCode::Escape);
    assert_eq!(s, once);
}

#[test]
fn events_are_applied_in_order() {
    let mut s = ViewState::initial();
    let events = vec![
        InputEvent::KeyPress(KeyCode::E),
        InputEvent::KeyPress(KeyCode::W),
        InputEvent::KeyPress(KeyCode::Q),
    ];
    s.process_events(&events);
    // W happened at zoom 1.2, so the step was 50_000 * SCALE / 1_200_000.
    assert_eq!(s.nav.pan_y, -41_666);
    assert_eq!(s.nav.zoom, 960_000);
    assert!(s.dirty);
}

#[test]
fn pan_saturates_at_i64_extremes() {
    let mut s = ViewState::initial();
    s.nav.pan_y = i64::MAX - 10;
    press(&mut s, KeyCode::S);
    assert_eq!(s.nav.pan_y, i64::MAX);
    s.nav.pan_y = i64::MIN + 10;
    press(&mut s, KeyCode::W);
    assert_eq!(s.nav.pan_y, i64::MIN);
}
