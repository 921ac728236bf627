//! Tests of the mode/page state machine and the panel router.

use class_notes::router::{MainSurface, RenderPlan};
use class_notes::state::{ClassNotes, Mode, Page, DEFAULT_VALUE_TENTHS};

fn default_state() -> ClassNotes {
    ClassNotes::load(None)
}

#[test]
fn selecting_active_mode_is_a_no_op() {
    let mut s = default_state();
    let redraw = s.select_mode(Mode::NOTES);
    assert!(!redraw);
    assert_eq!(s.mode, Mode::NOTES);
    assert_eq!(s.page, Page::NONE);
    assert_eq!(s.label, "Hello World!");
    assert_eq!(s.value_tenths, DEFAULT_VALUE_TENTHS);
}

#[test]
fn selecting_other_mode_requests_redraw() {
    let mut s = default_state();
    let redraw = s.select_mode(Mode::NONE);
    assert!(redraw);
    assert_eq!(s.mode, Mode::NONE);
    // The page is retained across mode changes.
    assert_eq!(s.page, Page::NONE);
    let redraw = s.select_mode(Mode::NONE);
    assert!(!redraw);
}

#[test]
fn none_mode_renders_empty_surface() {
    let mut s = default_state();
    s.select_mode(Mode::NONE);
    let plan = s.render_plan();
    assert_eq!(
        plan,
        RenderPlan { side_panel: false, main: MainSurface::Empty, floating_window: false }
    );
}

#[test]
fn default_page_renders_welcome_surface() {
    let s = default_state();
    let plan = s.render_plan();
    assert_eq!(
        plan,
        RenderPlan { side_panel: true, main: MainSurface::Welcome, floating_window: true }
    );
}

#[test]
fn page_is_inert_while_mode_is_none() {
    let mut s = default_state();
    s.set_page(Page::KthSmallestIntro);
    s.select_mode(Mode::NONE);
    let plan = s.render_plan();
    assert_eq!(plan.main, MainSurface::Empty);
    assert!(!plan.side_panel);
    // The page value itself is kept.
    assert_eq!(s.page, Page::KthSmallestIntro);
}

#[test]
fn intro_click_scenario() {
    // Start from defaults; the user clicks "Intro" under "Kth Smallest".
    let mut s = default_state();
    s.set_page(Page::KthSmallestIntro);
    assert_eq!(s.page, Page::KthSmallestIntro);
    assert_eq!(s.mode, Mode::NOTES);
    let plan = s.render_plan();
    // The main area shows the (currently empty) intro surface and the
    // side panel stays visible.
    assert_eq!(plan.main, MainSurface::KthSmallestIntro);
    assert!(plan.side_panel);
}

#[test]
fn label_edit_scenario() {
    // The user types "abc" into the label field.
    let mut s = default_state();
    s.set_label("abc".to_owned());
    assert_eq!(s.label, "abc");
    // Persisting and reloading keeps the edit.
    let r = ClassNotes::load(Some(s.save()));
    assert_eq!(r.label, "abc");
}

#[test]
fn increment_five_times_scenario() {
    // Five clicks of "Increment" from the default 3.1 reach 8.1.
    let mut s = default_state();
    for _ in 0..5 {
        s.increment_value();
    }
    assert_eq!(s.value_tenths, 81);
    assert!((s.value_tenths as f32 / 10.0 - 8.1f32).abs() < 1e-6);
    // Restarting resets the value regardless.
    let r = ClassNotes::load(Some(s.save()));
    assert_eq!(r.value_tenths, DEFAULT_VALUE_TENTHS);
}

#[test]
fn slider_writes_bounded_value() {
    let mut s = default_state();
    s.set_value_tenths(100);
    assert_eq!(s.value_tenths, 100);
    s.set_value_tenths(0);
    assert_eq!(s.value_tenths, 0);
    // Increments are not clamped to the slider's displayed range.
    s.set_value_tenths(100);
    s.increment_value();
    assert_eq!(s.value_tenths, 110);
}
