use overlay_sync::arbiter::{relative_cursor, ClickThroughArbiter, PopupRect};
use overlay_sync::bounds::{
    get_appropriate_window_bounds, bounds_are_sane, fallback_bounds, toast_position, BoundsTracker,
    WindowRect,
};
use overlay_sync::focus::{
    active_window_indicates_focus, is_diablo_focused, window_title_matches, FocusMonitor,
    ForegroundHook,
};
use overlay_sync::focus::{cleanup_foreground_monitoring, initialize_foreground_monitoring};
use overlay_sync::system::is_elevated;

#[test]
fn focus_publications_deduplicate_adjacent_samples() {
    let mut m = FocusMonitor::new();
    let samples = [true, true, false, false, false, true];
    let mut published = Vec::new();
    for s in samples {
        if let Some(v) = m.observe(s) {
            published.push(v);
        }
    }
    assert_eq!(published, vec![true, false, true]);
}

#[test]
fn first_focus_sample_always_publishes() {
    let mut m = FocusMonitor::new();
    assert_eq!(m.observe(false), Some(false));
    assert_eq!(m.observe(false), None);
}

#[test]
fn focus_policy_requires_the_window_to_exist() {
    assert!(!is_diablo_focused(None, 7, 42, 42));
    assert!(is_diablo_focused(Some(7), 7, 1, 2));
    assert!(is_diablo_focused(Some(7), 9, 42, 42));
    assert!(!is_diablo_focused(Some(7), 9, 41, 42));
}

#[test]
fn title_match_recognizes_game_and_overlay_windows() {
    assert!(window_title_matches("Diablo II: Lord of Destruction"));
    assert!(window_title_matches("PD2Trade: Chat"));
    assert!(!window_title_matches("Some Editor"));
    assert!(active_window_indicates_focus(true, "Some Editor", false));
    assert!(active_window_indicates_focus(false, "Some Editor", true));
    assert!(!active_window_indicates_focus(false, "Some Editor", false));
}

#[test]
fn foreground_hook_bookkeeping_is_idempotent() {
    let mut h = ForegroundHook::new();
    assert!(!h.installed);
    initialize_foreground_monitoring(&mut h);
    assert!(h.installed);
    cleanup_foreground_monitoring(&mut h);
    assert!(!h.installed);
    cleanup_foreground_monitoring(&mut h);
    assert!(!h.installed);
}

#[test]
fn elevation_is_always_granted() {
    assert!(is_elevated());
}

#[test]
fn first_bounds_sample_emits_zero_delta() {
    let mut t = BoundsTracker::new();
    let r = WindowRect { x: 10, y: 20, width: 640, height: 480 };
    let e = t.sample(Some(r)).expect("first sample emits");
    assert_eq!(e.rect, r);
    assert_eq!(e.dx, 0);
    assert_eq!(e.dy, 0);
}

#[test]
fn unchanged_bounds_do_not_emit() {
    let mut t = BoundsTracker::new();
    let r = WindowRect { x: 10, y: 20, width: 640, height: 480 };
    t.sample(Some(r));
    assert!(t.sample(Some(r)).is_none());
}

#[test]
fn changed_bounds_emit_the_signed_delta() {
    let mut t = BoundsTracker::new();
    t.sample(Some(WindowRect { x: 100, y: 200, width: 640, height: 480 }));
    let e = t
        .sample(Some(WindowRect { x: 70, y: 260, width: 640, height: 480 }))
        .expect("moved window emits");
    assert_eq!(e.dx, -30);
    assert_eq!(e.dy, 60);
}

#[test]
fn resize_alone_also_emits() {
    let mut t = BoundsTracker::new();
    t.sample(Some(WindowRect { x: 0, y: 0, width: 640, height: 480 }));
    let e = t
        .sample(Some(WindowRect { x: 0, y: 0, width: 800, height: 480 }))
        .expect("resized window emits");
    assert_eq!(e.dx, 0);
    assert_eq!(e.dy, 0);
    assert_eq!(e.rect.width, 800);
}

#[test]
fn failed_sample_is_skipped_and_forgotten() {
    let mut t = BoundsTracker::new();
    let r = WindowRect { x: 1, y: 2, width: 3, height: 4 };
    t.sample(Some(r));
    assert!(t.sample(None).is_none());
    assert!(t.sample(Some(r)).is_none());
}

#[test]
fn bounds_policy_prefers_the_focused_window() {
    let d2 = WindowRect { x: 5, y: 6, width: 800, height: 600 };
    let wa = WindowRect { x: 0, y: 0, width: 1920, height: 1040 };
    assert_eq!(get_appropriate_window_bounds(true, Some(d2), Some(wa)), Some(d2));
    assert_eq!(get_appropriate_window_bounds(false, Some(d2), Some(wa)), Some(wa));
    assert_eq!(get_appropriate_window_bounds(true, None, Some(wa)), Some(wa));
    assert_eq!(get_appropriate_window_bounds(false, None, None), None);
    assert_eq!(
        fallback_bounds(),
        WindowRect { x: 0, y: 0, width: 1920, height: 1080 }
    );
}

#[test]
fn toast_sits_in_the_bottom_right_corner() {
    let b = WindowRect { x: 0, y: 0, width: 1920, height: 1080 };
    assert_eq!(toast_position(&b), (1510, 870));
    let b2 = WindowRect { x: 100, y: 50, width: 800, height: 600 };
    assert_eq!(toast_position(&b2), (100 + 800 - 410, 50 + 600 - 210));
}

#[test]
fn absurd_bounds_are_rejected() {
    assert!(bounds_are_sane(800, 600, 100, 100));
    assert!(!bounds_are_sane(10001, 600, 100, 100));
    assert!(!bounds_are_sane(800, 10001, 100, 100));
    assert!(!bounds_are_sane(800, 600, 50001, 100));
    assert!(!bounds_are_sane(800, 600, 100, -50001));
}

#[test]
fn cursor_inside_a_rect_makes_the_window_interactive() {
    let mut a = ClickThroughArbiter::new();
    a.register_popup_rects(1, vec![PopupRect { left: 10, top: 10, right: 20, bottom: 20 }]);
    // first evaluation always decides; cursor on the inclusive edge
    assert_eq!(a.evaluate(1, 10, 20), Some(false));
    a.note_applied(1, false);
    // unchanged computed state issues no second toggle
    assert_eq!(a.evaluate(1, 15, 15), None);
    // leaving every rect flips to click-through
    assert_eq!(a.evaluate(1, 21, 15), Some(true));
    a.note_applied(1, true);
    assert_eq!(a.evaluate(1, 30, 30), None);
}

#[test]
fn failed_toggle_is_owed_again_next_tick() {
    let mut a = ClickThroughArbiter::new();
    a.register_popup_rects(1, vec![PopupRect { left: 0, top: 0, right: 5, bottom: 5 }]);
    assert_eq!(a.evaluate(1, 3, 3), Some(false));
    // the platform call failed, so nothing was recorded
    assert_eq!(a.evaluate(1, 3, 3), Some(false));
}

#[test]
fn first_evaluation_toggles_even_for_a_default_state() {
    let mut a = ClickThroughArbiter::new();
    a.register_popup_rects(1, Vec::new());
    // click-through would be the default, yet the first tick toggles
    assert_eq!(a.evaluate(1, 0, 0), Some(true));
    a.note_applied(1, true);
    assert_eq!(a.evaluate(1, 0, 0), None);
}

#[test]
fn empty_rect_list_is_always_click_through() {
    let mut a = ClickThroughArbiter::new();
    a.register_popup_rects(9, Vec::new());
    for (x, y) in [(0i64, 0i64), (-100, 50), (10000, -10000)] {
        let r = a.evaluate(9, x, y);
        assert!(r == Some(true) || r.is_none());
        if let Some(s) = r {
            a.note_applied(9, s);
        }
    }
    // a non-empty registration makes it interactive again
    a.register_popup_rects(9, vec![PopupRect { left: -1, top: -1, right: 1, bottom: 1 }]);
    assert_eq!(a.evaluate(9, 0, 0), Some(false));
}

#[test]
fn registration_replaces_the_list_and_keeps_other_windows() {
    let mut a = ClickThroughArbiter::new();
    a.register_popup_rects(1, vec![PopupRect { left: 0, top: 0, right: 10, bottom: 10 }]);
    a.register_popup_rects(2, vec![PopupRect { left: 50, top: 50, right: 60, bottom: 60 }]);
    a.register_popup_rects(1, vec![PopupRect { left: 100, top: 100, right: 110, bottom: 110 }]);
    // the old zone of window 1 is gone
    assert_eq!(a.evaluate(1, 5, 5), Some(true));
    // window 2 is untouched
    assert_eq!(a.evaluate(2, 55, 55), Some(false));
}

#[test]
fn unregistered_windows_are_never_toggled() {
    let a = ClickThroughArbiter::new();
    assert_eq!(a.evaluate(77, 0, 0), None);
}

#[test]
fn arbiter_starts_exactly_once() {
    let mut a = ClickThroughArbiter::new();
    assert!(a.start());
    assert!(!a.start());
}

#[test]
fn relative_cursor_subtracts_the_window_origin() {
    assert_eq!(relative_cursor(100, 200, 30, 50), (70, 150));
    assert_eq!(relative_cursor(-10, 5, 20, -5), (-30, 10));
}
