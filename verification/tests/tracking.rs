use codex_pet_limit_rings::geometry::Rect;
use codex_pet_limit_rings::timer::InstantCell;
use codex_pet_limit_rings::tracker::{
    is_codex_image_path, LiveOverlayRead, PetOverlayWindowTracker, WindowCandidate, WindowProbe,
    SEARCH_RETRY_MS,
};

fn rect(left: i32, top: i32, width: i32, height: i32) -> Rect {
    Rect { left, top, width, height }
}

#[test]
fn instant_cell_deadlines() {
    let mut cell = InstantCell::default();
    assert!(cell.elapsed(-5));
    cell.reset_after(1000, 450);
    assert_eq!(cell.deadline, Some(1450));
    assert!(!cell.elapsed(1449));
    assert!(cell.elapsed(1450));
    cell.reset_now();
    assert!(cell.elapsed(0));
}

#[test]
fn fresh_tracker_searches_at_once() {
    let mut t = PetOverlayWindowTracker::new();
    let probe = WindowProbe { alive: false, bounds: None };
    assert_eq!(t.read_live_overlay_frame(rect(0, 0, 200, 200), probe, 0), LiveOverlayRead::SearchNeeded);
    assert_eq!(t.current_handle(), 0);
}

#[test]
fn failed_search_waits_before_the_next() {
    let mut t = PetOverlayWindowTracker::new();
    assert_eq!(t.accept_search(None, 1000), None);
    let probe = WindowProbe { alive: false, bounds: None };
    let expected = rect(0, 0, 200, 200);
    assert_eq!(t.read_live_overlay_frame(expected, probe, 1000 + SEARCH_RETRY_MS as i64 - 1), LiveOverlayRead::Waiting);
    assert_eq!(t.read_live_overlay_frame(expected, probe, 1000 + SEARCH_RETRY_MS as i64), LiveOverlayRead::SearchNeeded);
}

#[test]
fn found_window_is_followed() {
    let mut t = PetOverlayWindowTracker::new();
    let found = WindowCandidate { handle: 77, bounds: rect(10, 10, 300, 300) };
    assert_eq!(t.accept_search(Some(found), 5), Some(rect(10, 10, 300, 300)));
    assert_eq!(t.current_handle(), 77);
    let probe = WindowProbe { alive: true, bounds: Some(rect(20, 20, 300, 300)) };
    assert_eq!(
        t.read_live_overlay_frame(rect(0, 0, 290, 310), probe, 6),
        LiveOverlayRead::Following(rect(20, 20, 300, 300))
    );
    assert_eq!(t.last_bounds, Some(rect(20, 20, 300, 300)));
}

#[test]
fn similar_size_keeps_window_when_expectation_differs() {
    let mut t = PetOverlayWindowTracker::new();
    t.accept_search(Some(WindowCandidate { handle: 3, bounds: rect(0, 0, 300, 300) }), 0);
    // Expected size is far off, but the window stays similar to its last size.
    let probe = WindowProbe { alive: true, bounds: Some(rect(0, 0, 400, 400)) };
    assert_eq!(t.try_read_tracked(rect(0, 0, 100, 100), probe), Some(rect(0, 0, 400, 400)));
    // A jump to a very different size that also misses the expectation drops it.
    let probe2 = WindowProbe { alive: true, bounds: Some(rect(0, 0, 1000, 1000)) };
    assert_eq!(t.try_read_tracked(rect(0, 0, 100, 100), probe2), None);
    assert_eq!(t.current_handle(), 0);
    assert_eq!(t.last_bounds, None);
}

#[test]
fn dead_window_is_dropped_but_missing_bounds_keep_it() {
    let mut t = PetOverlayWindowTracker::new();
    t.accept_search(Some(WindowCandidate { handle: 9, bounds: rect(0, 0, 300, 300) }), 0);
    let no_bounds = WindowProbe { alive: true, bounds: None };
    assert_eq!(t.try_read_tracked(rect(0, 0, 300, 300), no_bounds), None);
    assert_eq!(t.current_handle(), 9);
    let dead = WindowProbe { alive: false, bounds: Some(rect(0, 0, 300, 300)) };
    assert_eq!(t.try_read_tracked(rect(0, 0, 300, 300), dead), None);
    assert_eq!(t.current_handle(), 0);
}

#[test]
fn codex_image_paths() {
    assert!(is_codex_image_path(r"C:\Users\me\AppData\Local\Programs\Codex\Codex.exe"));
    assert!(is_codex_image_path(r"C:\APPS\CODEX.EXE"));
    assert!(is_codex_image_path("/opt/codex/codex.exe"));
    assert!(!is_codex_image_path("codex.exe"));
    assert!(!is_codex_image_path(r"C:\apps\mycodex.exe"));
    assert!(!is_codex_image_path(r"C:\apps\codex.exe.bak"));
}
