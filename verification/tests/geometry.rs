use codex_pet_limit_rings::geometry::{
    candidate_fits, looks_candidate, looks_live_overlay_bounds, looks_same_size, looks_similar_overlay_size,
    rect_from_edges, Point, Rect,
};

fn rect(left: i32, top: i32, width: i32, height: i32) -> Rect {
    Rect { left, top, width, height }
}

#[test]
fn right_bottom_and_center() {
    let r = rect(10, 20, 31, 41);
    assert_eq!(r.right(), 41);
    assert_eq!(r.bottom(), 61);
    assert_eq!(r.center(), (25, 40));
}

#[test]
fn center_rounds_toward_zero_for_negative_sizes() {
    let r = rect(0, 0, -5, -7);
    assert_eq!(r.center(), (-2, -3));
}

#[test]
fn contains_includes_edges_and_padding() {
    let r = rect(100, 100, 50, 50);
    assert!(r.contains(Point { x: 100, y: 100 }, 0));
    assert!(r.contains(Point { x: 150, y: 150 }, 0));
    assert!(!r.contains(Point { x: 151, y: 150 }, 0));
    assert!(r.contains(Point { x: 151, y: 150 }, 1));
    assert!(r.contains(Point { x: 58, y: 192 }, 42));
    assert!(!r.contains(Point { x: 57, y: 100 }, 42));
}

#[test]
fn live_overlay_bounds_limits() {
    assert!(looks_live_overlay_bounds(rect(0, 0, 80, 80)));
    assert!(looks_live_overlay_bounds(rect(0, 0, 1200, 1200)));
    assert!(!looks_live_overlay_bounds(rect(0, 0, 79, 500)));
    assert!(!looks_live_overlay_bounds(rect(0, 0, 500, 1201)));
}

#[test]
fn same_size_ratio_bounds_are_exclusive() {
    let expected = rect(0, 0, 100, 100);
    assert!(!looks_same_size(rect(0, 0, 45, 100), expected));
    assert!(looks_same_size(rect(0, 0, 46, 100), expected));
    assert!(!looks_same_size(rect(0, 0, 220, 100), expected));
    assert!(looks_same_size(rect(0, 0, 219, 100), expected));
    assert!(!looks_same_size(rect(0, 0, 100, 45), expected));
}

#[test]
fn same_size_accepts_anything_against_empty_expectation() {
    assert!(looks_same_size(rect(0, 0, 5000, 1), rect(0, 0, 0, 100)));
    assert!(looks_same_size(rect(0, 0, 5000, 1), rect(0, 0, 100, -3)));
}

#[test]
fn same_size_matches_float_ratios() {
    let expected = rect(0, 0, 333, 77);
    for w in 0..800 {
        let b = rect(0, 0, w, 100);
        let wr = w as f64 / 333.0;
        let hr = 100.0 / 77.0;
        let float = wr > 0.45 && wr < 2.2 && hr > 0.45 && hr < 2.2;
        assert_eq!(looks_same_size(b, expected), float, "width {w}");
    }
}

#[test]
fn similar_size_ratio_bounds() {
    let prev = rect(0, 0, 100, 100);
    assert!(!looks_similar_overlay_size(rect(0, 0, 70, 100), prev));
    assert!(looks_similar_overlay_size(rect(0, 0, 71, 100), prev));
    assert!(!looks_similar_overlay_size(rect(0, 0, 145, 100), prev));
    assert!(looks_similar_overlay_size(rect(0, 0, 144, 144), prev));
    assert!(!looks_similar_overlay_size(rect(0, 0, 100, 100), rect(0, 0, 0, 100)));
}

#[test]
fn similar_size_matches_float_ratios() {
    let prev = rect(0, 0, 211, 97);
    for w in 0..500 {
        let b = rect(0, 0, w, 97);
        let wr = w as f64 / 211.0;
        let float = wr > 0.70 && wr < 1.45;
        assert_eq!(looks_similar_overlay_size(b, prev), float, "width {w}");
    }
}

#[test]
fn candidate_needs_overlay_size() {
    assert!(!looks_candidate(rect(0, 0, 50, 50), rect(0, 0, 50, 50)));
}

#[test]
fn candidate_of_same_size_is_accepted_anywhere() {
    assert!(looks_candidate(rect(5000, 5000, 200, 200), rect(0, 0, 200, 200)));
}

#[test]
fn candidate_of_other_size_must_be_near() {
    let expected = rect(0, 0, 50, 50);
    // Centers 899 apart: within the 900 pixel reach.
    assert!(looks_candidate(rect(899 - 100 + 25, -25, 200, 100), expected));
    // Centers 900 apart: out of reach.
    assert!(!looks_candidate(rect(900 - 100 + 25, -25, 200, 100), expected));
}

#[test]
fn candidate_reach_grows_with_expected_size() {
    let expected = rect(0, 0, 300, 20);
    // Reach is 4 * 300 = 1200; sizes differ so only distance counts.
    let center = expected.center();
    let b = rect(center.0 + 1199 - 500, center.1 - 500, 1000, 1000);
    assert_eq!(b.center().0 - center.0, 1199);
    assert!(looks_candidate(b, expected));
    let b2 = rect(center.0 + 1200 - 500, center.1 - 500, 1000, 1000);
    assert!(!looks_candidate(b2, expected));
}

#[test]
fn rect_from_edges_requires_area() {
    assert_eq!(rect_from_edges(10, 20, 110, 70), Some(rect(10, 20, 100, 50)));
    assert_eq!(rect_from_edges(10, 20, 10, 70), None);
    assert_eq!(rect_from_edges(10, 20, 110, 19), None);
}

#[test]
fn default_rect_is_zero() {
    assert_eq!(Rect::default(), rect(0, 0, 0, 0));
}

#[test]
fn similar_size_implies_same_size_example() {
    let prev = rect(0, 0, 300, 300);
    let b = rect(0, 0, 400, 250);
    assert!(looks_similar_overlay_size(b, prev));
    assert!(looks_same_size(b, prev));
}

#[test]
fn contains_and_candidate_fit_checks() {
    assert!(rect(0, 0, 10, 10).contains_fits(Point { x: 5, y: 5 }, 42));
    assert!(!rect(i32::MAX - 5, 0, 10, 10).contains_fits(Point { x: i32::MAX, y: 0 }, 0));
    // A point left of the rectangle stops the test before the right edge.
    assert!(rect(0, 0, i32::MAX, 10).contains_fits(Point { x: -100, y: 0 }, 0));
    assert!(candidate_fits(rect(0, 0, 300, 300), rect(2000, 2000, 200, 200)));
    assert!(!candidate_fits(rect(0, 0, 300, 300), rect(0, 0, 600_000_000, 10)));
}
