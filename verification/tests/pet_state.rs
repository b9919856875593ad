use codex_pet_limit_rings::geometry::Rect;
use codex_pet_limit_rings::pet_state::{
    find_snapshot, overlay_open, rect_from_value, OpenFlag, OverlayBounds, OverlayDocument,
    OverlayRoot, PetFrameReader, PetFrameSnapshot, RectNumbers, SnapshotSearch,
};

fn nums(x: i32, y: i32, w: i32, h: i32) -> RectNumbers {
    RectNumbers { x: Some(x), y: Some(y), width: Some(w), height: Some(h) }
}

fn bounds(anchor: Option<RectNumbers>) -> OverlayBounds {
    OverlayBounds {
        frame: nums(1000, 500, 400, 300),
        mascot: Some(nums(100, 50, 120, 0)),
        mascot_screen_left: Some(1100),
        mascot_screen_top: Some(550),
        anchor,
    }
}

fn root(open: OpenFlag, b: Option<OverlayBounds>) -> OverlayRoot {
    OverlayRoot { open, bounds: b }
}

fn doc(roots: Vec<OverlayRoot>) -> OverlayDocument {
    OverlayDocument { roots }
}

#[test]
fn open_flag_rules() {
    assert!(overlay_open(OpenFlag::Absent));
    assert!(overlay_open(OpenFlag::Flag(true)));
    assert!(!overlay_open(OpenFlag::Flag(false)));
    assert!(!overlay_open(OpenFlag::Number(Some(0))));
    assert!(overlay_open(OpenFlag::Number(Some(1))));
    assert!(overlay_open(OpenFlag::Number(None)));
}

#[test]
fn rect_numbers_need_all_four() {
    assert_eq!(rect_from_value(nums(1, 2, 0, -4)), Some(Rect { left: 1, top: 2, width: 1, height: 1 }));
    let missing = RectNumbers { x: Some(1), y: None, width: Some(3), height: Some(4) };
    assert_eq!(rect_from_value(missing), None);
}

#[test]
fn snapshot_uses_fallback_anchor() {
    let roots = vec![root(OpenFlag::Absent, Some(bounds(None)))];
    let expected = PetFrameSnapshot {
        overlay: Rect { left: 1000, top: 500, width: 400, height: 300 },
        mascot: Rect { left: 100, top: 50, width: 120, height: 1 },
        anchor: Rect { left: 1100, top: 550, width: 120, height: 1 },
    };
    assert_eq!(find_snapshot(&roots), SnapshotSearch::Found(expected));
}

#[test]
fn snapshot_prefers_saved_anchor() {
    let roots = vec![root(OpenFlag::Flag(true), Some(bounds(Some(nums(7, 8, 90, 91)))))];
    match find_snapshot(&roots) {
        SnapshotSearch::Found(s) => assert_eq!(s.anchor, Rect { left: 7, top: 8, width: 90, height: 91 }),
        other => panic!("unexpected {other:?}"),
    }
}

#[test]
fn closed_overlay_has_no_pet_and_second_root_is_searched() {
    let closed = vec![root(OpenFlag::Flag(false), Some(bounds(None)))];
    assert_eq!(find_snapshot(&closed), SnapshotSearch::NoPet);
    let second = vec![root(OpenFlag::Absent, None), root(OpenFlag::Absent, Some(bounds(None)))];
    assert!(matches!(find_snapshot(&second), SnapshotSearch::Found(_)));
}

#[test]
fn missing_number_stops_the_search() {
    let mut b = bounds(None);
    b.frame.width = None;
    let roots = vec![root(OpenFlag::Absent, Some(b)), root(OpenFlag::Absent, Some(bounds(None)))];
    assert_eq!(find_snapshot(&roots), SnapshotSearch::Incomplete);
}

#[test]
fn reader_caches_by_modification_time() {
    let mut reader = PetFrameReader::new("state.json".to_string());
    assert!(reader.needs_document(Some(10)));
    let frame = reader.read_pet_frame(Some(10), Some(doc(vec![root(OpenFlag::Absent, Some(bounds(None)))])));
    assert_eq!(frame, Some(Rect { left: 1100, top: 550, width: 120, height: 1 }));
    assert!(!reader.needs_document(Some(10)));
    // Same time: the cached frame, whatever the document says now.
    assert_eq!(reader.read_pet_frame(Some(10), None), frame);
    // Unknown time: always read.
    assert!(reader.needs_document(None));
    assert_eq!(reader.read_pet_frame(None, None), None);
}

#[test]
fn incomplete_or_unreadable_file_leaves_cache() {
    let mut reader = PetFrameReader::new("s".to_string());
    reader.read_snapshot(Some(1), Some(doc(vec![root(OpenFlag::Absent, Some(bounds(None)))])));
    let mut b = bounds(None);
    b.mascot_screen_top = None;
    assert_eq!(reader.read_snapshot(Some(2), Some(doc(vec![root(OpenFlag::Absent, Some(b))]))), None);
    assert_eq!(reader.cached_modified, Some(1));
    assert!(reader.cached.is_some());
    // A file that says the pet is gone clears the cache.
    assert_eq!(reader.read_snapshot(Some(3), Some(doc(vec![root(OpenFlag::Flag(false), None)]))), None);
    assert_eq!(reader.cached_modified, Some(3));
    assert_eq!(reader.cached, None);
}
