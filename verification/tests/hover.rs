use codex_pet_limit_rings::geometry::{Point, Rect};
use codex_pet_limit_rings::hover::{hover_fits, is_mouse_over, MouseOver};

#[test]
fn over_pet_with_padding() {
    let pet = Rect { left: 100, top: 100, width: 50, height: 50 };
    let ring = Rect { left: 0, top: 0, width: 10, height: 10 };
    assert_eq!(is_mouse_over(Some(pet), ring, Point { x: 90, y: 160 }), MouseOver::Pet);
}

#[test]
fn outside_ring_window() {
    let ring = Rect { left: 100, top: 100, width: 200, height: 200 };
    assert_eq!(is_mouse_over(None, ring, Point { x: 95, y: 150 }), MouseOver::Outside);
}

#[test]
fn inside_ring_window_gives_local_offset() {
    let ring = Rect { left: 100, top: 100, width: 200, height: 200 };
    assert_eq!(
        is_mouse_over(None, ring, Point { x: 97, y: 150 }),
        MouseOver::RingWindow { local_x: -3, local_y: 50 }
    );
}

#[test]
fn hover_fit_check() {
    let ring = Rect { left: 0, top: 0, width: 100, height: 100 };
    assert!(hover_fits(None, ring, Point { x: 50, y: 50 }));
    let wide = Rect { left: -2_000_000_000, top: 0, width: i32::MAX, height: 10 };
    assert!(!hover_fits(None, wide, Point { x: 147_483_650, y: 5 }));
    assert!(hover_fits(None, wide, Point { x: 100_000_000, y: 500 }));
}
