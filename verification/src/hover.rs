//! Whether the mouse is over the pet or the ring band, which shows the exact
//! percentages.
use vstd::prelude::*;
use crate::geometry::{Point, Rect, fits_i32};

verus! {

/// How close to the pet, in pixels, the mouse counts as over it.
pub const PET_HOVER_PADDING: i32 = 10;

/// How close to the ring window, in pixels, the mouse can be over the band.
pub const RING_HOVER_PADDING: i32 = 4;

/// Where the mouse is, as far as integer geometry decides it.
#[derive(Clone, Copy, Debug, PartialEq, Eq, Structural)]
pub enum MouseOver {
    /// Over the pet (with its padding): the readout shows.
    Pet,
    /// Away from the pet and outside the ring window: no readout.
    Outside,
    /// Inside the ring window at this offset from its top-left corner; the
    /// readout shows where that point lies on the ring band, a test on the
    /// band's radii in the monitor's scale that the caller makes.
    RingWindow { local_x: i32, local_y: i32 },
}

/// The arithmetic of `is_mouse_over` stays in `i32`.
pub open spec fn hover_arith_ok(pet: Option<Rect>, ring: Rect, mouse: Point) -> bool {
    &&& pet matches Some(p) ==> p.contains_arith_ok(mouse, PET_HOVER_PADDING as int)
    &&& !(pet matches Some(p) && p.holds_point(mouse, PET_HOVER_PADDING as int)) ==> {
        &&& ring.contains_arith_ok(mouse, RING_HOVER_PADDING as int)
        &&& ring.holds_point(mouse, RING_HOVER_PADDING as int) ==> {
            &&& i32::MIN <= mouse.x - ring.left <= i32::MAX
            &&& i32::MIN <= mouse.y - ring.top <= i32::MAX
        }
    }
}

/// Where the mouse is: over the pet first, else outside the ring window,
/// else at an offset inside it.
pub open spec fn mouse_over(pet: Option<Rect>, ring: Rect, mouse: Point) -> MouseOver {
    if pet matches Some(p) && p.holds_point(mouse, PET_HOVER_PADDING as int) {
        MouseOver::Pet
    } else if !ring.holds_point(mouse, RING_HOVER_PADDING as int) {
        MouseOver::Outside
    } else {
        MouseOver::RingWindow {
            local_x: (mouse.x - ring.left) as i32,
            local_y: (mouse.y - ring.top) as i32,
        }
    }
}

/// The arithmetic of `is_mouse_over` stays in `i32`: what a caller tests
/// before the call.
pub fn hover_fits(pet: Option<Rect>, ring: Rect, mouse: Point) -> (ok: bool)
    ensures
        ok == hover_arith_ok(pet, ring, mouse),
{
    let over_pet = match pet {
        Some(p) => {
            if !p.contains_fits(mouse, PET_HOVER_PADDING) {
                return false;
            }
            p.contains(mouse, PET_HOVER_PADDING)
        },
        None => false,
    };
    if over_pet {
        return true;
    }
    if !ring.contains_fits(mouse, RING_HOVER_PADDING) {
        return false;
    }
    if !ring.contains(mouse, RING_HOVER_PADDING) {
        return true;
    }
    fits_i32(mouse.x as i64 - ring.left as i64) && fits_i32(mouse.y as i64 - ring.top as i64)
}

/// Where the mouse at `mouse` is relative to the pet frame `pet` and the ring
/// window `ring`.
pub fn is_mouse_over(pet: Option<Rect>, ring: Rect, mouse: Point) -> (r: MouseOver)
    requires
        hover_arith_ok(pet, ring, mouse),
    ensures
        r == mouse_over(pet, ring, mouse),
{
    let over_pet = match pet {
        Some(p) => p.contains(mouse, PET_HOVER_PADDING),
        None => false,
    };
    if over_pet {
        return MouseOver::Pet;
    }
    if !ring.contains(mouse, RING_HOVER_PADDING) {
        return MouseOver::Outside;
    }
    MouseOver::RingWindow { local_x: mouse.x - ring.left, local_y: mouse.y - ring.top }
}

/// The mouse over the pet always shows the readout, wherever the rings are.
pub proof fn law_pet_hover_wins(p: Rect, ring: Rect, mouse: Point)
    requires
        p.holds_point(mouse, 0),
    ensures
        mouse_over(Some(p), ring, mouse) == MouseOver::Pet,
{
}

} // verus!
