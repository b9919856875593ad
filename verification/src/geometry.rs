//! Screen geometry: rectangles, points, and the size tests that decide whether a
//! window looks like the Codex pet overlay.
use vstd::prelude::*;

verus! {

/// A point in physical screen pixels.
#[derive(Clone, Copy, Debug, PartialEq, Eq, Structural)]
pub struct Point {
    pub x: i32,
    pub y: i32,
}

/// An axis-aligned rectangle: its top-left corner and its size, in physical pixels.
#[derive(Clone, Copy, Debug, PartialEq, Eq, Structural)]
pub struct Rect {
    pub left: i32,
    pub top: i32,
    pub width: i32,
    pub height: i32,
}

/// `v` fits in an `i32`.
pub open spec fn in_i32(v: int) -> bool {
    i32::MIN <= v <= i32::MAX
}

/// `v` fits in an `i32` and its absolute value does too.
pub open spec fn in_i32_abs(v: int) -> bool {
    -i32::MAX <= v <= i32::MAX
}

/// `v / 2` as Rust computes it on integers: rounded toward zero.
pub open spec fn half_toward_zero(v: int) -> int {
    if v >= 0 {
        v / 2
    } else {
        -((-v) / 2)
    }
}

pub open spec fn abs_int(v: int) -> int {
    if v < 0 {
        -v
    } else {
        v
    }
}

pub open spec fn max_int(a: int, b: int) -> int {
    if a >= b {
        a
    } else {
        b
    }
}

/// `v` fits in an `i32`.
pub fn fits_i32(v: i64) -> (r: bool)
    ensures
        r == in_i32(v as int),
{
    -2147483648 <= v && v <= 2147483647
}

/// `v` and its absolute value fit in an `i32`.
pub fn fits_i32_abs(v: i64) -> (r: bool)
    ensures
        r == in_i32_abs(v as int),
{
    -2147483647 <= v && v <= 2147483647
}

pub fn abs_i64(v: i64) -> (r: i64)
    requires
        v > i64::MIN,
    ensures
        r == abs_int(v as int),
{
    if v < 0 {
        -v
    } else {
        v
    }
}

/// `v / 2`, rounded toward zero.
pub fn half_i64(v: i64) -> (r: i64)
    requires
        v > i64::MIN,
    ensures
        r == half_toward_zero(v as int),
{
    if v >= 0 {
        v / 2
    } else {
        -((-v) / 2)
    }
}

/// Absolute value of an `i32` whose absolute value fits.
pub fn abs_i32(v: i32) -> (r: i32)
    requires
        in_i32_abs(v as int),
    ensures
        r == abs_int(v as int),
{
    if v < 0 {
        -v
    } else {
        v
    }
}

impl Rect {
    pub open spec fn right_edge(self) -> int {
        self.left + self.width
    }

    pub open spec fn bottom_edge(self) -> int {
        self.top + self.height
    }

    pub open spec fn center_x(self) -> int {
        self.left + half_toward_zero(self.width as int)
    }

    pub open spec fn center_y(self) -> int {
        self.top + half_toward_zero(self.height as int)
    }

    /// The x coordinate one past the right edge.
    pub fn right(self) -> (r: i32)
        requires
            in_i32(self.right_edge()),
        ensures
            r == self.right_edge(),
    {
        self.left + self.width
    }

    /// The y coordinate one past the bottom edge.
    pub fn bottom(self) -> (r: i32)
        requires
            in_i32(self.bottom_edge()),
        ensures
            r == self.bottom_edge(),
    {
        self.top + self.height
    }

    /// The center, each half-size rounded toward zero.
    pub fn center(self) -> (r: (i32, i32))
        requires
            in_i32(self.center_x()),
            in_i32(self.center_y()),
        ensures
            r.0 == self.center_x(),
            r.1 == self.center_y(),
    {
        (self.left + self.width / 2, self.top + self.height / 2)
    }

    /// `point` lies in the rectangle grown by `padding` on every side, edges included.
    pub open spec fn holds_point(self, point: Point, padding: int) -> bool {
        &&& self.left - padding <= point.x <= self.right_edge() + padding
        &&& self.top - padding <= point.y <= self.bottom_edge() + padding
    }

    /// The arithmetic that `contains` evaluates stays in `i32`; the comparisons are
    /// evaluated left to right and stop at the first that fails.
    pub open spec fn contains_arith_ok(self, point: Point, padding: int) -> bool {
        &&& in_i32(self.left - padding)
        &&& point.x >= self.left - padding ==> {
            &&& in_i32(self.right_edge())
            &&& in_i32(self.right_edge() + padding)
            &&& point.x <= self.right_edge() + padding ==> {
                &&& in_i32(self.top - padding)
                &&& point.y >= self.top - padding ==> {
                    &&& in_i32(self.bottom_edge())
                    &&& in_i32(self.bottom_edge() + padding)
                }
            }
        }
    }

    /// The arithmetic of `contains` stays in `i32`: what a caller tests
    /// before the call.
    pub fn contains_fits(self, point: Point, padding: i32) -> (ok: bool)
        ensures
            ok == self.contains_arith_ok(point, padding as int),
    {
        let p = padding as i64;
        let left = self.left as i64 - p;
        if !fits_i32(left) {
            return false;
        }
        if (point.x as i64) < left {
            return true;
        }
        let right = self.left as i64 + self.width as i64;
        if !fits_i32(right) || !fits_i32(right + p) {
            return false;
        }
        if point.x as i64 > right + p {
            return true;
        }
        let top = self.top as i64 - p;
        if !fits_i32(top) {
            return false;
        }
        if (point.y as i64) < top {
            return true;
        }
        let bottom = self.top as i64 + self.height as i64;
        fits_i32(bottom) && fits_i32(bottom + p)
    }

    pub fn contains(self, point: Point, padding: i32) -> (r: bool)
        requires
            self.contains_arith_ok(point, padding as int),
        ensures
            r == self.holds_point(point, padding as int),
    {
        point.x >= self.left - padding && point.x <= self.right() + padding && point.y >= self.top
            - padding && point.y <= self.bottom() + padding
    }
}

/// The rectangle between the edges `left`..`right` and `top`..`bottom`, as
/// Windows reports a window's edges; nothing where it has no area.
pub fn rect_from_edges(left: i32, top: i32, right: i32, bottom: i32) -> (r: Option<Rect>)
    requires
        in_i32(right - left),
        in_i32(bottom - top),
    ensures
        r == if right - left <= 0 || bottom - top <= 0 {
            None
        } else {
            Some(
                Rect {
                    left,
                    top,
                    width: (right - left) as i32,
                    height: (bottom - top) as i32,
                },
            )
        },
{
    let width = right - left;
    let height = bottom - top;
    if width <= 0 || height <= 0 {
        None
    } else {
        Some(Rect { left, top, width, height })
    }
}

impl Default for Rect {
    fn default() -> (r: Self)
        ensures
            r == (Rect { left: 0, top: 0, width: 0, height: 0 }),
    {
        Rect { left: 0, top: 0, width: 0, height: 0 }
    }
}

/// The smallest width and height of a window that can be the pet overlay.
pub const MIN_OVERLAY_SIDE: i32 = 80;

/// The largest width and height of a window that can be the pet overlay.
pub const MAX_OVERLAY_SIDE: i32 = 1200;

/// The smallest distance, in pixels, between window centers that rules a
/// window out as the pet overlay.
pub const CANDIDATE_MIN_REACH: i32 = 900;

pub open spec fn is_live_overlay_size(bounds: Rect) -> bool {
    &&& bounds.width >= MIN_OVERLAY_SIDE
    &&& bounds.height >= MIN_OVERLAY_SIDE
    &&& bounds.width <= MAX_OVERLAY_SIDE
    &&& bounds.height <= MAX_OVERLAY_SIDE
}

/// `num / den` lies strictly between `lo_num / lo_den` and `hi_num / hi_den`,
/// where `den`, `lo_den` and `hi_den` are positive.
pub open spec fn ratio_strictly_between(
    num: int,
    den: int,
    lo_num: int,
    lo_den: int,
    hi_num: int,
    hi_den: int,
) -> bool {
    num * lo_den > lo_num * den && num * hi_den < hi_num * den
}

/// Each side of `bounds` is more than 0.45 and less than 2.2 times that of
/// `expected`; any size passes when `expected` has no area.
pub open spec fn is_same_size(bounds: Rect, expected: Rect) -> bool {
    expected.width <= 0 || expected.height <= 0 || (ratio_strictly_between(
        bounds.width as int,
        expected.width as int,
        9,
        20,
        11,
        5,
    ) && ratio_strictly_between(bounds.height as int, expected.height as int, 9, 20, 11, 5))
}

/// Each side of `bounds` is more than 0.70 and less than 1.45 times that of
/// `previous`; nothing passes when `previous` has no area.
pub open spec fn is_similar_size(bounds: Rect, previous: Rect) -> bool {
    previous.width > 0 && previous.height > 0 && ratio_strictly_between(
        bounds.width as int,
        previous.width as int,
        7,
        10,
        29,
        20,
    ) && ratio_strictly_between(bounds.height as int, previous.height as int, 7, 10, 29, 20)
}

/// The sum of the horizontal and vertical distances between the centers.
pub open spec fn center_distance(a: Rect, b: Rect) -> int {
    abs_int(a.center_x() - b.center_x()) + abs_int(a.center_y() - b.center_y())
}

/// How far from the expected center a candidate may lie: 900 pixels, or four
/// times the larger side of `expected` where that is more.
pub open spec fn candidate_reach(expected: Rect) -> int {
    max_int(
        CANDIDATE_MIN_REACH as int,
        max_int(expected.width as int, expected.height as int) * 4,
    )
}

pub open spec fn is_candidate(bounds: Rect, expected: Rect) -> bool {
    is_live_overlay_size(bounds) && (is_same_size(bounds, expected) || center_distance(
        bounds,
        expected,
    ) < candidate_reach(expected))
}

/// The `i32` arithmetic of `looks_candidate` does not overflow.
pub open spec fn candidate_arith_ok(bounds: Rect, expected: Rect) -> bool {
    is_live_overlay_size(bounds) && !is_same_size(bounds, expected) ==> {
        &&& in_i32(expected.center_x())
        &&& in_i32(expected.center_y())
        &&& in_i32(bounds.center_x())
        &&& in_i32(bounds.center_y())
        &&& in_i32_abs(bounds.center_x() - expected.center_x())
        &&& in_i32_abs(bounds.center_y() - expected.center_y())
        &&& in_i32(center_distance(bounds, expected))
        &&& in_i32(max_int(expected.width as int, expected.height as int) * 4)
    }
}

/// The arithmetic of `looks_candidate` stays in `i32`: what a caller tests
/// before the call.
pub fn candidate_fits(bounds: Rect, expected: Rect) -> (ok: bool)
    ensures
        ok == candidate_arith_ok(bounds, expected),
{
    if !looks_live_overlay_bounds(bounds) || looks_same_size(bounds, expected) {
        return true;
    }
    let ex = expected.left as i64 + half_i64(expected.width as i64);
    let ey = expected.top as i64 + half_i64(expected.height as i64);
    let bx = bounds.left as i64 + half_i64(bounds.width as i64);
    let by = bounds.top as i64 + half_i64(bounds.height as i64);
    let dx = bx - ex;
    let dy = by - ey;
    let larger = if expected.width >= expected.height {
        expected.width as i64
    } else {
        expected.height as i64
    };
    fits_i32(ex) && fits_i32(ey) && fits_i32(bx) && fits_i32(by) && fits_i32_abs(dx)
        && fits_i32_abs(dy) && fits_i32(abs_i64(dx) + abs_i64(dy)) && fits_i32(larger * 4)
}

/// `bounds` has a size that the pet overlay window can have.
pub fn looks_live_overlay_bounds(bounds: Rect) -> (r: bool)
    ensures
        r == is_live_overlay_size(bounds),
{
    bounds.width >= MIN_OVERLAY_SIDE && bounds.height >= MIN_OVERLAY_SIDE && bounds.width
        <= MAX_OVERLAY_SIDE && bounds.height <= MAX_OVERLAY_SIDE
}

/// `num / den` strictly between `lo_num / lo_den` and `hi_num / hi_den`, by
/// cross-multiplication in 64 bits, which is exact for `i32` operands.
fn ratio_between(num: i32, den: i32, lo_num: i64, lo_den: i64, hi_num: i64, hi_den: i64) -> (r:
    bool)
    requires
        0 < lo_num <= 100,
        0 < lo_den <= 100,
        0 < hi_num <= 100,
        0 < hi_den <= 100,
    ensures
        r == ratio_strictly_between(
            num as int,
            den as int,
            lo_num as int,
            lo_den as int,
            hi_num as int,
            hi_den as int,
        ),
{
    let n = num as i64;
    let d = den as i64;
    assert(-0x8000_0000 * 100 <= n * lo_den <= 0x8000_0000 * 100) by (nonlinear_arith)
        requires
            -0x8000_0000 <= n <= 0x8000_0000,
            0 < lo_den <= 100,
    ;
    assert(-0x8000_0000 * 100 <= lo_num * d <= 0x8000_0000 * 100) by (nonlinear_arith)
        requires
            -0x8000_0000 <= d <= 0x8000_0000,
            0 < lo_num <= 100,
    ;
    assert(-0x8000_0000 * 100 <= n * hi_den <= 0x8000_0000 * 100) by (nonlinear_arith)
        requires
            -0x8000_0000 <= n <= 0x8000_0000,
            0 < hi_den <= 100,
    ;
    assert(-0x8000_0000 * 100 <= hi_num * d <= 0x8000_0000 * 100) by (nonlinear_arith)
        requires
            -0x8000_0000 <= d <= 0x8000_0000,
            0 < hi_num <= 100,
    ;
    n * lo_den > lo_num * d && n * hi_den < hi_num * d
}

/// Each side of `bounds` is between 0.45 and 2.2 times that of `expected`
/// (exclusive); any size passes when `expected` has no area.
pub fn looks_same_size(bounds: Rect, expected: Rect) -> (r: bool)
    ensures
        r == is_same_size(bounds, expected),
{
    if expected.width <= 0 || expected.height <= 0 {
        return true;
    }
    ratio_between(bounds.width, expected.width, 9, 20, 11, 5) && ratio_between(
        bounds.height,
        expected.height,
        9,
        20,
        11,
        5,
    )
}

/// Each side of `bounds` is between 0.70 and 1.45 times that of `previous`
/// (exclusive); nothing passes when `previous` has no area.
pub fn looks_similar_overlay_size(bounds: Rect, previous: Rect) -> (r: bool)
    ensures
        r == is_similar_size(bounds, previous),
{
    if previous.width <= 0 || previous.height <= 0 {
        return false;
    }
    ratio_between(bounds.width, previous.width, 7, 10, 29, 20) && ratio_between(
        bounds.height,
        previous.height,
        7,
        10,
        29,
        20,
    )
}

/// `bounds` can be the pet overlay window, which Codex last reported near
/// `expected`: it has an overlay's size and either about the expected size or a
/// center within reach of the expected one.
pub fn looks_candidate(bounds: Rect, expected: Rect) -> (r: bool)
    requires
        candidate_arith_ok(bounds, expected),
    ensures
        r == is_candidate(bounds, expected),
{
    if !looks_live_overlay_bounds(bounds) {
        return false;
    }
    if looks_same_size(bounds, expected) {
        return true;
    }
    let (ex, ey) = expected.center();
    let (bx, by) = bounds.center();
    let distance = abs_i32(bx - ex) + abs_i32(by - ey);
    distance < CANDIDATE_MIN_REACH.max(expected.width.max(expected.height) * 4)
}

/// A window that passes the candidate test has the size of an overlay window.
pub proof fn law_candidate_has_overlay_size(bounds: Rect, expected: Rect)
    ensures
        is_candidate(bounds, expected) ==> is_live_overlay_size(bounds),
{
}

/// A window whose size is similar to the size it had before also passes the
/// same-size test against that earlier size.
pub proof fn law_similar_size_is_same_size(bounds: Rect, previous: Rect)
    ensures
        is_similar_size(bounds, previous) ==> is_same_size(bounds, previous),
{
}

/// A rectangle with area is both similar and of the same size to itself.
pub proof fn law_size_tests_reflexive(bounds: Rect)
    requires
        bounds.width > 0,
        bounds.height > 0,
    ensures
        is_same_size(bounds, bounds),
        is_similar_size(bounds, bounds),
{
}

/// Growing the padding never loses a point.
pub proof fn law_contains_monotone_in_padding(rect: Rect, point: Point, small: int, large: int)
    requires
        small <= large,
        rect.holds_point(point, small),
    ensures
        rect.holds_point(point, large),
{
}

/// The center of a rectangle with a non-negative size lies inside it.
pub proof fn law_center_inside(rect: Rect)
    requires
        rect.width >= 0,
        rect.height >= 0,
        in_i32(rect.right_edge()),
        in_i32(rect.bottom_edge()),
    ensures
        in_i32(rect.center_x()) && in_i32(rect.center_y()),
        rect.holds_point(Point { x: rect.center_x() as i32, y: rect.center_y() as i32 }, 0),
{
}

/// The size tests in plain numbers: an overlay's sides are 80 to 1200
/// pixels; "about the expected size" is each side more than 0.45 and less
/// than 2.2 times the expected one (anything passes against a frame without
/// area); "similar to the last size" is each side more than 0.70 and less
/// than 1.45 times the last one (nothing passes against a frame without
/// area).
pub proof fn law_size_tests_in_numbers(b: Rect, e: Rect)
    ensures
        is_live_overlay_size(b) <==> (80 <= b.width <= 1200 && 80 <= b.height <= 1200),
        is_same_size(b, e) <==> (e.width <= 0 || e.height <= 0 || (20 * b.width > 9 * e.width
            && 5 * b.width < 11 * e.width && 20 * b.height > 9 * e.height && 5 * b.height < 11
            * e.height)),
        is_similar_size(b, e) <==> (e.width > 0 && e.height > 0 && 10 * b.width > 7 * e.width
            && 20 * b.width < 29 * e.width && 10 * b.height > 7 * e.height && 20 * b.height < 29
            * e.height),
{
}

/// A window is a candidate for the pet overlay only with an overlay's size;
/// with it, a window about the expected size always is, and any other one
/// exactly when the horizontal plus the vertical distance between the two
/// centers (each center at the left or top edge plus half the side, rounded
/// toward zero) is below 900 pixels or four times the larger expected side,
/// whichever is more.
pub proof fn law_candidate_reach(bounds: Rect, expected: Rect)
    ensures
        ({
            let dx = (bounds.left + half_toward_zero(bounds.width as int)) - (expected.left
                + half_toward_zero(expected.width as int));
            let dy = (bounds.top + half_toward_zero(bounds.height as int)) - (expected.top
                + half_toward_zero(expected.height as int));
            let dist = (if dx < 0 {
                -dx
            } else {
                dx
            }) + (if dy < 0 {
                -dy
            } else {
                dy
            });
            let side: int = if expected.width >= expected.height {
                expected.width as int
            } else {
                expected.height as int
            };
            let reach: int = if 4 * side > 900 {
                4 * side
            } else {
                900
            };
            &&& !is_live_overlay_size(bounds) ==> !is_candidate(bounds, expected)
            &&& is_live_overlay_size(bounds) && is_same_size(bounds, expected) ==> is_candidate(
                bounds,
                expected,
            )
            &&& is_live_overlay_size(bounds) && !is_same_size(bounds, expected) ==> (is_candidate(
                bounds,
                expected,
            ) <==> dist < reach)
        }),
{
}

} // verus!
