//! Screen geometry.

use vstd::prelude::*;

verus! {

/// A rectangle on the screen.
#[derive(Clone, Copy, Debug, PartialEq, Eq, Structural)]
pub struct Rect {
    pub x: i32,
    pub y: i32,
    pub w: i32,
    pub h: i32,
}

/// A point on the screen.
#[derive(Clone, Copy, Debug, PartialEq, Eq, Structural)]
pub struct Point {
    pub x: i32,
    pub y: i32,
}

/// A number cut off at the bounds of an `i32`.
pub open spec fn clamp32(n: int) -> i32 {
    if n < i32::MIN {
        i32::MIN
    } else if n > i32::MAX {
        i32::MAX
    } else {
        n as i32
    }
}

/// `a + b`, cut off at the bounds of an `i32`.
pub fn saturating_add32(a: i32, b: i32) -> (r: i32)
    ensures
        r == clamp32(a + b),
{
    let wide: i64 = a as i64 + b as i64;
    if wide < i32::MIN as i64 {
        i32::MIN
    } else if wide > i32::MAX as i64 {
        i32::MAX
    } else {
        wide as i32
    }
}

/// `a - b`, cut off at the bounds of an `i32`.
pub fn saturating_sub32(a: i32, b: i32) -> (r: i32)
    ensures
        r == clamp32(a - b),
{
    let wide: i64 = a as i64 - b as i64;
    if wide < i32::MIN as i64 {
        i32::MIN
    } else if wide > i32::MAX as i64 {
        i32::MAX
    } else {
        wide as i32
    }
}

impl Rect {
    /// Whether the rectangle has an area.
    pub open spec fn has_area(self) -> bool {
        self.w > 0 && self.h > 0
    }

    /// The column behind the last one.
    pub open spec fn right(self) -> i32 {
        clamp32(self.x + self.w)
    }

    /// The row behind the last one.
    pub open spec fn bottom(self) -> i32 {
        clamp32(self.y + self.h)
    }

    /// Whether the rectangle has an area.
    pub fn non_empty(self) -> (r: bool)
        ensures
            r == self.has_area(),
    {
        self.w > 0 && self.h > 0
    }
}

/// Whether two rectangles share a point.
pub open spec fn overlap(a: Rect, b: Rect) -> bool {
    a.x < b.right() && a.right() > b.x && a.y < b.bottom() && a.bottom() > b.y
}

/// Whether two rectangles share a point.
pub fn rects_overlap(a: Rect, b: Rect) -> (r: bool)
    ensures
        r == overlap(a, b),
{
    let a_right: i32 = saturating_add32(a.x, a.w);
    let a_bottom: i32 = saturating_add32(a.y, a.h);
    let b_right: i32 = saturating_add32(b.x, b.w);
    let b_bottom: i32 = saturating_add32(b.y, b.h);
    a.x < b_right && a_right > b.x && a.y < b_bottom && a_bottom > b.y
}

/// Sharing a point is symmetric, and two rectangles with an area within the screen's coordinates
/// share one exactly if some point lies in both.
pub proof fn law_overlap_is_a_common_point(a: Rect, b: Rect)
    ensures
        overlap(a, b) == overlap(b, a),
        a.has_area() && b.has_area() ==> (overlap(a, b) <==> exists|x: int, y: int|
            #![trigger lies_in(a, x, y)]
            lies_in(a, x, y) && lies_in(b, x, y)),
{
    if a.has_area() && b.has_area() {
        if overlap(a, b) {
            let x = if a.x >= b.x {
                a.x as int
            } else {
                b.x as int
            };
            let y = if a.y >= b.y {
                a.y as int
            } else {
                b.y as int
            };
            assert(lies_in(a, x, y) && lies_in(b, x, y));
        }
    }
}

/// Whether a point lies in a rectangle, cut off at the bounds of the coordinates.
pub open spec fn lies_in(r: Rect, x: int, y: int) -> bool {
    r.x <= x < r.right() && r.y <= y < r.bottom()
}

/// A sum or a difference is exact where it fits, and the nearest bound where it does not.
pub proof fn law_sums_are_cut_off(a: i32, b: i32, sum: i32, difference: i32)
    requires
        call_ensures(saturating_add32, (a, b), sum),
        call_ensures(saturating_sub32, (a, b), difference),
    ensures
        -0x8000_0000 <= a + b <= 0x7fff_ffff ==> sum == a + b,
        a + b > 0x7fff_ffff ==> sum == 0x7fff_ffff,
        a + b < -0x8000_0000 ==> sum == -0x8000_0000,
        -0x8000_0000 <= a - b <= 0x7fff_ffff ==> difference == a - b,
        a - b > 0x7fff_ffff ==> difference == 0x7fff_ffff,
        a - b < -0x8000_0000 ==> difference == -0x8000_0000,
{
}

/// A rectangle has an area exactly if neither side is empty; and two that lie within the coordinates
/// overlap exactly if neither lies wholly beside, above or below the other.
pub proof fn law_rectangles_overlap_unless_apart(a: Rect, b: Rect, overlapping: bool, area: bool)
    requires
        call_ensures(rects_overlap, (a, b), overlapping),
        call_ensures(Rect::non_empty, (a,), area),
    ensures
        area <==> a.w > 0 && a.h > 0,
        -0x8000_0000 <= a.x + a.w <= 0x7fff_ffff && -0x8000_0000 <= a.y + a.h <= 0x7fff_ffff
            && -0x8000_0000 <= b.x + b.w <= 0x7fff_ffff && -0x8000_0000 <= b.y + b.h <= 0x7fff_ffff
            ==> (overlapping <==> !(a.x + a.w <= b.x || b.x + b.w <= a.x || a.y + a.h <= b.y || b.y
            + b.h <= a.y)),
{
}

} // verus!
