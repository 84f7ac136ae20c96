//! Pixel geometry: points, monitor rectangles, the inclusive containment
//! test used to find the monitor under the cursor, and the centering
//! formula that places a window in the middle of a monitor.

use vstd::prelude::*;

verus! {

/// A point in pixel coordinates.  Cursor positions and computed window
/// positions both use this type.  The coordinates are wide enough that a
/// centered position never overflows, even when the window is larger
/// than the monitor and the result goes negative.
#[derive(Clone, Copy, PartialEq, Eq, Structural, Debug)]
pub struct Point {
    pub x: i64,
    pub y: i64,
}

/// A monitor's bounds: top-left origin in pixel coordinates plus a size.
/// The unsigned size fields carry the invariant that width and height
/// are non-negative.
#[derive(Clone, Copy, PartialEq, Eq, Structural, Debug)]
pub struct Rect {
    pub x: i32,
    pub y: i32,
    pub width: u32,
    pub height: u32,
}

/// A window's size as reported by the windowing system, trusted to be
/// non-negative by construction.
#[derive(Clone, Copy, PartialEq, Eq, Structural, Debug)]
pub struct WindowSize {
    pub width: u32,
    pub height: u32,
}

/// Inclusive containment: a point exactly on the right or bottom edge of
/// a rectangle still counts as inside it.  A cursor in the one-pixel
/// overlap of two abutting monitors therefore matches both.
pub open spec fn rect_contains(r: Rect, p: Point) -> bool {
    &&& r.x as int <= p.x as int <= r.x as int + r.width as int
    &&& r.y as int <= p.y as int <= r.y as int + r.height as int
}

/// Strict containment: the point is inside the rectangle and on none of
/// its edges, so it cannot lie on a boundary shared with an adjacent
/// monitor.
pub open spec fn rect_strictly_contains(r: Rect, p: Point) -> bool {
    &&& (r.x as int) < (p.x as int)
    &&& (p.x as int) < r.x as int + r.width as int
    &&& (r.y as int) < (p.y as int)
    &&& (p.y as int) < r.y as int + r.height as int
}

pub proof fn lemma_strict_containment_is_containment(r: Rect, p: Point)
    requires
        rect_strictly_contains(r, p),
    ensures
        rect_contains(r, p),
{
}

/// Halving that truncates toward zero, as the `/` of the source language
/// does on signed operands: `div2_toward_zero(-3) == -1`.
pub open spec fn div2_toward_zero(n: int) -> int {
    if n >= 0 {
        n / 2
    } else {
        -((-n) / 2)
    }
}

/// The x coordinate that centers a window of width `window_width` on the
/// monitor rectangle `r`: `r.x + (r.width - window_width) / 2` with
/// truncating division.  No clamping: a window wider than the monitor
/// yields a coordinate left of the monitor's origin.
pub open spec fn centered_x(r: Rect, window_width: u32) -> int {
    r.x as int + div2_toward_zero(r.width as int - window_width as int)
}

/// The y coordinate that centers a window of height `window_height` on
/// the monitor rectangle `r`.
pub open spec fn centered_y(r: Rect, window_height: u32) -> int {
    r.y as int + div2_toward_zero(r.height as int - window_height as int)
}

/// The centered top-left position as a point value.
pub open spec fn centered_point(r: Rect, size: WindowSize) -> Point {
    Point { x: centered_x(r, size.width) as i64, y: centered_y(r, size.height) as i64 }
}

/// The centered coordinates always fit the point type: the origin is a
/// 32-bit value and the halved difference of two 32-bit sizes adds at
/// most 31 bits.
pub proof fn lemma_centered_in_range(r: Rect, size: WindowSize)
    ensures
        i64::MIN <= centered_x(r, size.width) <= i64::MAX,
        i64::MIN <= centered_y(r, size.height) <= i64::MAX,
        centered_point(r, size).x == centered_x(r, size.width),
        centered_point(r, size).y == centered_y(r, size.height),
{
}

/// Decides whether `p` lies within `r` under the inclusive bounds test.
pub fn rect_contains_point(r: &Rect, p: &Point) -> (b: bool)
    ensures
        b == rect_contains(*r, *p),
{
    let right: i64 = r.x as i64 + r.width as i64;
    let bottom: i64 = r.y as i64 + r.height as i64;
    r.x as i64 <= p.x && p.x <= right && r.y as i64 <= p.y && p.y <= bottom
}

/// One coordinate of the centering formula:
/// `origin + (extent - window_extent) / 2`, division truncating toward
/// zero.  Computed without signed division by branching on the sign of
/// the difference.
fn centered_coord(origin: i32, extent: u32, window_extent: u32) -> (c: i64)
    ensures
        c == origin as int + div2_toward_zero(extent as int - window_extent as int),
{
    let half: i64 = if extent >= window_extent {
        ((extent - window_extent) / 2) as i64
    } else {
        -(((window_extent - extent) / 2) as i64)
    };
    origin as i64 + half
}

/// Computes the top-left position that centers a window of size `size`
/// within the monitor rectangle `r`.  The result depends on the monitor
/// and the window size alone, never on where the window currently is,
/// which is what makes placement idempotent.
pub fn compute_centered_position(r: &Rect, size: WindowSize) -> (p: Point)
    ensures
        p.x == centered_x(*r, size.width),
        p.y == centered_y(*r, size.height),
        p == centered_point(*r, size),
{
    proof {
        lemma_centered_in_range(*r, size);
    }
    Point { x: centered_coord(r.x, r.width, size.width), y: centered_coord(r.y, r.height, size.height) }
}

/// Centering is idempotent: a window already at the centered position
/// for a monitor and size is sent to that same position when the
/// placement is recomputed, because the computed position is a function
/// of the monitor and the window size alone.
pub proof fn lemma_centering_idempotent(r: Rect, size: WindowSize, current: Point)
    requires
        current == centered_point(r, size),
    ensures
        centered_point(r, size) == current,
{
}

} // verus!
