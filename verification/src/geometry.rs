//! Plane geometry in whole layout units.
//!
//! Positions are signed and sizes are not. Sums and differences of the two are taken in a wider
//! type, so that no operation of this module overflows.
use vstd::prelude::*;

verus! {

/// A position in the plane.
#[derive(Clone, Copy, Debug, PartialEq, Eq, Structural)]
pub struct Point {
    pub x: i64,
    pub y: i64,
}

impl Point {
    /// The position `(x, y)`.
    pub fn new(x: i64, y: i64) -> (p: Point)
        ensures
            p == (Point { x, y }),
    {
        Point { x, y }
    }
}

/// A displacement in the plane.
#[derive(Clone, Copy, Debug, PartialEq, Eq, Structural)]
pub struct Vec2 {
    pub x: i64,
    pub y: i64,
}

impl Vec2 {
    /// The displacement by `x` along and `y` down.
    pub fn new(x: i64, y: i64) -> (v: Vec2)
        ensures
            v == (Vec2 { x, y }),
    {
        Vec2 { x, y }
    }
}

/// The extent of a rectangle.
#[derive(Clone, Copy, Debug, PartialEq, Eq, Structural)]
pub struct Size {
    pub width: u64,
    pub height: u64,
}

impl Size {
    /// The size `width` by `height`.
    pub fn new(width: u64, height: u64) -> (s: Size)
        ensures
            s == (Size { width, height }),
    {
        Size { width, height }
    }

    /// The rectangle of this size whose origin is the origin of the plane.
    pub fn to_rect(&self) -> (r: Rect)
        ensures
            r == self.as_rect(),
    {
        Rect { origin: Point { x: 0, y: 0 }, size: *self }
    }

    /// The rectangle of this size whose origin is the origin of the plane.
    pub open spec fn as_rect(self) -> Rect {
        Rect { origin: Point { x: 0, y: 0 }, size: self }
    }
}

/// One of the two directions of the plane.
#[derive(Clone, Copy, Debug, PartialEq, Eq, Structural)]
pub enum Axis {
    Horizontal,
    Vertical,
}

/// A rectangle: it covers the units from `origin` up to, and not including, `origin + size`.
#[derive(Clone, Copy, Debug, PartialEq, Eq, Structural)]
pub struct Rect {
    pub origin: Point,
    pub size: Size,
}

/// Where the overlap of `[a, a + m)` and `[b, b + n)` starts.
pub open spec fn overlap_start(a: i64, b: i64) -> i64 {
    if a <= b {
        b
    } else {
        a
    }
}

/// How long the overlap of `[a, a + m)` and `[b, b + n)` is.
pub open spec fn overlap_len(a: i64, m: u64, b: i64, n: u64) -> int {
    let start = overlap_start(a, b);
    let end = if a + m <= b + n {
        a + m
    } else {
        b + n
    };
    if end <= start {
        0
    } else {
        end - start
    }
}

/// Intersects `[a, a + m)` with `[b, b + n)`: the start and the length of what they share.
fn overlap(a: i64, m: u64, b: i64, n: u64) -> (r: (i64, u64))
    ensures
        r.0 == overlap_start(a, b),
        r.1 == overlap_len(a, m, b, n),
{
    let start: i64 = if a <= b {
        b
    } else {
        a
    };
    let end_a: i128 = a as i128 + m as i128;
    let end_b: i128 = b as i128 + n as i128;
    let end: i128 = if end_a <= end_b {
        end_a
    } else {
        end_b
    };
    if end <= start as i128 {
        (start, 0)
    } else {
        (start, (end - start as i128) as u64)
    }
}

impl Rect {
    /// The rectangle of the given size at the given origin.
    pub fn from_origin_size(origin: Point, size: Size) -> (r: Rect)
        ensures
            r == (Rect { origin, size }),
    {
        Rect { origin, size }
    }

    /// The top left corner.
    pub fn origin(&self) -> (p: Point)
        ensures
            p == self.origin,
    {
        self.origin
    }

    /// The extent.
    pub fn size(&self) -> (s: Size)
        ensures
            s == self.size,
    {
        self.size
    }

    /// Whether the unit at `(x, y)` is covered.
    pub open spec fn covers(self, x: int, y: int) -> bool {
        &&& self.origin.x <= x < self.origin.x + self.size.width
        &&& self.origin.y <= y < self.origin.y + self.size.height
    }

    /// Whether the rectangle covers any unit at all.
    pub open spec fn has_area(self) -> bool {
        self.size.width > 0 && self.size.height > 0
    }

    /// What this rectangle and `other` share, with size zero in each direction in which they
    /// share nothing.
    pub open spec fn meet(self, other: Rect) -> Rect {
        Rect {
            origin: Point {
                x: overlap_start(self.origin.x, other.origin.x),
                y: overlap_start(self.origin.y, other.origin.y),
            },
            size: Size {
                width: overlap_len(
                    self.origin.x,
                    self.size.width,
                    other.origin.x,
                    other.size.width,
                ) as u64,
                height: overlap_len(
                    self.origin.y,
                    self.size.height,
                    other.origin.y,
                    other.size.height,
                ) as u64,
            },
        }
    }

    /// What this rectangle and `other` share, with size zero in each direction in which they
    /// share nothing.
    pub fn intersect(&self, other: Rect) -> (r: Rect)
        ensures
            r == self.meet(other),
    {
        let (x, width) = overlap(self.origin.x, self.size.width, other.origin.x, other.size.width);
        let (y, height) = overlap(
            self.origin.y,
            self.size.height,
            other.origin.y,
            other.size.height,
        );
        Rect { origin: Point { x, y }, size: Size { width, height } }
    }

    /// Whether the rectangle covers nothing.
    pub fn is_empty(&self) -> (b: bool)
        ensures
            b == !self.has_area(),
    {
        self.size.width == 0 || self.size.height == 0
    }
}

/// An intersection covers exactly the units that both rectangles cover.
pub proof fn law_meet_covers_what_both_cover(a: Rect, b: Rect)
    ensures
        forall|x: int, y: int| #[trigger]
            a.meet(b).covers(x, y) <==> a.covers(x, y) && b.covers(x, y),
{
}

/// An intersection has area exactly when some unit is covered by both rectangles.
pub proof fn law_meet_has_area_iff_overlapping(a: Rect, b: Rect)
    ensures
        a.meet(b).has_area() <==> exists|x: int, y: int| #[trigger]
            a.covers(x, y) && b.covers(x, y),
{
    let m = a.meet(b);
    if m.has_area() {
        assert(a.covers(m.origin.x as int, m.origin.y as int));
    }
}

} // verus!
