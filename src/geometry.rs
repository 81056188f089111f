//! Integer shapes and the overlap tests between them.
use vstd::prelude::*;

verus! {

/// Largest magnitude of a coordinate or an extent that the overlap tests accept.
pub const COORD_LIMIT: i64 = 0x400_0000_0000;

/// A circle given by its center and its diameter.
#[derive(Clone, Copy, Debug, PartialEq, Eq, Structural)]
pub struct Circle {
    pub x: i64,
    pub y: i64,
    pub diameter: i64,
}

/// An axis-aligned box given by its top-left corner, its width and its height.
#[derive(Clone, Copy, Debug, PartialEq, Eq, Structural)]
pub struct Rect {
    pub x: i64,
    pub y: i64,
    pub w: i64,
    pub h: i64,
}

/// Either kind of outline that an entity can have.
#[derive(Clone, Copy, Debug, PartialEq, Eq, Structural)]
pub enum Outline {
    Round(Circle),
    Boxed(Rect),
}

pub open spec fn within_limit(v: int) -> bool {
    -COORD_LIMIT <= v <= COORD_LIMIT
}

pub open spec fn extent_ok(v: int) -> bool {
    0 < v <= COORD_LIMIT
}

impl Circle {
    pub open spec fn wf(&self) -> bool {
        within_limit(self.x as int) && within_limit(self.y as int) && extent_ok(self.diameter as int)
    }
}

impl Rect {
    pub open spec fn wf(&self) -> bool {
        within_limit(self.x as int) && within_limit(self.y as int) && extent_ok(self.w as int)
            && extent_ok(self.h as int)
    }
}

impl Outline {
    pub open spec fn wf(&self) -> bool {
        match self {
            Outline::Round(c) => c.wf(),
            Outline::Boxed(r) => r.wf(),
        }
    }
}

/// `v` moved into `[lo, hi]`; `lo` wins when the interval is empty.
pub open spec fn clamp_spec(v: int, lo: int, hi: int) -> int {
    if v < lo {
        lo
    } else if v > hi {
        hi
    } else {
        v
    }
}

/// The circle's distance to the nearest point of the box is below its radius:
/// with `(dx, dy)` from that point to the center, `dx² + dy² < (d/2)²`.
pub open spec fn circle_overlaps_rect(c: Circle, r: Rect) -> bool {
    let dx = c.x - clamp_spec(c.x as int, r.x as int, r.x + r.w);
    let dy = c.y - clamp_spec(c.y as int, r.y as int, r.y + r.h);
    4 * (dx * dx + dy * dy) < c.diameter * c.diameter
}

/// The centers lie closer than the sum of the radii.
pub open spec fn circles_overlap(a: Circle, b: Circle) -> bool {
    let dx = a.x - b.x;
    let dy = a.y - b.y;
    4 * (dx * dx + dy * dy) < (a.diameter + b.diameter) * (a.diameter + b.diameter)
}

/// The open interiors of the two boxes share a point.
pub open spec fn rects_overlap(a: Rect, b: Rect) -> bool {
    a.x < b.x + b.w && b.x < a.x + a.w && a.y < b.y + b.h && b.y < a.y + a.h
}

pub open spec fn outlines_collide(a: Outline, b: Outline) -> bool {
    match (a, b) {
        (Outline::Round(c), Outline::Boxed(r)) => circle_overlaps_rect(c, r),
        (Outline::Boxed(r), Outline::Round(c)) => circle_overlaps_rect(c, r),
        (Outline::Round(c), Outline::Round(d)) => circles_overlap(c, d),
        (Outline::Boxed(r), Outline::Boxed(q)) => rects_overlap(r, q),
    }
}

proof fn lemma_square_below(v: int, b: int)
    requires
        -b <= v <= b,
    ensures
        0 <= v * v <= b * b,
{
    assert(0 <= v * v <= b * b) by (nonlinear_arith)
        requires
            -b <= v <= b,
    ;
}

/// `v` moved into `[lo, hi]`, checking `lo` first.
pub fn clamp(v: i64, lo: i64, hi: i64) -> (r: i64)
    ensures
        r == clamp_spec(v as int, lo as int, hi as int),
{
    if v < lo {
        lo
    } else if v > hi {
        hi
    } else {
        v
    }
}

impl Circle {
    /// True iff the circle reaches strictly inside its radius to some point of the box.
    pub fn overlaps_rect(&self, rect: &Rect) -> (r: bool)
        requires
            self.wf(),
            rect.wf(),
        ensures
            r == circle_overlaps_rect(*self, *rect),
    {
        let nx = clamp(self.x, rect.x, rect.x + rect.w);
        let ny = clamp(self.y, rect.y, rect.y + rect.h);
        let dx = (self.x as i128) - (nx as i128);
        let dy = (self.y as i128) - (ny as i128);
        let d = self.diameter as i128;
        proof { lemma_square_below(dx as int, 0x1000_0000_0000); }
        proof { lemma_square_below(dy as int, 0x1000_0000_0000); }
        proof { lemma_square_below(d as int, 0x1000_0000_0000); }
        let dx2: i128 = dx * dx;
        let dy2: i128 = dy * dy;
        let d2: i128 = d * d;
        4 * (dx2 + dy2) < d2
    }

    /// True iff the two circles' centers lie closer than the sum of their radii.
    pub fn overlaps_circle(&self, other: &Circle) -> (r: bool)
        requires
            self.wf(),
            other.wf(),
        ensures
            r == circles_overlap(*self, *other),
    {
        let dx = (self.x as i128) - (other.x as i128);
        let dy = (self.y as i128) - (other.y as i128);
        let s = (self.diameter as i128) + (other.diameter as i128);
        proof { lemma_square_below(dx as int, 0x1000_0000_0000); }
        proof { lemma_square_below(dy as int, 0x1000_0000_0000); }
        proof { lemma_square_below(s as int, 0x1000_0000_0000); }
        4 * (dx * dx + dy * dy) < s * s
    }
}

impl Rect {
    /// True iff the interiors of the two boxes intersect.
    pub fn overlaps(&self, other: &Rect) -> (r: bool)
        requires
            self.wf(),
            other.wf(),
        ensures
            r == rects_overlap(*self, *other),
    {
        self.x < other.x + other.w && other.x < self.x + self.w && self.y < other.y + other.h
            && other.y < self.y + self.h
    }
}

impl Outline {
    /// True iff the two outlines overlap; the same test answers in either order.
    pub fn collides_with(&self, other: &Outline) -> (r: bool)
        requires
            self.wf(),
            other.wf(),
        ensures
            r == outlines_collide(*self, *other),
    {
        match (self, other) {
            (Outline::Round(c), Outline::Boxed(b)) => c.overlaps_rect(b),
            (Outline::Boxed(b), Outline::Round(c)) => c.overlaps_rect(b),
            (Outline::Round(c), Outline::Round(d)) => c.overlaps_circle(d),
            (Outline::Boxed(b), Outline::Boxed(q)) => b.overlaps(q),
        }
    }
}

/// Collision does not depend on the order of its two arguments.
pub proof fn lemma_collision_symmetric(a: Outline, b: Outline)
    ensures
        outlines_collide(a, b) == outlines_collide(b, a),
{
    match (a, b) {
        (Outline::Round(c), Outline::Round(d)) => {
            assert((c.x - d.x) * (c.x - d.x) == (d.x - c.x) * (d.x - c.x)) by (nonlinear_arith);
            assert((c.y - d.y) * (c.y - d.y) == (d.y - c.y) * (d.y - c.y)) by (nonlinear_arith);
        },
        _ => {},
    }
}

} // verus!
