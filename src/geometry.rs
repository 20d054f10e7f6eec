use vstd::prelude::*;

verus! {

/// A point in the plane. Coordinates are in micro-units: one logical unit of
/// length is `UNIT` micro-units.
#[derive(Clone, Copy, Debug, PartialEq, Eq, Structural)]
pub struct Point {
    pub x: i64,
    pub y: i64,
}

/// The full width and height of a rectangle, in micro-units.
#[derive(Clone, Copy, Debug, PartialEq, Eq, Structural)]
pub struct Extent {
    pub w: u64,
    pub h: u64,
}

/// An axis-aligned rectangle given by its center and its full extent.
#[derive(Clone, Copy, Debug, PartialEq, Eq, Structural)]
pub struct Rect {
    pub center: Point,
    pub size: Extent,
}

/// The side of the second rectangle that the first one is touching: `Top`
/// means the first rectangle rests on top of the second.
#[derive(Clone, Copy, Debug, PartialEq, Eq, Structural)]
pub enum Collision {
    Left,
    Right,
    Top,
    Bottom,
}

/// Micro-units in one logical unit of length.
pub const UNIT: i64 = 1_000_000;

impl Rect {
    // Edges are kept doubled, so that halving an odd extent loses nothing.
    pub open spec fn lo_x2(self) -> int {
        2 * self.center.x - self.size.w
    }

    pub open spec fn hi_x2(self) -> int {
        2 * self.center.x + self.size.w
    }

    pub open spec fn lo_y2(self) -> int {
        2 * self.center.y - self.size.h
    }

    pub open spec fn hi_y2(self) -> int {
        2 * self.center.y + self.size.h
    }
}

/// The two closed rectangles share at least one point (touching edges count).
pub open spec fn overlaps(a: Rect, b: Rect) -> bool {
    &&& a.lo_x2() <= b.hi_x2()
    &&& b.lo_x2() <= a.hi_x2()
    &&& a.lo_y2() <= b.hi_y2()
    &&& b.lo_y2() <= a.hi_y2()
}

/// The horizontal side on which `a` meets `b`, with the (doubled) penetration
/// depth along x; `None` where neither rectangle sticks out on exactly one side.
pub open spec fn x_contact(a: Rect, b: Rect) -> Option<(Collision, int)> {
    if a.lo_x2() < b.lo_x2() && a.hi_x2() < b.hi_x2() {
        Some((Collision::Left, a.hi_x2() - b.lo_x2()))
    } else if a.lo_x2() > b.lo_x2() && a.hi_x2() > b.hi_x2() {
        Some((Collision::Right, b.hi_x2() - a.lo_x2()))
    } else {
        None
    }
}

/// The vertical side on which `a` meets `b`, with the (doubled) penetration
/// depth along y.
pub open spec fn y_contact(a: Rect, b: Rect) -> Option<(Collision, int)> {
    if a.lo_y2() < b.lo_y2() && a.hi_y2() < b.hi_y2() {
        Some((Collision::Bottom, a.hi_y2() - b.lo_y2()))
    } else if a.lo_y2() > b.lo_y2() && a.hi_y2() > b.hi_y2() {
        Some((Collision::Top, b.hi_y2() - a.lo_y2()))
    } else {
        None
    }
}

/// The side on which `a` collides with `b`: none without overlap; where both
/// axes report a side, the one of smaller penetration depth, x on a tie.
pub open spec fn collision(a: Rect, b: Rect) -> Option<Collision> {
    if !overlaps(a, b) {
        None
    } else {
        match (x_contact(a, b), y_contact(a, b)) {
            (Some((xs, xd)), Some((ys, yd))) => if yd < xd {
                Some(ys)
            } else {
                Some(xs)
            },
            (Some((xs, _)), None) => Some(xs),
            (None, Some((ys, _))) => Some(ys),
            (None, None) => None,
        }
    }
}

/// Overlap does not depend on the order of the two rectangles.
pub proof fn lemma_overlap_symmetric(a: Rect, b: Rect)
    ensures
        overlaps(a, b) == overlaps(b, a),
{
}

/// A rectangle of positive height whose bottom edge lies exactly on the top
/// edge of a rectangle of positive height, and whose horizontal span lies
/// within that rectangle's span, is in top contact with it.
pub proof fn lemma_resting_is_top_contact(a: Rect, b: Rect)
    requires
        a.size.h > 0,
        b.size.h > 0,
        a.lo_y2() == b.hi_y2(),
        b.lo_x2() <= a.lo_x2(),
        a.hi_x2() <= b.hi_x2(),
    ensures
        collision(a, b) == Some(Collision::Top),
{
}

fn lo2(c: i64, e: u64) -> (r: i128)
    ensures
        r == 2 * c - e,
{
    2 * (c as i128) - (e as i128)
}

fn hi2(c: i64, e: u64) -> (r: i128)
    ensures
        r == 2 * c + e,
{
    2 * (c as i128) + (e as i128)
}

/// Whether the two rectangles overlap, edges included.
pub fn rects_overlap(a: &Rect, b: &Rect) -> (r: bool)
    ensures
        r == overlaps(*a, *b),
{
    let (alx, ahx) = (lo2(a.center.x, a.size.w), hi2(a.center.x, a.size.w));
    let (aly, ahy) = (lo2(a.center.y, a.size.h), hi2(a.center.y, a.size.h));
    let (blx, bhx) = (lo2(b.center.x, b.size.w), hi2(b.center.x, b.size.w));
    let (bly, bhy) = (lo2(b.center.y, b.size.h), hi2(b.center.y, b.size.h));
    alx <= bhx && blx <= ahx && aly <= bhy && bly <= ahy
}

/// The side on which `a` collides with `b`, if any.
pub fn collide(a: &Rect, b: &Rect) -> (r: Option<Collision>)
    ensures
        r == collision(*a, *b),
{
    if !rects_overlap(a, b) {
        return None;
    }
    let (alx, ahx) = (lo2(a.center.x, a.size.w), hi2(a.center.x, a.size.w));
    let (aly, ahy) = (lo2(a.center.y, a.size.h), hi2(a.center.y, a.size.h));
    let (blx, bhx) = (lo2(b.center.x, b.size.w), hi2(b.center.x, b.size.w));
    let (bly, bhy) = (lo2(b.center.y, b.size.h), hi2(b.center.y, b.size.h));
    let x: Option<(Collision, i128)> = if alx < blx && ahx < bhx {
        Some((Collision::Left, ahx - blx))
    } else if alx > blx && ahx > bhx {
        Some((Collision::Right, bhx - alx))
    } else {
        None
    };
    let y: Option<(Collision, i128)> = if aly < bly && ahy < bhy {
        Some((Collision::Bottom, ahy - bly))
    } else if aly > bly && ahy > bhy {
        Some((Collision::Top, bhy - aly))
    } else {
        None
    };
    match (x, y) {
        (Some((xs, xd)), Some((ys, yd))) => if yd < xd {
            Some(ys)
        } else {
            Some(xs)
        },
        (Some((xs, _)), None) => Some(xs),
        (None, Some((ys, _))) => Some(ys),
        (None, None) => None,
    }
}

} // verus!
