//! Rectangles and the few arithmetic helpers that every layout rule uses.
//!
//! A length or coordinate is an `i64` that counts thousandths of a point. Halving is
//! exact for an even number of them, as on all whole and half points, and rounds an odd
//! one down by half a thousandth.
use vstd::prelude::*;

verus! {

/// The largest magnitude a coordinate or length may have: a billion points.
///
/// Sums of several thousand such values fit in an `i64`.
pub const LIMIT: i64 = 1_000_000_000_000;

/// Whether a coordinate or a length is within the range that layouts work in.
pub open spec fn in_range(v: int) -> bool {
    -LIMIT <= v <= LIMIT
}

/// Whether a coordinate is near that range: what a few thousand steps from inside it
/// can reach.
pub open spec fn near(v: int) -> bool {
    -2_000 * LIMIT <= v <= 2_000 * LIMIT
}

/// Whether a length is below a million points: that of one part of a page.
pub open spec fn small(v: int) -> bool {
    -1_000_000_000 <= v <= 1_000_000_000
}

pub open spec fn max_of(a: int, b: int) -> int {
    if a >= b { a } else { b }
}

pub open spec fn min_of(a: int, b: int) -> int {
    if a <= b { a } else { b }
}

/// The value of `lo..=hi` that is nearest to `v`, for `lo <= hi`.
pub open spec fn clamp_of(v: int, lo: int, hi: int) -> int {
    max_of(lo, min_of(v, hi))
}

/// The larger of two lengths.
pub fn max_len(a: i64, b: i64) -> (r: i64)
    ensures
        r == max_of(a as int, b as int),
{
    if a >= b { a } else { b }
}

/// The smaller of two lengths.
pub fn min_len(a: i64, b: i64) -> (r: i64)
    ensures
        r == min_of(a as int, b as int),
{
    if a <= b { a } else { b }
}

/// `v` moved into `lo..=hi`.
pub fn clamp_len(v: i64, lo: i64, hi: i64) -> (r: i64)
    requires
        lo <= hi,
    ensures
        r == clamp_of(v as int, lo as int, hi as int),
{
    max_len(lo, min_len(v, hi))
}

/// Half a length, rounded down.
pub fn half(v: i64) -> (r: i64)
    ensures
        r == v as int / 2,
        2 * r <= v <= 2 * r + 1,
        v as int % 2 == 0 ==> 2 * r == v,
{
    if v >= 0 {
        v / 2
    } else {
        -(-(v + 1) / 2) - 1
    }
}

/// A point in the coordinates of some view or of the screen.
#[derive(Clone, Copy, Debug, PartialEq, Eq, Structural)]
pub struct Point {
    pub x: i64,
    pub y: i64,
}

/// A width and a height.
#[derive(Clone, Copy, Debug, PartialEq, Eq, Structural)]
pub struct Size {
    pub w: i64,
    pub h: i64,
}

/// A rectangle given by its lower left corner and its size.
#[derive(Clone, Copy, Debug, PartialEq, Eq, Structural)]
pub struct Rect {
    pub x: i64,
    pub y: i64,
    pub w: i64,
    pub h: i64,
}

impl Point {
    pub open spec fn valid(self) -> bool {
        in_range(self.x as int) && in_range(self.y as int)
    }
}

impl Size {
    pub open spec fn valid(self) -> bool {
        in_range(self.w as int) && in_range(self.h as int)
    }
}

impl Rect {
    pub open spec fn valid(self) -> bool {
        &&& in_range(self.x as int)
        &&& in_range(self.y as int)
        &&& in_range(self.w as int)
        &&& in_range(self.h as int)
    }

    pub open spec fn near(self) -> bool {
        near(self.x as int) && near(self.y as int) && near(self.w as int) && near(self.h as int)
    }

    /// The right edge.
    pub open spec fn right(self) -> int {
        self.x + self.w
    }

    /// The top edge.
    pub open spec fn top(self) -> int {
        self.y + self.h
    }

    /// Twice the height of the horizontal centre line.
    pub open spec fn twice_mid_y(self) -> int {
        2 * self.y + self.h
    }

    /// Whether a point lies in the rectangle, edges counted as inside.
    pub open spec fn holds(self, p: Point) -> bool {
        &&& self.x <= p.x <= self.right()
        &&& self.y <= p.y <= self.top()
    }

    pub fn new(x: i64, y: i64, w: i64, h: i64) -> (r: Rect)
        ensures
            r == (Rect { x, y, w, h }),
    {
        Rect { x, y, w, h }
    }

    /// The origin of the rectangle.
    pub fn origin(self) -> (r: Point)
        ensures
            r == (Point { x: self.x, y: self.y }),
    {
        Point { x: self.x, y: self.y }
    }

    /// The size of the rectangle.
    pub fn size(self) -> (r: Size)
        ensures
            r == (Size { w: self.w, h: self.h }),
    {
        Size { w: self.w, h: self.h }
    }
}

/// Whether a rectangle holds a point, edges counted as inside.
pub fn rect_contains_point(rect: Rect, point: Point) -> (r: bool)
    requires
        rect.valid(),
    ensures
        r == rect.holds(point),
{
    point.x >= rect.x && point.x <= rect.x + rect.w && point.y >= rect.y && point.y <= rect.y
        + rect.h
}

/// The outcome of measuring a text in one direction.
///
/// A text system may also report that it has no answer, or an unbounded one; the
/// two differ only when measurements are compared with each other.
#[derive(Clone, Copy, Debug, PartialEq, Eq, Structural)]
pub enum Measure {
    /// A length.
    Finite(i64),
    /// Larger than every length.
    Unbounded,
    /// No usable answer.
    Absent,
}

impl Measure {
    /// A finite measurement is within the range that layouts work in.
    pub open spec fn valid(self) -> bool {
        self matches Measure::Finite(v) ==> in_range(v as int)
    }

    /// The larger of two measurements, where an absent one gives way to the other.
    pub open spec fn larger(self, other: Measure) -> Measure {
        match (self, other) {
            (Measure::Unbounded, _) => Measure::Unbounded,
            (_, Measure::Unbounded) => Measure::Unbounded,
            (Measure::Absent, o) => o,
            (s, Measure::Absent) => s,
            (Measure::Finite(a), Measure::Finite(b)) => if a >= b {
                Measure::Finite(a)
            } else {
                Measure::Finite(b)
            },
        }
    }

    /// The larger of two measurements, where an absent one gives way to the other.
    pub fn max(self, other: Measure) -> (r: Measure)
        ensures
            r == self.larger(other),
    {
        match self {
            Measure::Unbounded => Measure::Unbounded,
            Measure::Absent => other,
            Measure::Finite(a) => match other {
                Measure::Unbounded => Measure::Unbounded,
                Measure::Absent => self,
                Measure::Finite(b) => if a >= b { self } else { other },
            },
        }
    }
}

/// The least whole number of points that is not below `v`, in thousandths.
pub open spec fn ceil_points_of(v: int) -> int {
    ((v + 999) / 1000) * 1000
}

/// Rounds a positive length up to whole points.
pub fn ceil_points(v: i64) -> (r: i64)
    requires
        0 <= v <= i64::MAX - 999,
    ensures
        r == ceil_points_of(v as int),
        v <= r < v + 1000,
        r % 1000 == 0,
{
    ((v + 999) / 1000) * 1000
}

/// The larger and the smaller of two values are both among them, and nothing else is in
/// between; a value moved into a range is in it, and stays where it is if it was.
pub proof fn extremes_are_taken_from_the_values(a: int, b: int, v: int, lo: int, hi: int)
    ensures
        max_of(a, b) == a || max_of(a, b) == b,
        max_of(a, b) >= a && max_of(a, b) >= b,
        min_of(a, b) + max_of(a, b) == a + b,
        lo <= hi ==> lo <= clamp_of(v, lo, hi) <= hi,
        lo <= v <= hi ==> clamp_of(v, lo, hi) == v,
        lo <= hi && v < lo ==> clamp_of(v, lo, hi) == lo,
        lo <= hi && v > hi ==> clamp_of(v, lo, hi) == hi,
{
}

/// Rounding up to whole points moves a length by less than a point, and never down.
pub proof fn rounding_up_is_tight(v: int)
    ensures
        v <= ceil_points_of(v) < v + 1_000,
        ceil_points_of(v) % 1_000 == 0,
{
}

/// A rectangle holds its corners and whatever lies between them, and nothing beyond an edge.
pub proof fn rectangles_hold_what_is_between_their_edges(r: Rect, p: Point)
    ensures
        r.holds(p) <==> r.x <= p.x && p.x - r.x <= r.w && r.y <= p.y && p.y - r.y <= r.h,
        r.w >= 0 && r.h >= 0 ==> r.holds(Point { x: r.x, y: r.y }),
        r.right() - r.x == r.w,
        r.top() - r.y == r.h,
        r.twice_mid_y() == r.y + r.top(),
{
}

/// A measurement that is there counts more than one that is not, an unbounded one counts
/// more than every length, and of two lengths the longer one counts. The order makes no
/// difference.
pub proof fn longer_measurements_count(a: Measure, b: Measure, m: i64, n: i64)
    ensures
        a.larger(b) == b.larger(a),
        a.larger(Measure::Absent) == a,
        a.larger(Measure::Unbounded) == Measure::Unbounded,
        m <= n ==> Measure::Finite(m).larger(Measure::Finite(n)) == Measure::Finite(n),
        a.larger(a) == a,
{
}

} // verus!
