//! Points and rectangles on the desktop.
use vstd::prelude::*;

verus! {

/// A point on the desktop.
#[derive(Clone, Copy, Debug, PartialEq, Eq, Structural)]
pub struct Point {
    /// The horizontal coordinate.
    pub x: i32,
    /// The vertical coordinate.
    pub y: i32,
}

impl Point {
    /// The two coordinates.
    pub open spec fn coordinates(self) -> (int, int) {
        (self.x as int, self.y as int)
    }
}

/// A rectangle on the desktop. Its right and bottom edges lie outside it.
#[derive(Clone, Copy, Debug, PartialEq, Eq, Structural)]
pub struct Rect {
    /// The left edge.
    pub left: i32,
    /// The top edge.
    pub top: i32,
    /// The right edge.
    pub right: i32,
    /// The bottom edge.
    pub bottom: i32,
}

/// A difference of coordinates as an unsigned number: negative ones count from
/// 2^32 downwards.
pub open spec fn extent(from: i32, to: i32) -> int {
    if to >= from {
        to - from
    } else {
        to - from + 0x1_0000_0000
    }
}

/// Halfway between two coordinates, rounded towards zero.
pub open spec fn midpoint(a: i32, b: i32) -> int {
    crate::types::trunc_div(a + b, 2)
}

/// Computes `extent`.
fn edge_distance(from: i32, to: i32) -> (r: u32)
    requires
        i32::MIN <= to - from <= i32::MAX,
    ensures
        r == extent(from, to),
{
    let d: i32 = to - from;
    assert(d >= 0 ==> (d as u32) as int == d) by (bit_vector);
    assert(d < 0 ==> (d as u32) as int == d + 0x1_0000_0000) by (bit_vector);
    #[verifier::truncate]
    let bits: u32 = d as u32;
    bits
}

/// Computes `midpoint`.
fn middle(a: i32, b: i32) -> (r: i32)
    ensures
        r == midpoint(a, b),
{
    ((a as i64 + b as i64) / 2) as i32
}

/// A number of 32 bits read as a signed one.
pub open spec fn as_signed(n: u32) -> int {
    if n < 0x8000_0000 {
        n as int
    } else {
        n - 0x1_0000_0000
    }
}

/// Computes `as_signed`.
pub fn to_signed(n: u32) -> (r: i32)
    ensures
        r == as_signed(n),
{
    assert(n < 0x8000_0000 ==> (n as i32) as int == n) by (bit_vector);
    assert(n >= 0x8000_0000 ==> (n as i32) as int == n - 0x1_0000_0000) by (bit_vector);
    #[verifier::truncate]
    let bits: i32 = n as i32;
    bits
}

impl Rect {
    /// Whether the two extents of the rectangle fit in a coordinate.
    pub open spec fn extents_fit(self) -> bool {
        &&& i32::MIN <= self.right - self.left <= i32::MAX
        &&& i32::MIN <= self.bottom - self.top <= i32::MAX
    }

    /// The width and the height of the rectangle.
    pub open spec fn dimensions(self) -> (int, int) {
        (extent(self.left, self.right), extent(self.top, self.bottom))
    }

    /// The centre of the rectangle.
    pub open spec fn centre(self) -> (int, int) {
        (midpoint(self.left, self.right), midpoint(self.top, self.bottom))
    }

    /// Whether a point lies in the rectangle.
    pub open spec fn holds(self, p: (int, int)) -> bool {
        self.left <= p.0 < self.right && self.top <= p.1 < self.bottom
    }

    /// Computes `extents_fit`.
    pub fn has_extents(&self) -> (r: bool)
        ensures
            r == self.extents_fit(),
    {
        let width: i64 = self.right as i64 - self.left as i64;
        let height: i64 = self.bottom as i64 - self.top as i64;
        let low: i64 = i32::MIN as i64;
        let high: i64 = i32::MAX as i64;
        low <= width && width <= high && low <= height && height <= high
    }

    /// The width and the height of the rectangle.
    pub fn size(&self) -> (r: (u32, u32))
        requires
            self.extents_fit(),
        ensures
            (r.0 as int, r.1 as int) == self.dimensions(),
    {
        (edge_distance(self.left, self.right), edge_distance(self.top, self.bottom))
    }

    /// The centre of the rectangle.
    pub fn center(&self) -> (r: Point)
        ensures
            r.coordinates() == self.centre(),
    {
        Point { x: middle(self.left, self.right), y: middle(self.top, self.bottom) }
    }

    /// Whether a point lies in the rectangle.
    pub fn contains(&self, p: Point) -> (r: bool)
        ensures
            r == self.holds(p.coordinates()),
    {
        p.x >= self.left && p.x < self.right && p.y >= self.top && p.y < self.bottom
    }

    /// The centre of a rectangle that is not turned inside out is within its
    /// edges.
    pub proof fn centre_within(self)
        requires
            self.left <= self.right,
            self.top <= self.bottom,
        ensures
            self.left <= self.centre().0 <= self.right,
            self.top <= self.centre().1 <= self.bottom,
    {
    }
}

/// The centre of a rectangle is halfway between its edges, but for the half that
/// is rounded off.
pub proof fn centre_is_halfway(r: Rect)
    ensures
        -1 <= r.left + r.right - 2 * r.centre().0 <= 1,
        -1 <= r.top + r.bottom - 2 * r.centre().1 <= 1,
        r.left + r.right >= 0 ==> 2 * r.centre().0 <= r.left + r.right,
        r.left + r.right <= 0 ==> 2 * r.centre().0 >= r.left + r.right,
        r.top + r.bottom >= 0 ==> 2 * r.centre().1 <= r.top + r.bottom,
        r.top + r.bottom <= 0 ==> 2 * r.centre().1 >= r.top + r.bottom,
{
}

/// The width and the height of a rectangle are what its edges are apart.
pub proof fn size_is_the_distance_of_the_edges(r: Rect)
    requires
        r.left <= r.right,
        r.top <= r.bottom,
    ensures
        r.dimensions() == (r.right - r.left, r.bottom - r.top),
{
}

/// A rectangle that is cut in two holds each of its points in exactly one half.
pub proof fn halves_share_no_point(r: Rect, cut: i32, p: (int, int))
    requires
        r.left <= cut <= r.right,
    ensures
        ({
            let one = Rect { right: cut, ..r };
            let other = Rect { left: cut, ..r };
            &&& r.holds(p) <==> one.holds(p) || other.holds(p)
            &&& !(one.holds(p) && other.holds(p))
        }),
{
}

/// A rectangle holds the points from its left and top edges on that come before
/// its right and bottom edges.
pub proof fn rectangle_holds_what_its_edges_enclose(r: Rect, x: int, y: int)
    ensures
        x < r.left || y < r.top || x >= r.right || y >= r.bottom ==> !r.holds((x, y)),
        x >= r.left && y >= r.top && x < r.right && y < r.bottom ==> r.holds((x, y)),
{
}

/// A number of 32 bits is read as itself where it is small enough, and else as
/// the negative number with the same bits.
pub proof fn signed_reading_keeps_the_bits(n: u32)
    ensures
        n <= 0x7fff_ffff ==> as_signed(n) == n,
        i32::MIN <= as_signed(n) <= i32::MAX,
        (as_signed(n) - n) % 0x1_0000_0000 == 0,
{
}

} // verus!
