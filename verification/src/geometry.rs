//! Screen-space points, extents and rectangles.
//!
//! Coordinates are fixed-point numbers counted in 1/256 of a pixel, the resolution of
//! `wl_fixed` on the Wayland wire. The origin is the top-left corner and Y grows downward.
//! Every value that comes off the wire fits in 32 bits; the types hold 64.

use vstd::prelude::*;

verus! {

/// Coordinate steps per pixel.
pub const STEPS_PER_PIXEL: i64 = 256;

/// The smallest coordinate of the range in which every distance is representable.
pub const COORD_MIN: i64 = -0x4000_0000_0000_0000;

/// The largest coordinate of that range.
pub const COORD_MAX: i64 = 0x3fff_ffff_ffff_ffff;

/// Whether `v` is in the range in which every distance is representable.
pub open spec fn in_range(v: int) -> bool {
    COORD_MIN <= v <= COORD_MAX
}

/// Whether `v` is representable.
pub open spec fn representable(v: int) -> bool {
    i64::MIN <= v <= i64::MAX
}

pub open spec fn min_of(a: int, b: int) -> int {
    if a <= b {
        a
    } else {
        b
    }
}

pub open spec fn max_of(a: int, b: int) -> int {
    if a >= b {
        a
    } else {
        b
    }
}

/// A 2-D point in screen space.
#[derive(Debug, Clone, Copy, PartialEq, Eq, Structural)]
pub struct Point {
    pub x: i64,
    pub y: i64,
}

/// A 2-D extent in screen space (width and height).
#[derive(Debug, Clone, Copy, PartialEq, Eq, Structural)]
pub struct Size {
    pub width: i64,
    pub height: i64,
}

/// An axis-aligned rectangle: `origin` is the top-left corner, `size` is width and height.
#[derive(Debug, Clone, Copy, PartialEq, Eq, Structural)]
pub struct Rect {
    pub origin: Point,
    pub size: Size,
}

impl Point {
    pub fn new(x: i64, y: i64) -> (p: Point)
        ensures
            p.x == x,
            p.y == y,
    {
        Point { x, y }
    }

    pub fn zero() -> (p: Point)
        ensures
            p.x == 0,
            p.y == 0,
    {
        Point { x: 0, y: 0 }
    }

    pub fn x(self) -> (v: i64)
        ensures
            v == self.x,
    {
        self.x
    }

    pub fn y(self) -> (v: i64)
        ensures
            v == self.y,
    {
        self.y
    }

    pub fn as_tuple(self) -> (t: (i64, i64))
        ensures
            t == (self.x, self.y),
    {
        (self.x, self.y)
    }
}

impl Size {
    pub fn new(width: i64, height: i64) -> (s: Size)
        ensures
            s.width == width,
            s.height == height,
    {
        Size { width, height }
    }

    pub fn zero() -> (s: Size)
        ensures
            s.width == 0,
            s.height == 0,
    {
        Size { width: 0, height: 0 }
    }

    pub fn width(self) -> (v: i64)
        ensures
            v == self.width,
    {
        self.width
    }

    pub fn height(self) -> (v: i64)
        ensures
            v == self.height,
    {
        self.height
    }

    /// The extent as `(width, height)`.
    pub fn as_tuple(self) -> (t: (i64, i64))
        ensures
            t == (self.width, self.height),
    {
        (self.width, self.height)
    }
}

/// `self - rhs`, componentwise.
impl std::ops::Sub<Point> for Point {
    type Output = Point;

    fn sub(self, rhs: Point) -> (d: Point) {
        Point { x: self.x - rhs.x, y: self.y - rhs.y }
    }
}

impl vstd::std_specs::ops::SubSpecImpl<Point> for Point {
    open spec fn obeys_sub_spec() -> bool {
        true
    }

    open spec fn sub_req(self, rhs: Point) -> bool {
        i64::MIN <= self.x - rhs.x <= i64::MAX && i64::MIN <= self.y - rhs.y <= i64::MAX
    }

    open spec fn sub_spec(self, rhs: Point) -> Point {
        Point { x: (self.x - rhs.x) as i64, y: (self.y - rhs.y) as i64 }
    }
}

/// The point moved right by the width and down by the height.
impl std::ops::Add<Size> for Point {
    type Output = Point;

    fn add(self, rhs: Size) -> (p: Point) {
        Point { x: self.x + rhs.width, y: self.y + rhs.height }
    }
}

impl vstd::std_specs::ops::AddSpecImpl<Size> for Point {
    open spec fn obeys_add_spec() -> bool {
        true
    }

    open spec fn add_req(self, rhs: Size) -> bool {
        i64::MIN <= self.x + rhs.width <= i64::MAX && i64::MIN <= self.y + rhs.height <= i64::MAX
    }

    open spec fn add_spec(self, rhs: Size) -> Point {
        Point { x: (self.x + rhs.width) as i64, y: (self.y + rhs.height) as i64 }
    }
}

impl From<(i64, i64)> for Point {
    fn from(t: (i64, i64)) -> (p: Point) {
        Point { x: t.0, y: t.1 }
    }
}

impl vstd::std_specs::convert::FromSpecImpl<(i64, i64)> for Point {
    open spec fn obeys_from_spec() -> bool {
        true
    }

    open spec fn from_spec(t: (i64, i64)) -> Point {
        Point { x: t.0, y: t.1 }
    }
}

impl From<(i64, i64)> for Size {
    fn from(t: (i64, i64)) -> (s: Size) {
        Size { width: t.0, height: t.1 }
    }
}

impl vstd::std_specs::convert::FromSpecImpl<(i64, i64)> for Size {
    open spec fn obeys_from_spec() -> bool {
        true
    }

    open spec fn from_spec(t: (i64, i64)) -> Size {
        Size { width: t.0, height: t.1 }
    }
}

impl From<Point> for (i64, i64) {
    fn from(p: Point) -> (t: (i64, i64)) {
        (p.x, p.y)
    }
}

impl vstd::std_specs::convert::FromSpecImpl<Point> for (i64, i64) {
    open spec fn obeys_from_spec() -> bool {
        true
    }

    open spec fn from_spec(p: Point) -> (i64, i64) {
        (p.x, p.y)
    }
}

impl From<Size> for (i64, i64) {
    fn from(s: Size) -> (t: (i64, i64)) {
        (s.width, s.height)
    }
}

impl vstd::std_specs::convert::FromSpecImpl<Size> for (i64, i64) {
    open spec fn obeys_from_spec() -> bool {
        true
    }

    open spec fn from_spec(s: Size) -> (i64, i64) {
        (s.width, s.height)
    }
}

impl Rect {
    /// The coordinate of the right edge.
    pub open spec fn right_edge(self) -> int {
        self.origin.x + self.size.width
    }

    /// The coordinate of the bottom edge.
    pub open spec fn bottom_edge(self) -> int {
        self.origin.y + self.size.height
    }

    /// The far edges are representable.
    pub open spec fn bounded(self) -> bool {
        representable(self.right_edge()) && representable(self.bottom_edge())
    }

    /// All four edges are in the range in which every distance is representable, so that any two
    /// such rectangles have a bounding box, which is such a rectangle again.
    pub open spec fn fits(self) -> bool {
        &&& in_range(self.origin.x as int)
        &&& in_range(self.origin.y as int)
        &&& in_range(self.right_edge())
        &&& in_range(self.bottom_edge())
    }

    /// The bounding box of the two is representable.
    pub open spec fn joinable(self, other: Rect) -> bool {
        !self.empty() && !other.empty() ==> {
            &&& self.bounded()
            &&& other.bounded()
            &&& representable(
                max_of(self.right_edge(), other.right_edge()) - min_of(
                    self.origin.x as int,
                    other.origin.x as int,
                ),
            )
            &&& representable(
                max_of(self.bottom_edge(), other.bottom_edge()) - min_of(
                    self.origin.y as int,
                    other.origin.y as int,
                ),
            )
        }
    }

    /// Zero width or zero height.
    pub open spec fn empty(self) -> bool {
        self.size.width == 0 || self.size.height == 0
    }

    /// Neither extent is negative.
    pub open spec fn proper(self) -> bool {
        self.size.width >= 0 && self.size.height >= 0
    }

    /// `(px, py)` lies between the edges, the edges themselves counted in.
    pub open spec fn spans(self, px: int, py: int) -> bool {
        &&& self.origin.x <= px <= self.right_edge()
        &&& self.origin.y <= py <= self.bottom_edge()
    }

    /// `(px, py)` belongs to the area of a rectangle that has one.
    pub open spec fn covers(self, px: int, py: int) -> bool {
        !self.empty() && self.spans(px, py)
    }

    /// The area of `self` holds the area of `other`.
    pub open spec fn covers_rect(self, other: Rect) -> bool {
        forall|px: int, py: int| #[trigger] other.covers(px, py) ==> self.covers(px, py)
    }

    /// The bounding box of two rectangles: least origin, greatest far corner. A rectangle
    /// without area contributes nothing.
    pub open spec fn bounding(self, other: Rect) -> Rect {
        if self.empty() {
            other
        } else if other.empty() {
            self
        } else {
            let x = min_of(self.origin.x as int, other.origin.x as int);
            let y = min_of(self.origin.y as int, other.origin.y as int);
            Rect {
                origin: Point { x: x as i64, y: y as i64 },
                size: Size {
                    width: (max_of(self.right_edge(), other.right_edge()) - x) as i64,
                    height: (max_of(self.bottom_edge(), other.bottom_edge()) - y) as i64,
                },
            }
        }
    }

    pub fn zero() -> (r: Rect)
        ensures
            r == zero_rect(),
    {
        Rect { origin: Point::zero(), size: Size::zero() }
    }

    pub fn new(x: i64, y: i64, width: i64, height: i64) -> (r: Rect)
        ensures
            r.origin == (Point { x, y }),
            r.size == (Size { width, height }),
    {
        Rect { origin: Point::new(x, y), size: Size::new(width, height) }
    }

    /// Shorthand for `Rect::new`.
    pub fn xywh(x: i64, y: i64, w: i64, h: i64) -> (r: Rect)
        ensures
            r.origin == (Point { x, y }),
            r.size == (Size { width: w, height: h }),
    {
        Rect::new(x, y, w, h)
    }

    pub fn x(self) -> (v: i64)
        ensures
            v == self.origin.x,
    {
        self.origin.x()
    }

    pub fn y(self) -> (v: i64)
        ensures
            v == self.origin.y,
    {
        self.origin.y()
    }

    pub fn width(self) -> (v: i64)
        ensures
            v == self.size.width,
    {
        self.size.width()
    }

    pub fn height(self) -> (v: i64)
        ensures
            v == self.size.height,
    {
        self.size.height()
    }

    /// The right edge, `x + width`.
    pub fn right(self) -> (v: i64)
        requires
            i64::MIN <= self.right_edge() <= i64::MAX,
        ensures
            v == self.right_edge(),
    {
        self.x() + self.width()
    }

    /// The bottom edge, `y + height`.
    pub fn bottom(self) -> (v: i64)
        requires
            i64::MIN <= self.bottom_edge() <= i64::MAX,
        ensures
            v == self.bottom_edge(),
    {
        self.y() + self.height()
    }

    /// Whether the coordinate `(px, py)` lies inside the rectangle, edges counted in.
    pub fn contains(self, px: i64, py: i64) -> (inside: bool)
        requires
            self.bounded(),
        ensures
            inside == self.spans(px as int, py as int),
    {
        px >= self.x() && px <= self.right() && py >= self.y() && py <= self.bottom()
    }

    /// Whether the point `p` lies inside the rectangle, edges counted in.
    pub fn contains_point(self, p: Point) -> (inside: bool)
        requires
            self.bounded(),
        ensures
            inside == self.spans(p.x as int, p.y as int),
    {
        self.contains(p.x(), p.y())
    }

    /// Whether the rectangle covers no pixels (zero width or zero height).
    ///
    /// Such a rectangle is the identity of [`Rect::union`].
    pub fn is_empty(self) -> (e: bool)
        ensures
            e == self.empty(),
    {
        self.width() == 0 || self.height() == 0
    }

    /// The smallest rectangle that contains both `self` and `other`.
    ///
    /// An empty rectangle is the identity, so a stray zero-area rectangle never pulls the bound
    /// toward the origin. Two rectangles with area give the box from the least origin to the
    /// greatest far corner.
    pub fn union(self, other: Rect) -> (r: Rect)
        requires
            self.joinable(other),
        ensures
            r == self.bounding(other),
            self.empty() ==> r == other,
            other.empty() && !self.empty() ==> r == self,
            !self.empty() && !other.empty() ==> {
                &&& r.origin.x == min_of(self.origin.x as int, other.origin.x as int)
                &&& r.origin.y == min_of(self.origin.y as int, other.origin.y as int)
                &&& r.right_edge() == max_of(self.right_edge(), other.right_edge())
                &&& r.bottom_edge() == max_of(self.bottom_edge(), other.bottom_edge())
            },
            self.fits() && other.fits() ==> r.fits(),
    {
        if self.is_empty() {
            return other;
        }
        if other.is_empty() {
            return self;
        }
        let x: i64 = if self.x() <= other.x() { self.x() } else { other.x() };
        let y: i64 = if self.y() <= other.y() { self.y() } else { other.y() };
        let right: i64 = if self.right() >= other.right() { self.right() } else { other.right() };
        let bottom: i64 = if self.bottom() >= other.bottom() {
            self.bottom()
        } else {
            other.bottom()
        };
        Rect::new(x, y, right - x, bottom - y)
    }
}

/// The rectangle at the origin without extent.
pub open spec fn zero_rect() -> Rect {
    Rect { origin: Point { x: 0, y: 0 }, size: Size { width: 0, height: 0 } }
}

impl Default for Point {
    fn default() -> (p: Point)
        ensures
            p.x == 0,
            p.y == 0,
    {
        Point::zero()
    }
}

impl Default for Size {
    fn default() -> (s: Size)
        ensures
            s.width == 0,
            s.height == 0,
    {
        Size::zero()
    }
}

impl Default for Rect {
    fn default() -> (r: Rect)
        ensures
            r == zero_rect(),
    {
        Rect::zero()
    }
}

/// An empty rectangle is the identity of the union, on either side. When both sides are empty
/// the right one comes back.
pub proof fn union_empty_is_identity(a: Rect, b: Rect)
    requires
        a.empty(),
    ensures
        a.bounding(b) == b,
        !b.empty() ==> b.bounding(a) == b,
{
}

/// Rectangles in the range where every distance is representable can be joined, and their union is
/// in that range too.
pub proof fn union_fits(a: Rect, b: Rect)
    requires
        a.fits(),
        b.fits(),
    ensures
        a.joinable(b),
        a.bounding(b).fits(),
{
}

/// The order of the two sides does not matter, unless neither has an area.
pub proof fn union_commutes(a: Rect, b: Rect)
    requires
        !a.empty() || !b.empty(),
    ensures
        a.bounding(b) == b.bounding(a),
{
}

/// The union of three rectangles does not depend on how they are grouped.
pub proof fn union_associates(a: Rect, b: Rect, c: Rect)
    requires
        a.joinable(b),
        b.joinable(c),
        a.bounding(b).joinable(c),
        a.joinable(b.bounding(c)),
        a.proper(),
        b.proper(),
        c.proper(),
    ensures
        a.bounding(b).bounding(c) == a.bounding(b.bounding(c)),
{
}

/// A rectangle joined with itself is unchanged.
pub proof fn union_idempotent(a: Rect)
    requires
        a.bounded(),
    ensures
        a.bounding(a) == a,
{
}

/// The union covers everything that either side covers.
pub proof fn union_covers_both(a: Rect, b: Rect)
    requires
        a.joinable(b),
    ensures
        a.bounding(b).covers_rect(a),
        a.bounding(b).covers_rect(b),
{
    let u = a.bounding(b);
    assert forall|px: int, py: int| #[trigger] a.covers(px, py) implies u.covers(px, py) by {
        if !b.empty() {
            assert(u.right_edge() == max_of(a.right_edge(), b.right_edge()));
            assert(u.bottom_edge() == max_of(a.bottom_edge(), b.bottom_edge()));
        }
    }
    assert forall|px: int, py: int| #[trigger] b.covers(px, py) implies u.covers(px, py) by {
        if !a.empty() {
            assert(u.right_edge() == max_of(a.right_edge(), b.right_edge()));
            assert(u.bottom_edge() == max_of(a.bottom_edge(), b.bottom_edge()));
        }
    }
}

/// The union is the smallest such rectangle: whatever covers both sides covers the union.
pub proof fn union_is_least(a: Rect, b: Rect, bound: Rect)
    requires
        a.joinable(b),
        a.proper(),
        b.proper(),
        bound.covers_rect(a),
        bound.covers_rect(b),
    ensures
        bound.covers_rect(a.bounding(b)),
{
    if !a.empty() && !b.empty() {
        let u = a.bounding(b);
        assert(a.covers(a.origin.x as int, a.origin.y as int));
        assert(a.covers(a.right_edge(), a.bottom_edge()));
        assert(b.covers(b.origin.x as int, b.origin.y as int));
        assert(b.covers(b.right_edge(), b.bottom_edge()));
        assert forall|px: int, py: int| #[trigger] u.covers(px, py) implies bound.covers(
            px,
            py,
        ) by {}
    }
}

/// The far edges lie a width and a height from the origin.
pub proof fn edges_lie_an_extent_from_the_origin(r: Rect)
    ensures
        r.right_edge() - r.origin.x == r.size.width,
        r.bottom_edge() - r.origin.y == r.size.height,
        r.bounded() <==> i64::MIN <= r.origin.x + r.size.width <= i64::MAX && i64::MIN
            <= r.origin.y + r.size.height <= i64::MAX,
{
}

/// A point is inside exactly if, on both axes, it lies at or after the origin and no farther from
/// it than the extent.
pub proof fn inside_means_within_the_extent_on_both_axes(r: Rect, px: int, py: int)
    ensures
        r.spans(px, py) <==> 0 <= px - r.origin.x <= r.size.width && 0 <= py - r.origin.y
            <= r.size.height,
        r.covers(px, py) <==> r.size.width != 0 && r.size.height != 0 && 0 <= px - r.origin.x
            <= r.size.width && 0 <= py - r.origin.y <= r.size.height,
{
}

/// A rectangle is empty exactly if one of its extents is 0.
pub proof fn empty_means_an_extent_of_zero(r: Rect)
    ensures
        r.empty() <==> r.size.width == 0 || r.size.height == 0,
        zero_rect().origin.x == 0 && zero_rect().origin.y == 0,
        zero_rect().size.width == 0 && zero_rect().size.height == 0,
{
}

/// Each edge of the union of two rectangles with area is the outermost of the two edges on that
/// side.
pub proof fn union_takes_the_outermost_edges(a: Rect, b: Rect)
    requires
        a.size.width != 0,
        a.size.height != 0,
        b.size.width != 0,
        b.size.height != 0,
        a.joinable(b),
    ensures
        ({
            let u = a.bounding(b);
            let (ar, br) = (a.origin.x + a.size.width, b.origin.x + b.size.width);
            let (ab, bb) = (a.origin.y + a.size.height, b.origin.y + b.size.height);
            let (ur, ub) = (u.origin.x + u.size.width, u.origin.y + u.size.height);
            &&& u.origin.x <= a.origin.x && u.origin.x <= b.origin.x
            &&& u.origin.x == a.origin.x || u.origin.x == b.origin.x
            &&& u.origin.y <= a.origin.y && u.origin.y <= b.origin.y
            &&& u.origin.y == a.origin.y || u.origin.y == b.origin.y
            &&& ur >= ar && ur >= br && (ur == ar || ur == br)
            &&& ub >= ab && ub >= bb && (ub == ab || ub == bb)
        }),
{
}

/// A rectangle with an extent of 0 adds nothing, wherever it lies.
pub proof fn union_passes_over_zero_extents(a: Rect, b: Rect)
    ensures
        a.size.width == 0 || a.size.height == 0 ==> a.bounding(b) == b,
        a.size.width != 0 && a.size.height != 0 && (b.size.width == 0 || b.size.height == 0)
            ==> a.bounding(b) == a,
{
}

/// Rectangles that are made of 32-bit numbers, such as all that come off the wire, meet every
/// condition on rectangles.
pub proof fn wire_sized_rects_meet_the_conditions(a: Rect, b: Rect)
    requires
        i32::MIN <= a.origin.x <= i32::MAX,
        i32::MIN <= a.origin.y <= i32::MAX,
        i32::MIN <= a.size.width <= i32::MAX,
        i32::MIN <= a.size.height <= i32::MAX,
        i32::MIN <= b.origin.x <= i32::MAX,
        i32::MIN <= b.origin.y <= i32::MAX,
        i32::MIN <= b.size.width <= i32::MAX,
        i32::MIN <= b.size.height <= i32::MAX,
    ensures
        a.bounded(),
        a.fits(),
        a.joinable(b),
{
}

/// Moving a point by an extent and taking the point away again leaves the extent.
pub proof fn moving_then_subtracting_gives_the_extent(p: Point, s: Size)
    requires
        i64::MIN <= p.x + s.width <= i64::MAX,
        i64::MIN <= p.y + s.height <= i64::MAX,
    ensures
        ({
            let moved = vstd::std_specs::ops::AddSpec::<Size>::add_spec(p, s);
            let back = vstd::std_specs::ops::SubSpec::<Point>::sub_spec(moved, p);
            &&& moved.x - p.x == s.width
            &&& moved.y - p.y == s.height
            &&& back.x == s.width
            &&& back.y == s.height
        }),
{
}

/// A point and an extent become a pair of numbers and come back from it, first the horizontal one.
pub proof fn pairs_go_both_ways(p: Point, s: Size, t: (i64, i64))
    ensures
        ({
            let point = <Point as vstd::std_specs::convert::FromSpec<(i64, i64)>>::from_spec(t);
            let size = <Size as vstd::std_specs::convert::FromSpec<(i64, i64)>>::from_spec(t);
            &&& point.x == t.0 && point.y == t.1
            &&& size.width == t.0 && size.height == t.1
            &&& <(i64, i64) as vstd::std_specs::convert::FromSpec<Point>>::from_spec(p) == (p.x, p.y)
            &&& <(i64, i64) as vstd::std_specs::convert::FromSpec<Size>>::from_spec(s) == (
                s.width,
                s.height,
            )
        }),
{
}

} // verus!
