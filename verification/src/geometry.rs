//! A 2D point and an axis-aligned rectangle with 64-bit signed coordinates.

use vstd::prelude::*;

verus! {

/// A 2D point: two 64-bit signed coordinates, `x` then `y`.
///
/// An immutable value type, copied freely. Its sequence view is `[x, y]`.
#[derive(Clone, Copy, Debug, PartialEq, Eq, Structural)]
pub struct Point {
    x: i64,
    y: i64,
}

impl View for Point {
    type V = Seq<int>;

    open spec fn view(&self) -> Seq<int> {
        seq![self.spec_x(), self.spec_y()]
    }
}

impl Point {
    /// The first coordinate, as a mathematical integer.
    pub closed spec fn spec_x(&self) -> int {
        self.x as int
    }

    /// The second coordinate, as a mathematical integer.
    pub closed spec fn spec_y(&self) -> int {
        self.y as int
    }

    /// Builds the point `(x, y)`.
    pub fn new(x: i64, y: i64) -> (r: Self)
        ensures
            r.spec_x() == x as int,
            r.spec_y() == y as int,
            r@ == seq![x as int, y as int],
    {
        let r = Self { x, y };
        proof {
            assert(r@ =~= seq![x as int, y as int]);
        }
        r
    }

    /// Returns the first coordinate.
    pub fn x(&self) -> (r: i64)
        ensures
            r as int == self.spec_x(),
            r as int == self@[0],
    {
        self.x
    }

    /// Returns the second coordinate.
    pub fn y(&self) -> (r: i64)
        ensures
            r as int == self.spec_y(),
            r as int == self@[1],
    {
        self.y
    }
}

impl Default for Point {
    /// The origin: both coordinates zero, so it equals `Point::new(0, 0)`.
    fn default() -> (r: Self)
        ensures
            r.spec_x() == 0,
            r.spec_y() == 0,
    {
        Point::new(0, 0)
    }
}

/// Two points are equal exactly when both coordinates are equal; there is no
/// tolerance, the coordinates being integers.
pub proof fn lemma_point_eq(a: Point, b: Point)
    ensures
        a == b <==> (a.spec_x() == b.spec_x() && a.spec_y() == b.spec_y()),
{
}

/// Wraps a mathematical integer into the range of the 64-bit signed
/// coordinate type, the way the type's own wrapping arithmetic does.
/// A difference of two coordinates is at most one range width out of
/// bounds, so a single step suffices.
pub open spec fn wrap_i64(v: int) -> int {
    if v > i64::MAX {
        v - 0x1_0000_0000_0000_0000
    } else if v < i64::MIN {
        v + 0x1_0000_0000_0000_0000
    } else {
        v
    }
}

/// An axis-aligned rectangle: four 64-bit signed coordinates, in the order
/// `left`, `top`, `right`, `bottom`.
///
/// No invariant forces `left <= right` or `top <= bottom`: any four
/// integers form a rectangle, and an inverted one has negative width or
/// height. An immutable value type, copied freely; equality is field-wise.
#[derive(Clone, Copy, Debug, PartialEq, Structural)]
pub struct Rectangle {
    pub left: i64,
    pub top: i64,
    pub right: i64,
    pub bottom: i64,
}

impl Rectangle {
    /// `right - left`, wrapped into the coordinate range.
    pub open spec fn spec_width(self) -> int {
        wrap_i64(self.right - self.left)
    }

    /// `bottom - top`, wrapped into the coordinate range.
    pub open spec fn spec_height(self) -> int {
        wrap_i64(self.bottom - self.top)
    }

    /// Returns `right - left`, not clamped: negative when the rectangle is
    /// inverted. On the rare differences that leave the coordinate range
    /// the result wraps, as the underlying integer type's wrapping
    /// arithmetic does.
    pub fn width(&self) -> (r: i64)
        ensures
            r as int == self.spec_width(),
            i64::MIN <= self.right - self.left <= i64::MAX ==> r as int == self.right - self.left,
    {
        self.right.wrapping_sub(self.left)
    }

    /// Returns `bottom - top`, under the same convention as `width`.
    pub fn height(&self) -> (r: i64)
        ensures
            r as int == self.spec_height(),
            i64::MIN <= self.bottom - self.top <= i64::MAX ==> r as int == self.bottom - self.top,
    {
        self.bottom.wrapping_sub(self.top)
    }

    /// Returns the point `(width, height)`.
    pub fn size(&self) -> (r: Point)
        ensures
            r.spec_x() == self.spec_width(),
            r.spec_y() == self.spec_height(),
            r@ == seq![self.spec_width(), self.spec_height()],
    {
        let r = Point::new(self.width(), self.height());
        proof {
            assert(r@ =~= seq![self.spec_width(), self.spec_height()]);
        }
        r
    }
}

impl Default for Rectangle {
    /// The empty rectangle at the origin: all four coordinates zero, with
    /// zero width and height.
    fn default() -> (r: Self)
        ensures
            r.left == 0,
            r.top == 0,
            r.right == 0,
            r.bottom == 0,
            r.spec_width() == 0,
            r.spec_height() == 0,
    {
        Rectangle { left: 0, top: 0, right: 0, bottom: 0 }
    }
}

/// Width and height are the exact differences `right - left` and
/// `bottom - top` whenever those differences fit the coordinate type,
/// including inverted rectangles, where they are negative.
pub proof fn lemma_sides_exact(rect: Rectangle)
    ensures
        i64::MIN <= rect.right - rect.left <= i64::MAX ==> rect.spec_width() == rect.right
            - rect.left,
        i64::MIN <= rect.bottom - rect.top <= i64::MAX ==> rect.spec_height() == rect.bottom
            - rect.top,
{
}

/// A rectangle's size is determined by its width and height alone: any two
/// points that carry those coordinates are the same point, so `size()`
/// equals a point built from `width` and `height`.
pub proof fn lemma_size_unique(rect: Rectangle, a: Point, b: Point)
    requires
        a.spec_x() == rect.spec_width(),
        a.spec_y() == rect.spec_height(),
        b.spec_x() == rect.spec_width(),
        b.spec_y() == rect.spec_height(),
    ensures
        a == b,
{
    lemma_point_eq(a, b);
}

} // verus!
