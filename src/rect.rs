use vstd::prelude::*;

verus! {

/// A rectangle given by its top-left corner and its extent.
///
/// The width and height are not validated: a rectangle built from an
/// inverted pair of corners has a negative width or height.
#[derive(Debug, Clone, Copy, PartialEq, Eq, Structural, Hash, Default)]
pub struct Rect {
    pub x: i32,
    pub y: i32,
    pub width: i32,
    pub height: i32,
}

impl Rect {
    /// The bottom-right corner, as mathematical integers.
    pub open spec fn spec_bottom_right(self) -> (int, int) {
        (self.x + self.width, self.y + self.height)
    }

    /// Whether the bottom-right corner can be represented with `i32` coordinates.
    pub open spec fn corners_fit(self) -> bool {
        &&& i32::MIN <= self.x + self.width <= i32::MAX
        &&& i32::MIN <= self.y + self.height <= i32::MAX
    }

    /// Make a new Rect
    pub fn new_xywh(x: i32, y: i32, width: i32, height: i32) -> (r: Self)
        ensures
            r == (Rect { x, y, width, height }),
    {
        Rect { x, y, width, height }
    }

    /// Make a Rect from the coordinates of its left, top, right and bottom edges.
    ///
    /// The edges are taken as they are: a right edge left of the left edge
    /// gives a negative width, and likewise for the height.
    pub fn from_ltrb(left: i32, top: i32, right: i32, bottom: i32) -> (r: Self)
        requires
            i32::MIN <= right - left <= i32::MAX,
            i32::MIN <= bottom - top <= i32::MAX,
        ensures
            r == (Rect { x: left, y: top, width: (right - left) as i32, height: (bottom - top) as i32 }),
            r.corners_fit(),
            r.spec_bottom_right() == (right as int, bottom as int),
    {
        Rect { x: left, y: top, width: right - left, height: bottom - top }
    }

    /// Get the top-left point
    pub fn top_left(self) -> (r: (i32, i32))
        ensures
            r == (self.x, self.y),
    {
        (self.x, self.y)
    }

    /// Get the bottom-right point
    pub fn bottom_right(self) -> (r: (i32, i32))
        requires
            self.corners_fit(),
        ensures
            (r.0 as int, r.1 as int) == self.spec_bottom_right(),
    {
        (self.x + self.width, self.y + self.height)
    }
}

/// A rectangle made from its edges has its top-left corner on the left and top
/// edges and its bottom-right corner on the right and bottom edges.
pub proof fn lemma_corners_of_ltrb(left: i32, top: i32, right: i32, bottom: i32)
    requires
        i32::MIN <= right - left <= i32::MAX,
        i32::MIN <= bottom - top <= i32::MAX,
    ensures
        ({
            let r = Rect { x: left, y: top, width: (right - left) as i32, height: (bottom - top) as i32 };
            &&& (r.x, r.y) == (left, top)
            &&& r.corners_fit()
            &&& r.spec_bottom_right() == (right as int, bottom as int)
        }),
{
}

} // verus!
