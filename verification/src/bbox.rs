//! Axis-aligned rectangles in the document format's native coordinate space
//! (origin at the bottom-left corner, y increasing upward).
//!
//! Coordinates are whole units. The one non-obvious algorithm of the crate
//! lives here: flipping a rectangle given in the screen convention (origin
//! top-left, y increasing downward) into the native convention, and placing
//! it inside a page's own rectangle.

use vstd::prelude::*;

verus! {

/// A point in the native coordinate space.
#[derive(Clone, Copy, Debug, PartialEq, Eq, Structural)]
pub struct Coordinate {
    pub x: i64,
    pub y: i64,
}

impl Coordinate {
    /// Component-wise sum of two points.
    pub fn add(self, rhs: Coordinate) -> (r: Coordinate)
        requires
            i64::MIN <= self.x + rhs.x <= i64::MAX,
            i64::MIN <= self.y + rhs.y <= i64::MAX,
        ensures
            r.x == self.x + rhs.x,
            r.y == self.y + rhs.y,
    {
        Coordinate { x: self.x + rhs.x, y: self.y + rhs.y }
    }
}

/// A rectangle given by its lower-left and upper-right corners, in the
/// native coordinate space. A rectangle describing a real visual area has
/// `upper_right.x >= lower_left.x` and `upper_right.y >= lower_left.y`;
/// construction does not enforce this, so a caller handing a negative width
/// or height obtains an inverted rectangle unchecked.
#[derive(Clone, Copy, Debug, PartialEq, Eq, Structural)]
pub struct BBox {
    pub lower_left: Coordinate,
    pub upper_right: Coordinate,
}

/// The rectangle with lower-left `(x0, y0)` and upper-right `(x1, y1)`.
pub open spec fn llur(x0: int, y0: int, x1: int, y1: int) -> BBox {
    BBox {
        lower_left: Coordinate { x: x0 as i64, y: y0 as i64 },
        upper_right: Coordinate { x: x1 as i64, y: y1 as i64 },
    }
}

impl BBox {
    /// Height of the rectangle (negative for an inverted one).
    pub open spec fn spec_height(self) -> int {
        self.upper_right.y - self.lower_left.y
    }

    pub fn height(&self) -> (r: i64)
        requires
            i64::MIN <= self.spec_height() <= i64::MAX,
        ensures
            r == self.spec_height(),
    {
        self.upper_right.y - self.lower_left.y
    }

    /// Direct construction from two opposite corners, already in native
    /// coordinates. No validation is performed.
    pub fn from_llur(x0: i64, y0: i64, x1: i64, y1: i64) -> (r: BBox)
        ensures
            r == llur(x0 as int, y0 as int, x1 as int, y1 as int),
    {
        let lower_left = Coordinate { x: x0, y: y0 };
        let upper_right = Coordinate { x: x1, y: y1 };
        BBox { lower_left, upper_right }
    }

    /// Construction from `(left, top, width, height)` in the screen
    /// convention: origin top-left, y increasing downward. This performs the
    /// single axis flip the crate exists for: the lower-left corner lands at
    /// `(left, top - height)` and the upper-right at `(left + width, top)`.
    pub fn from_ltwh(left: i64, top: i64, width: i64, height: i64) -> (r: BBox)
        requires
            i64::MIN <= top - height <= i64::MAX,
            i64::MIN <= left + width <= i64::MAX,
        ensures
            r == llur(left as int, top - height, left + width, top as int),
    {
        let lower_left = Coordinate { x: left, y: top - height };
        let upper_right = Coordinate { x: left + width, y: top };
        BBox { lower_left, upper_right }
    }

    /// The four values of the format's rectangle representation, in order
    /// lower-left x, lower-left y, upper-right x, upper-right y.
    pub open spec fn rect_seq(self) -> Seq<i64> {
        seq![self.lower_left.x, self.lower_left.y, self.upper_right.x, self.upper_right.y]
    }

    /// The eight values of the format's quadrilateral-points representation:
    /// the rectangle's corners in winding order lower-left, lower-right,
    /// upper-right, upper-left.
    pub open spec fn quad_seq(self) -> Seq<i64> {
        seq![
            self.lower_left.x,
            self.lower_left.y,
            self.upper_right.x,
            self.lower_left.y,
            self.upper_right.x,
            self.upper_right.y,
            self.lower_left.x,
            self.upper_right.y,
        ]
    }

    /// Rectangle representation, as executable values.
    pub fn as_vec(&self) -> (r: Vec<i64>)
        ensures
            r@ == self.rect_seq(),
    {
        let mut v: Vec<i64> = Vec::new();
        v.push(self.lower_left.x);
        v.push(self.lower_left.y);
        v.push(self.upper_right.x);
        v.push(self.upper_right.y);
        proof {
            assert(v@ =~= self.rect_seq());
        }
        v
    }

    /// Quadrilateral-points representation, as executable values.
    pub fn as_quad_vec(&self) -> (r: Vec<i64>)
        ensures
            r@ == self.quad_seq(),
    {
        let mut v: Vec<i64> = Vec::new();
        v.push(self.lower_left.x);
        v.push(self.lower_left.y);
        v.push(self.upper_right.x);
        v.push(self.lower_left.y);
        v.push(self.upper_right.x);
        v.push(self.upper_right.y);
        v.push(self.lower_left.x);
        v.push(self.upper_right.y);
        proof {
            assert(v@ =~= self.quad_seq());
        }
        v
    }

    /// All intermediate values of `offset_within` stay inside `i64`.
    pub open spec fn offset_fits(self, other: BBox) -> bool {
        &&& i64::MIN <= self.lower_left.x + other.lower_left.x <= i64::MAX
        &&& i64::MIN <= self.upper_right.x + other.lower_left.x <= i64::MAX
        &&& i64::MIN <= self.spec_height() <= i64::MAX
        &&& i64::MIN <= other.upper_right.y - self.upper_right.y <= i64::MAX
        &&& i64::MIN <= other.upper_right.y - self.upper_right.y - self.spec_height() <= i64::MAX
    }

    /// Where `offset_within` lands `self` inside the page rectangle
    /// `other`, stated once, as a value.
    pub open spec fn offset_model(self, other: BBox) -> BBox {
        llur(
            self.lower_left.x + other.lower_left.x,
            other.upper_right.y - self.upper_right.y - self.spec_height(),
            self.upper_right.x + other.lower_left.x,
            other.upper_right.y - self.upper_right.y,
        )
    }

    /// Decide `offset_fits` executably, computing in a wider integer type.
    pub fn check_offset_fits(&self, other: &BBox) -> (b: bool)
        ensures
            b == self.offset_fits(*other),
    {
        let lo: i128 = i64::MIN as i128;
        let hi: i128 = i64::MAX as i128;
        let h: i128 = (self.upper_right.y as i128) - (self.lower_left.y as i128);
        let llx: i128 = (self.lower_left.x as i128) + (other.lower_left.x as i128);
        let urx: i128 = (self.upper_right.x as i128) + (other.lower_left.x as i128);
        let ury: i128 = (other.upper_right.y as i128) - (self.upper_right.y as i128);
        let lly: i128 = ury - h;
        lo <= h && h <= hi && lo <= llx && llx <= hi && lo <= urx && urx <= hi && lo <= ury && ury
            <= hi && lo <= lly && lly <= hi
    }

    /// Place `self` inside the page rectangle `other`: `self` is read as a
    /// rectangle in the screen convention relative to the page's rendered
    /// height, flipped into the page's bottom-up frame, and translated by the
    /// page's own lower-left offset.
    pub fn offset_within(self, other: BBox) -> (r: BBox)
        requires
            self.offset_fits(other),
        ensures
            r == self.offset_model(other),
    {
        let h = self.height();
        let lower_left = Coordinate {
            x: self.lower_left.x + other.lower_left.x,
            y: other.upper_right.y - self.upper_right.y - h,
        };
        let upper_right = Coordinate {
            x: self.upper_right.x + other.lower_left.x,
            y: other.upper_right.y - self.upper_right.y,
        };
        BBox { lower_left, upper_right }
    }
}

/// The corner-flip construction, then the rectangle representation: for any
/// `(left, top, width, height)` whose flip stays inside the machine range,
/// the four emitted values are `left`, `top - height`, `left + width`,
/// `top`, in that order.
pub proof fn lemma_ltwh_rect_values(left: i64, top: i64, width: i64, height: i64)
    requires
        i64::MIN <= top - height <= i64::MAX,
        i64::MIN <= left + width <= i64::MAX,
    ensures
        llur(left as int, top - height, left + width, top as int).rect_seq() == seq![
            left,
            (top - height) as i64,
            (left + width) as i64,
            top,
        ],
{
    assert(llur(left as int, top - height, left + width, top as int).rect_seq() =~= seq![
        left,
        (top - height) as i64,
        (left + width) as i64,
        top,
    ]);
}

/// The quadrilateral representation holds exactly the four corners of the
/// rectangle representation, in the fixed winding order lower-left,
/// lower-right, upper-right, upper-left.
pub proof fn lemma_quad_is_rect_corners(b: BBox)
    ensures
        b.quad_seq().len() == 8,
        b.quad_seq() == seq![
            b.rect_seq()[0],
            b.rect_seq()[1],
            b.rect_seq()[2],
            b.rect_seq()[1],
            b.rect_seq()[2],
            b.rect_seq()[3],
            b.rect_seq()[0],
            b.rect_seq()[3],
        ],
{
    assert(b.quad_seq() =~= seq![
        b.rect_seq()[0],
        b.rect_seq()[1],
        b.rect_seq()[2],
        b.rect_seq()[1],
        b.rect_seq()[2],
        b.rect_seq()[3],
        b.rect_seq()[0],
        b.rect_seq()[3],
    ]);
}

/// Placement is translation-consistent: a highlight built with the
/// corner-flip construction from `(left, top, width, height)`, placed
/// inside a page rectangle with lower-left `(0, 0)` and upper-right
/// `(page_width, page_height)`, lands with its lower-left at
/// `(left, page_height - top - height)` and its upper-right at
/// `(left + width, page_height - top)`.
pub proof fn lemma_offset_within_translation(
    left: i64,
    top: i64,
    width: i64,
    height: i64,
    page_width: i64,
    page_height: i64,
)
    requires
        i64::MIN <= top - height <= i64::MAX,
        i64::MIN <= left + width <= i64::MAX,
        i64::MIN <= page_height - top <= i64::MAX,
        i64::MIN <= page_height - top - height <= i64::MAX,
    ensures
        llur(left as int, top - height, left + width, top as int).offset_model(
            llur(0, 0, page_width as int, page_height as int),
        ) == llur(
            left as int,
            page_height - top - height,
            left + width,
            page_height - top,
        ),
{
}

} // verus!
