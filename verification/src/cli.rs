//! The command's argument record: the input path, an optional output path,
//! the page number, and a rectangle given as `left`/`top` plus exactly one
//! of `width`/`right` and exactly one of `height`/`bottom`, all in the
//! screen convention (origin top-left, y increasing downward). The
//! mutually-exclusive pairs are enforced at construction, before any
//! document is touched.

use vstd::prelude::*;

use crate::bbox::BBox;
use crate::bbox::llur;
use crate::error::HighlightError;

verus! {

/// The validated arguments of one highlight operation.
#[derive(Debug, Clone)]
pub struct Cli {
    /// The document to add a highlight to.
    pub path: String,
    /// If set, the annotated document is written here; if unset, the
    /// document at `path` is updated in place.
    pub out_path: Option<String>,
    /// The page on which to render the highlight bounding box.
    pub page: u32,
    /// The left of the highlight bounding box, in pixels.
    pub left: i64,
    /// The top of the highlight bounding box, in pixels.
    pub top: i64,
    /// The width of the highlight bounding box, in pixels.
    pub width: Option<i64>,
    /// The right of the highlight bounding box, in pixels.
    pub right: Option<i64>,
    /// The height of the highlight bounding box, in pixels.
    pub height: Option<i64>,
    /// The bottom of the highlight bounding box, in pixels.
    pub bottom: Option<i64>,
}

impl Cli {
    /// Exactly one of each mutually-exclusive pair is present.
    pub open spec fn wf(self) -> bool {
        &&& (self.width is Some) != (self.right is Some)
        &&& (self.height is Some) != (self.bottom is Some)
    }

    /// The rectangle's width: given directly, or derived as `right - left`.
    pub open spec fn spec_width(self) -> int {
        if self.width is Some {
            self.width.unwrap() as int
        } else {
            self.right.unwrap() - self.left
        }
    }

    /// The rectangle's height: given directly, or derived as `top - bottom`.
    pub open spec fn spec_height(self) -> int {
        if self.height is Some {
            self.height.unwrap() as int
        } else {
            self.top - self.bottom.unwrap()
        }
    }

    /// Every value the rectangle construction computes stays inside `i64`.
    pub open spec fn bbox_fits(self) -> bool {
        &&& i64::MIN <= self.spec_width() <= i64::MAX
        &&& i64::MIN <= self.spec_height() <= i64::MAX
        &&& i64::MIN <= self.top - self.spec_height() <= i64::MAX
        &&& i64::MIN <= self.left + self.spec_width() <= i64::MAX
    }

    /// Validate and record the arguments. Of `width`/`right` exactly one
    /// must be given, and likewise of `height`/`bottom`; both given is a
    /// conflict, neither is a lack — each detected here, before any
    /// document access.
    pub fn new(
        path: String,
        out_path: Option<String>,
        page: u32,
        left: i64,
        top: i64,
        width: Option<i64>,
        right: Option<i64>,
        height: Option<i64>,
        bottom: Option<i64>,
    ) -> (r: Result<Cli, HighlightError>)
        ensures
            width is Some && right is Some ==> (r matches Err(e) && e is ArgConflict),
            width is None && right is None ==> (r matches Err(e) && e is ArgMissing),
            ((width is Some) != (right is Some)) && height is Some && bottom is Some ==> (
            r matches Err(e) && e is ArgConflict),
            ((width is Some) != (right is Some)) && height is None && bottom is None ==> (
            r matches Err(e) && e is ArgMissing),
            ((width is Some) != (right is Some)) && ((height is Some) != (bottom is Some)) ==> (
            r matches Ok(c) && c.wf() && c.path == path && c.out_path == out_path && c.page == page
                && c.left == left && c.top == top && c.width == width && c.right == right
                && c.height == height && c.bottom == bottom),
    {
        if width.is_some() && right.is_some() {
            return Err(HighlightError::ArgConflict);
        }
        if width.is_none() && right.is_none() {
            return Err(HighlightError::ArgMissing);
        }
        if height.is_some() && bottom.is_some() {
            return Err(HighlightError::ArgConflict);
        }
        if height.is_none() && bottom.is_none() {
            return Err(HighlightError::ArgMissing);
        }
        Ok(Cli { path, out_path, page, left, top, width, right, height, bottom })
    }

    /// The highlight rectangle the arguments describe, still in the screen
    /// convention's terms: the result of the corner-flip construction from
    /// `(left, top, width, height)`, with the width and height derived when
    /// `right` or `bottom` was given instead. A computation that would
    /// leave the machine integer range is reported, not truncated.
    pub fn get_bbox(&self) -> (r: Result<BBox, HighlightError>)
        requires
            self.wf(),
        ensures
            self.bbox_fits() ==> (r matches Ok(b) && b == llur(
                self.left as int,
                self.top - self.spec_height(),
                self.left + self.spec_width(),
                self.top as int,
            )),
            !self.bbox_fits() ==> (r matches Err(e) && e is CoordinateOverflow),
    {
        let lo: i128 = i64::MIN as i128;
        let hi: i128 = i64::MAX as i128;
        let w: i128 = match (self.width, self.right) {
            (Some(w), _) => w as i128,
            (None, Some(right)) => (right as i128) - (self.left as i128),
            (None, None) => {
                return Err(HighlightError::CoordinateOverflow);
            },
        };
        let h: i128 = match (self.height, self.bottom) {
            (Some(h), _) => h as i128,
            (None, Some(bottom)) => (self.top as i128) - (bottom as i128),
            (None, None) => {
                return Err(HighlightError::CoordinateOverflow);
            },
        };
        let low_y: i128 = (self.top as i128) - h;
        let right_x: i128 = (self.left as i128) + w;
        if lo <= w && w <= hi && lo <= h && h <= hi && lo <= low_y && low_y <= hi && lo <= right_x
            && right_x <= hi {
            Ok(BBox::from_ltwh(self.left, self.top, w as i64, h as i64))
        } else {
            Err(HighlightError::CoordinateOverflow)
        }
    }
}

} // verus!
