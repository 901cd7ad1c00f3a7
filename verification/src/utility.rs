//! The crop selection: a rectangle given by two corners, together with the
//! pending rectangle that an edge drag is reshaping.

use vstd::prelude::*;

verus! {

/// A crop selection in drawing-area coordinates.
///
/// `start_*`/`end_*` are the committed corners. `new_*` hold the rectangle
/// while one of its edges is being dragged; it replaces the committed one
/// when the drag ends.
#[derive(Clone, Copy, Debug, PartialEq, Eq)]
pub struct CropArea {
    pub start_x: i64,
    pub start_y: i64,
    pub end_x: i64,
    pub end_y: i64,
    pub new_start_x: i64,
    pub new_start_y: i64,
    pub new_end_x: i64,
    pub new_end_y: i64,
}

impl CropArea {
    /// True when the pending rectangle equals the committed one.
    pub open spec fn pending_matches_corners(self) -> bool {
        &&& self.new_start_x == self.start_x
        &&& self.new_start_y == self.start_y
        &&& self.new_end_x == self.end_x
        &&& self.new_end_y == self.end_y
    }

    /// True when both areas have the same committed corners.
    pub open spec fn same_corners(self, other: CropArea) -> bool {
        &&& self.start_x == other.start_x
        &&& self.start_y == other.start_y
        &&& self.end_x == other.end_x
        &&& self.end_y == other.end_y
    }

    /// True when both areas have the same pending rectangle.
    pub open spec fn same_pending(self, other: CropArea) -> bool {
        &&& self.new_start_x == other.new_start_x
        &&& self.new_start_y == other.new_start_y
        &&& self.new_end_x == other.new_end_x
        &&& self.new_end_y == other.new_end_y
    }

    /// The area with these corners and a pending rectangle equal to them.
    pub open spec fn spec_with_corners(start_x: i64, start_y: i64, end_x: i64, end_y: i64) -> CropArea {
        CropArea {
            start_x,
            start_y,
            end_x,
            end_y,
            new_start_x: start_x,
            new_start_y: start_y,
            new_end_x: end_x,
            new_end_y: end_y,
        }
    }

    /// The empty selection: every coordinate is 0.
    pub fn new() -> (r: CropArea)
        ensures
            r == CropArea::spec_with_corners(0, 0, 0, 0),
    {
        CropArea::new_with_params(0, 0, 0, 0)
    }

    /// A selection with the given corners, pending rectangle included.
    pub fn new_with_params(start_x: i64, start_y: i64, end_x: i64, end_y: i64) -> (r: CropArea)
        ensures
            r == CropArea::spec_with_corners(start_x, start_y, end_x, end_y),
    {
        CropArea {
            start_x,
            start_y,
            end_x,
            end_y,
            new_start_x: start_x,
            new_start_y: start_y,
            new_end_x: end_x,
            new_end_y: end_y,
        }
    }

    pub fn get_start_x(&self) -> (r: i64)
        ensures
            r == self.start_x,
    {
        self.start_x
    }

    pub fn set_start_x(&mut self, value: i64)
        ensures
            *final(self) == (CropArea { start_x: value, ..*old(self) }),
    {
        self.start_x = value;
    }

    pub fn get_start_y(&self) -> (r: i64)
        ensures
            r == self.start_y,
    {
        self.start_y
    }

    pub fn set_start_y(&mut self, value: i64)
        ensures
            *final(self) == (CropArea { start_y: value, ..*old(self) }),
    {
        self.start_y = value;
    }

    pub fn get_end_x(&self) -> (r: i64)
        ensures
            r == self.end_x,
    {
        self.end_x
    }

    pub fn set_end_x(&mut self, value: i64)
        ensures
            *final(self) == (CropArea { end_x: value, ..*old(self) }),
    {
        self.end_x = value;
    }

    pub fn get_end_y(&self) -> (r: i64)
        ensures
            r == self.end_y,
    {
        self.end_y
    }

    pub fn set_end_y(&mut self, value: i64)
        ensures
            *final(self) == (CropArea { end_y: value, ..*old(self) }),
    {
        self.end_y = value;
    }

    pub fn get_new_start_x(&self) -> (r: i64)
        ensures
            r == self.new_start_x,
    {
        self.new_start_x
    }

    pub fn set_new_start_x(&mut self, value: i64)
        ensures
            *final(self) == (CropArea { new_start_x: value, ..*old(self) }),
    {
        self.new_start_x = value;
    }

    pub fn get_new_start_y(&self) -> (r: i64)
        ensures
            r == self.new_start_y,
    {
        self.new_start_y
    }

    pub fn set_new_start_y(&mut self, value: i64)
        ensures
            *final(self) == (CropArea { new_start_y: value, ..*old(self) }),
    {
        self.new_start_y = value;
    }

    pub fn get_new_end_x(&self) -> (r: i64)
        ensures
            r == self.new_end_x,
    {
        self.new_end_x
    }

    pub fn set_new_end_x(&mut self, value: i64)
        ensures
            *final(self) == (CropArea { new_end_x: value, ..*old(self) }),
    {
        self.new_end_x = value;
    }

    pub fn get_new_end_y(&self) -> (r: i64)
        ensures
            r == self.new_end_y,
    {
        self.new_end_y
    }

    pub fn set_new_end_y(&mut self, value: i64)
        ensures
            *final(self) == (CropArea { new_end_y: value, ..*old(self) }),
    {
        self.new_end_y = value;
    }
}

} // verus!
