//! Plain values shared by every stage: the scroll axis, the two growing
//! edges, keypoint positions and crop rectangles.

use vstd::prelude::*;

verus! {

/// The axis along which the captured view scrolls.
#[derive(Clone, Copy, Debug, PartialEq, Eq, Structural)]
pub enum ScrollDirection {
    /// The view moves up and down; rows carry the scroll component.
    Vertical,
    /// The view moves left and right; columns carry the scroll component.
    Horizontal,
}

/// One of the two edges at which the stitched content grows.
#[derive(Clone, Copy, Debug, PartialEq, Eq, Structural)]
pub enum ScrollImageList {
    /// The leading edge: content above (or left of) the first capture.
    Top,
    /// The trailing edge: content below (or right of) the first capture.
    Bottom,
}

impl ScrollImageList {
    /// The other edge.
    pub open spec fn spec_opposite(self) -> ScrollImageList {
        match self {
            ScrollImageList::Top => ScrollImageList::Bottom,
            ScrollImageList::Bottom => ScrollImageList::Top,
        }
    }

    /// The other edge.
    #[verifier::when_used_as_spec(spec_opposite)]
    pub fn opposite(self) -> (other: ScrollImageList)
        ensures
            other == self.spec_opposite(),
    {
        match self {
            ScrollImageList::Top => ScrollImageList::Bottom,
            ScrollImageList::Bottom => ScrollImageList::Top,
        }
    }
}

/// A keypoint position, in pixels of the analysed (possibly downsampled) frame.
#[derive(Clone, Copy, Debug, PartialEq, Eq, Hash, Structural)]
pub struct ScrollOffset {
    pub x: i32,
    pub y: i32,
}

impl ScrollOffset {
    pub fn new(x: i32, y: i32) -> (offset: Self)
        ensures
            offset.x == x,
            offset.y == y,
    {
        Self { x, y }
    }

    /// The coordinate that changes when the view scrolls.
    pub open spec fn along(self, direction: ScrollDirection) -> int {
        match direction {
            ScrollDirection::Vertical => self.y as int,
            ScrollDirection::Horizontal => self.x as int,
        }
    }

    /// The coordinate that scrolling leaves alone.
    pub open spec fn across(self, direction: ScrollDirection) -> int {
        match direction {
            ScrollDirection::Vertical => self.x as int,
            ScrollDirection::Horizontal => self.y as int,
        }
    }
}

/// A rectangle of a frame, in pixels of the raw capture.
#[derive(Clone, Copy, Debug, PartialEq, Eq, Structural)]
pub struct CropRegion {
    pub x: u32,
    pub y: u32,
    pub width: u32,
    pub height: u32,
}

impl CropRegion {
    pub fn new(x: u32, y: u32, width: u32, height: u32) -> (region: Self)
        ensures
            region.x == x,
            region.y == y,
            region.width == width,
            region.height == height,
    {
        Self { x, y, width, height }
    }
}

} // verus!
