//! The arithmetic of placing a frame: where its edge falls in the stitched
//! content, how much of it is new, what is cut from it and how much of the
//! cut may be painted over by the next frame.

use crate::geometry::{CropRegion, ScrollDirection, ScrollImageList, ScrollOffset};
use crate::raster::{Raster, RasterView};
use vstd::prelude::*;

verus! {

/// The largest frame side, and the largest extent of stitched content on
/// either side of the origin, that a session accepts.
pub const MAX_EXTENT: i32 = 0x3fff_ffff;

/// The size of a frame along the scroll axis.
pub open spec fn side_of(direction: ScrollDirection, width: int, height: int) -> int {
    match direction {
        ScrollDirection::Vertical => height,
        ScrollDirection::Horizontal => width,
    }
}

/// The size of a frame on the axis that scrolling leaves alone.
pub open spec fn cross_of(direction: ScrollDirection, width: int, height: int) -> int {
    match direction {
        ScrollDirection::Vertical => width,
        ScrollDirection::Horizontal => height,
    }
}

/// The share of the cross axis that is kept for analysis, as a fraction. A
/// zero denominator keeps every pixel.
#[derive(Clone, Copy, Debug, PartialEq, Eq, Structural)]
pub struct SampleRate {
    pub numerator: u32,
    pub denominator: u32,
}

/// The size to which the cross axis of a frame is reduced for analysis: the
/// given share of `cross`, rounded down, held between `min_size` and
/// `max_size` (the minimum wins), and never more than `cross` itself.
pub open spec fn sampled_size(cross: int, rate: SampleRate, min_size: int, max_size: int) -> int {
    let scaled = if rate.denominator == 0 {
        cross
    } else {
        (cross * rate.numerator) / (rate.denominator as int)
    };
    let capped = if scaled < max_size {
        scaled
    } else {
        max_size
    };
    let target = if capped > min_size {
        capped
    } else {
        min_size
    };
    if target < cross {
        target
    } else {
        cross
    }
}

/// Computes the size to which the cross axis of a frame is reduced.
pub fn sample_size(cross: u32, rate: SampleRate, min_size: u32, max_size: u32) -> (size: u32)
    ensures
        size == sampled_size(cross as int, rate, min_size as int, max_size as int),
        size <= cross,
{
    let scaled: u64 = if rate.denominator == 0 {
        cross as u64
    } else {
        assert(cross * rate.numerator <= 0xffff_ffff * 0xffff_ffff) by (nonlinear_arith)
            requires
                0 <= cross <= 0xffff_ffff,
                0 <= rate.numerator <= 0xffff_ffff,
        ;
        (cross as u64) * (rate.numerator as u64) / (rate.denominator as u64)
    };
    let capped: u64 = if scaled < max_size as u64 {
        scaled
    } else {
        max_size as u64
    };
    let target: u64 = if capped > min_size as u64 {
        capped
    } else {
        min_size as u64
    };
    if target < cross as u64 {
        target as u32
    } else {
        cross
    }
}

/// Where the origin of a new frame lies along the scroll axis, in the
/// coordinates of the stitched content: the position of the index it was
/// matched with, moved by the displacement between the matched keypoint
/// `origin` of the index and the keypoint `new` of the frame.
pub open spec fn frame_origin(
    direction: ScrollDirection,
    index_position: int,
    origin: ScrollOffset,
    new: ScrollOffset,
) -> int {
    origin.along(direction) - new.along(direction) + index_position
}

/// The position of the outer edge of a frame whose origin lies at `origin`:
/// its far end when it lies at or after the start of the content, its near
/// end when it lies before.
pub open spec fn edge_of(origin: int, side: int) -> int {
    if origin >= 0 {
        origin + side
    } else {
        origin
    }
}

/// The edge that a frame with its outer edge at `edge` extends, if it adds
/// anything: the trailing edge when it reaches past the trailing extent,
/// the leading edge when it reaches before the leading extent. A frame that
/// adds nothing, or that would carry an extent past `MAX_EXTENT`, extends
/// neither.
pub open spec fn grown_edge(edge: int, top_size: int, bottom_size: int) -> Option<ScrollImageList> {
    if edge >= 0 && edge > bottom_size && edge <= MAX_EXTENT {
        Some(ScrollImageList::Bottom)
    } else if edge < 0 && -edge > top_size && -edge <= MAX_EXTENT {
        Some(ScrollImageList::Top)
    } else {
        None
    }
}

/// The absolute value of an integer.
pub open spec fn magnitude(value: int) -> int {
    if value >= 0 {
        value
    } else {
        -value
    }
}

/// The allowance of overlap kept with a frame that adds `delta` pixels:
/// what is missing to half a frame, and nothing when the frame adds half a
/// frame or more; it takes the sign of `delta`.
pub open spec fn overlay_of(delta: int, side: int) -> int {
    let room = side / 2 - magnitude(delta);
    let allowance = if room > 0 {
        room
    } else {
        0
    };
    if delta > 0 {
        allowance
    } else {
        -allowance
    }
}

/// The part of a frame that is kept when `amount` pixels of it are wanted:
/// the last `amount` rows (or columns) when `amount` is positive, the
/// first `-amount` when it is not.
pub open spec fn crop_region_of(
    direction: ScrollDirection,
    width: int,
    height: int,
    amount: int,
) -> CropRegion {
    match direction {
        ScrollDirection::Vertical => if amount > 0 {
            CropRegion {
                x: 0,
                y: (height - amount) as u32,
                width: width as u32,
                height: amount as u32,
            }
        } else {
            CropRegion { x: 0, y: 0, width: width as u32, height: (-amount) as u32 }
        },
        ScrollDirection::Horizontal => if amount > 0 {
            CropRegion {
                x: (width - amount) as u32,
                y: 0,
                width: amount as u32,
                height: height as u32,
            }
        } else {
            CropRegion { x: 0, y: 0, width: (-amount) as u32, height: height as u32 }
        },
    }
}

/// The bound on plausible shifts for a search at the given edge: a frame
/// matched against an index at `index_position` adds to the trailing edge
/// only with a shift of at most this (negative) bound, and to the leading
/// edge only with a shift of at least this (positive) bound.
pub open spec fn min_diff_of(
    list: ScrollImageList,
    top_size: int,
    bottom_size: int,
    side: int,
    index_position: int,
) -> int {
    match list {
        ScrollImageList::Bottom => -(bottom_size - side + 1) + index_position,
        ScrollImageList::Top => (top_size + 1) + index_position,
    }
}

/// How far the indexed frame of an edge reaches into a new frame with its
/// outer edge at `edge`: the rows (or columns) that the two share.
pub open spec fn index_overlap(
    list: ScrollImageList,
    edge: int,
    side: int,
    top_index_size: int,
    bottom_index_size: int,
) -> int {
    match list {
        ScrollImageList::Bottom => bottom_index_size - (edge - side),
        ScrollImageList::Top => top_index_size + edge,
    }
}

/// A kept part of a frame, with the allowance of overlap that the part
/// painted before it leaves it: positive in the trailing list, negative in
/// the leading list.
#[derive(Clone, Debug)]
pub struct ScrollImage {
    pub image: Raster,
    pub overlay_size: i32,
}

/// The size of a kept part along the scroll axis.
pub open spec fn along_len(image: RasterView, direction: ScrollDirection) -> int {
    side_of(direction, image.width, image.height)
}

/// The new coverage that a kept part stands for: its size along the scroll
/// axis without its allowance of overlap.
pub open spec fn piece_growth(piece: ScrollImage, direction: ScrollDirection) -> int {
    along_len(piece.image@, direction) - magnitude(piece.overlay_size as int)
}

/// The coverage that the first `n` parts of a list stand for.
pub open spec fn list_extent(list: Seq<ScrollImage>, direction: ScrollDirection, n: int) -> int
    decreases n,
{
    if n <= 0 {
        0
    } else {
        list_extent(list, direction, n - 1) + piece_growth(list[n - 1], direction)
    }
}

/// Whether a kept part fits a session with frames of the given size: it is
/// as wide as a frame on the cross axis, no longer than a frame along the
/// scroll axis, adds at least one pixel, and its allowance has the sign of
/// its list and is at most half a frame.
pub open spec fn piece_wf(
    piece: ScrollImage,
    direction: ScrollDirection,
    width: int,
    height: int,
    trailing: bool,
) -> bool {
    &&& piece.image.wf()
    &&& cross_of(direction, piece.image@.width, piece.image@.height) == cross_of(
        direction,
        width,
        height,
    )
    &&& along_len(piece.image@, direction) <= side_of(direction, width, height)
    &&& piece_growth(piece, direction) >= 1
    &&& 2 * magnitude(piece.overlay_size as int) <= side_of(direction, width, height)
    &&& if trailing {
        piece.overlay_size >= 0
    } else {
        piece.overlay_size <= 0
    }
}

/// Whether every part of a list fits the session.
pub open spec fn list_wf(
    list: Seq<ScrollImage>,
    direction: ScrollDirection,
    width: int,
    height: int,
    trailing: bool,
) -> bool {
    forall|i: int|
        0 <= i < list.len() ==> piece_wf(#[trigger] list[i], direction, width, height, trailing)
}

/// The coverage of a list grows with every part.
pub proof fn lemma_list_extent_grows(
    list: Seq<ScrollImage>,
    direction: ScrollDirection,
    width: int,
    height: int,
    trailing: bool,
    m: int,
    n: int,
)
    requires
        list_wf(list, direction, width, height, trailing),
        0 <= m <= n <= list.len(),
    ensures
        list_extent(list, direction, m) + (n - m) <= list_extent(list, direction, n),
    decreases n - m,
{
    if m < n {
        lemma_list_extent_grows(list, direction, width, height, trailing, m, n - 1);
        assert(piece_wf(list[n - 1], direction, width, height, trailing));
    }
}

/// The coverage of the first parts of a list does not depend on the parts
/// after them.
pub proof fn lemma_list_extent_prefix(
    a: Seq<ScrollImage>,
    b: Seq<ScrollImage>,
    direction: ScrollDirection,
    n: int,
)
    requires
        n <= a.len(),
        n <= b.len(),
        forall|i: int| 0 <= i < n ==> a[i] == b[i],
    ensures
        list_extent(a, direction, n) == list_extent(b, direction, n),
    decreases n,
{
    if n > 0 {
        lemma_list_extent_prefix(a, b, direction, n - 1);
    }
}

/// The size of a frame along the scroll axis.
pub fn scroll_side(direction: ScrollDirection, width: u32, height: u32) -> (side: u32)
    ensures
        side == side_of(direction, width as int, height as int),
{
    match direction {
        ScrollDirection::Vertical => height,
        ScrollDirection::Horizontal => width,
    }
}

/// The size of a frame on the axis that scrolling leaves alone.
pub fn cross_side(direction: ScrollDirection, width: u32, height: u32) -> (cross: u32)
    ensures
        cross == cross_of(direction, width as int, height as int),
{
    match direction {
        ScrollDirection::Vertical => width,
        ScrollDirection::Horizontal => height,
    }
}

/// The part of a frame of the given size that is kept when `amount` pixels
/// of it are wanted along the scroll axis.
pub fn crop_region(direction: ScrollDirection, width: u32, height: u32, amount: i32) -> (region:
    CropRegion)
    requires
        width <= MAX_EXTENT,
        height <= MAX_EXTENT,
        magnitude(amount as int) <= side_of(direction, width as int, height as int),
    ensures
        region == crop_region_of(direction, width as int, height as int, amount as int),
{
    let wanted: u32 = if amount > 0 {
        amount as u32
    } else {
        (-amount) as u32
    };
    match direction {
        ScrollDirection::Vertical => if amount > 0 {
            CropRegion::new(0, height - wanted, width, wanted)
        } else {
            CropRegion::new(0, 0, width, wanted)
        },
        ScrollDirection::Horizontal => if amount > 0 {
            CropRegion::new(width - wanted, 0, wanted, height)
        } else {
            CropRegion::new(0, 0, wanted, height)
        },
    }
}

} // verus!
