//! Composition: painting the kept parts of all frames into one raster.

use crate::geometry::ScrollDirection;
use crate::placement::{
    along_len, cross_of, lemma_list_extent_grows, list_extent, list_wf, piece_growth, piece_wf,
    side_of, ScrollImage, MAX_EXTENT,
};
use crate::raster::{covers, overlay_image, painted, shows, Picture, Raster};
use vstd::prelude::*;

verus! {

/// The column at which a part is pasted that starts at `start` along the
/// scroll axis.
pub open spec fn place_x(direction: ScrollDirection, start: int) -> int {
    match direction {
        ScrollDirection::Vertical => 0,
        ScrollDirection::Horizontal => start,
    }
}

/// The row at which a part is pasted that starts at `start` along the
/// scroll axis.
pub open spec fn place_y(direction: ScrollDirection, start: int) -> int {
    match direction {
        ScrollDirection::Vertical => start,
        ScrollDirection::Horizontal => 0,
    }
}

/// Where part `i` of the trailing list starts in the composed raster: after
/// the leading content and the coverage of the parts before it, moved back
/// by its allowance of overlap.
pub open spec fn bottom_start(
    list: Seq<ScrollImage>,
    direction: ScrollDirection,
    top_size: int,
    i: int,
) -> int {
    top_size + list_extent(list, direction, i) - list[i].overlay_size
}

/// Where part `i` of the leading list starts in the composed raster: before
/// the first frame by the coverage of the parts up to and including it.
pub open spec fn top_start(
    list: Seq<ScrollImage>,
    direction: ScrollDirection,
    top_size: int,
    i: int,
) -> int {
    top_size - list_extent(list, direction, i + 1)
}

/// The picture after the first `n` parts of the trailing list have been
/// pasted over `base`, in list order.
pub open spec fn bottom_painted(
    base: Picture,
    list: Seq<ScrollImage>,
    direction: ScrollDirection,
    top_size: int,
    n: int,
) -> Picture
    decreases n,
{
    if n <= 0 {
        base
    } else {
        let start = bottom_start(list, direction, top_size, n - 1);
        painted(
            bottom_painted(base, list, direction, top_size, n - 1),
            list[n - 1].image@,
            place_x(direction, start),
            place_y(direction, start),
        )
    }
}

/// The picture after the first `n` parts of the leading list have been
/// pasted over `base`, in list order.
pub open spec fn top_painted(
    base: Picture,
    list: Seq<ScrollImage>,
    direction: ScrollDirection,
    top_size: int,
    n: int,
) -> Picture
    decreases n,
{
    if n <= 0 {
        base
    } else {
        let start = top_start(list, direction, top_size, n - 1);
        painted(
            top_painted(base, list, direction, top_size, n - 1),
            list[n - 1].image@,
            place_x(direction, start),
            place_y(direction, start),
        )
    }
}

/// The composed picture: on an empty ground the trailing list is pasted
/// first and the leading list after it, each in list order, so that where
/// two parts meet the one pasted later is seen.
pub open spec fn composed(
    top_list: Seq<ScrollImage>,
    bottom_list: Seq<ScrollImage>,
    direction: ScrollDirection,
    top_size: int,
) -> Picture {
    top_painted(
        bottom_painted(
            |x: int, y: int, c: int| 0u8,
            bottom_list,
            direction,
            top_size,
            bottom_list.len() as int,
        ),
        top_list,
        direction,
        top_size,
        top_list.len() as int,
    )
}

/// What the lists of a session with content promise to the composition.
pub open spec fn composable(
    top_list: Seq<ScrollImage>,
    bottom_list: Seq<ScrollImage>,
    direction: ScrollDirection,
    width: int,
    height: int,
    top_size: int,
    bottom_size: int,
) -> bool {
    &&& 1 <= width <= MAX_EXTENT
    &&& 1 <= height <= MAX_EXTENT
    &&& 0 <= top_size <= MAX_EXTENT
    &&& side_of(direction, width, height) <= bottom_size <= MAX_EXTENT
    &&& list_wf(top_list, direction, width, height, false)
    &&& list_wf(bottom_list, direction, width, height, true)
    &&& list_extent(top_list, direction, top_list.len() as int) == top_size
    &&& list_extent(bottom_list, direction, bottom_list.len() as int) == bottom_size
    &&& bottom_list.len() >= 1
    &&& bottom_list[0].overlay_size == 0
    &&& along_len(bottom_list[0].image@, direction) == side_of(direction, width, height)
}

/// The width of the composed raster.
pub open spec fn composed_width(
    direction: ScrollDirection,
    width: int,
    top_size: int,
    bottom_size: int,
) -> int {
    match direction {
        ScrollDirection::Vertical => width,
        ScrollDirection::Horizontal => top_size + bottom_size,
    }
}

/// The height of the composed raster.
pub open spec fn composed_height(
    direction: ScrollDirection,
    height: int,
    top_size: int,
    bottom_size: int,
) -> int {
    match direction {
        ScrollDirection::Vertical => top_size + bottom_size,
        ScrollDirection::Horizontal => height,
    }
}

/// Whether part `i` of the trailing list covers the pixel `(x, y)` of the
/// composed raster.
pub open spec fn bottom_covers(
    list: Seq<ScrollImage>,
    direction: ScrollDirection,
    top_size: int,
    i: int,
    x: int,
    y: int,
) -> bool {
    let start = bottom_start(list, direction, top_size, i);
    covers(list[i].image@, place_x(direction, start), place_y(direction, start), x, y)
}

/// Whether part `i` of the leading list covers the pixel `(x, y)` of the
/// composed raster.
pub open spec fn top_covers(
    list: Seq<ScrollImage>,
    direction: ScrollDirection,
    top_size: int,
    i: int,
    x: int,
    y: int,
) -> bool {
    let start = top_start(list, direction, top_size, i);
    covers(list[i].image@, place_x(direction, start), place_y(direction, start), x, y)
}

/// Every position below the coverage of the first `n` parts of a list
/// falls into the coverage that one of these parts adds.
pub proof fn lemma_part_at(
    list: Seq<ScrollImage>,
    direction: ScrollDirection,
    width: int,
    height: int,
    trailing: bool,
    target: int,
    n: int,
) -> (i: int)
    requires
        list_wf(list, direction, width, height, trailing),
        0 <= n <= list.len(),
        0 <= target < list_extent(list, direction, n),
    ensures
        0 <= i < n,
        list_extent(list, direction, i) <= target < list_extent(list, direction, i + 1),
    decreases n,
{
    if target >= list_extent(list, direction, n - 1) {
        n - 1
    } else {
        lemma_part_at(list, direction, width, height, trailing, target, n - 1)
    }
}

/// The composed raster has no gap: each of its pixels is covered by a part
/// of the trailing list or by a part of the leading list.
pub proof fn lemma_composition_leaves_no_gap(
    top_list: Seq<ScrollImage>,
    bottom_list: Seq<ScrollImage>,
    direction: ScrollDirection,
    width: int,
    height: int,
    top_size: int,
    bottom_size: int,
    x: int,
    y: int,
)
    requires
        composable(top_list, bottom_list, direction, width, height, top_size, bottom_size),
        0 <= x < composed_width(direction, width, top_size, bottom_size),
        0 <= y < composed_height(direction, height, top_size, bottom_size),
    ensures
        (exists|i: int|
            0 <= i < bottom_list.len() && bottom_covers(bottom_list, direction, top_size, i, x, y))
            || (exists|j: int|
            0 <= j < top_list.len() && top_covers(top_list, direction, top_size, j, x, y)),
{
    let along = match direction {
        ScrollDirection::Vertical => y,
        ScrollDirection::Horizontal => x,
    };
    if along >= top_size {
        let i = lemma_part_at(
            bottom_list,
            direction,
            width,
            height,
            true,
            along - top_size,
            bottom_list.len() as int,
        );
        assert(piece_wf(bottom_list[i], direction, width, height, true));
        assert(bottom_covers(bottom_list, direction, top_size, i, x, y));
    } else {
        let j = lemma_part_at(
            top_list,
            direction,
            width,
            height,
            false,
            top_size - 1 - along,
            top_list.len() as int,
        );
        assert(piece_wf(top_list[j], direction, width, height, false));
        assert(top_covers(top_list, direction, top_size, j, x, y));
    }
}

/// Pastes one part into the canvas at `start` along the scroll axis.
fn paste(canvas: &mut Raster, piece: &ScrollImage, direction: ScrollDirection, start: i64)
    requires
        old(canvas).wf(),
        piece.image.wf(),
        0 <= start,
        start + along_len(piece.image@, direction) <= along_len(old(canvas)@, direction),
        cross_of(direction, piece.image@.width, piece.image@.height) == cross_of(
            direction,
            old(canvas)@.width,
            old(canvas)@.height,
        ),
    ensures
        final(canvas).wf(),
        final(canvas).width == old(canvas).width,
        final(canvas).height == old(canvas).height,
        shows(
            final(canvas)@,
            painted(
                old(canvas)@.picture(),
                piece.image@,
                place_x(direction, start as int),
                place_y(direction, start as int),
            ),
        ),
{
    match direction {
        ScrollDirection::Vertical => overlay_image(canvas, &piece.image, 0, start as u32),
        ScrollDirection::Horizontal => overlay_image(canvas, &piece.image, start as u32, 0),
    }
}

/// Composes the kept parts of a session into one raster, or returns `None`
/// when the bytes of that raster cannot be addressed on this machine.
pub fn compose(
    top_list: &Vec<ScrollImage>,
    bottom_list: &Vec<ScrollImage>,
    direction: ScrollDirection,
    width: u32,
    height: u32,
    top_size: i32,
    bottom_size: i32,
) -> (raster: Option<Raster>)
    requires
        composable(
            top_list@,
            bottom_list@,
            direction,
            width as int,
            height as int,
            top_size as int,
            bottom_size as int,
        ),
    ensures
        raster is Some <==> 4 * composed_width(
            direction,
            width as int,
            top_size as int,
            bottom_size as int,
        ) * composed_height(direction, height as int, top_size as int, bottom_size as int)
            <= usize::MAX,
        raster matches Some(r) ==> {
            &&& r.wf()
            &&& r.width == composed_width(
                direction,
                width as int,
                top_size as int,
                bottom_size as int,
            )
            &&& r.height == composed_height(
                direction,
                height as int,
                top_size as int,
                bottom_size as int,
            )
            &&& shows(r@, composed(top_list@, bottom_list@, direction, top_size as int))
        },
{
    let total: u32 = (top_size + bottom_size) as u32;
    let (total_width, total_height) = match direction {
        ScrollDirection::Vertical => (width, total),
        ScrollDirection::Horizontal => (total, height),
    };
    let mut canvas = match Raster::blank(total_width, total_height) {
        Some(canvas) => canvas,
        None => {
            return None;
        },
    };
    let ghost ground: Picture = |x: int, y: int, c: int| 0u8;
    let ghost side = side_of(direction, width as int, height as int);
    // The trailing list, from the first frame outwards.
    let mut offset: i64 = top_size as i64;
    let mut i: usize = 0;
    while i < bottom_list.len()
        invariant
            composable(
                top_list@,
                bottom_list@,
                direction,
                width as int,
                height as int,
                top_size as int,
                bottom_size as int,
            ),
            side == side_of(direction, width as int, height as int),
            canvas.wf(),
            canvas.width == total_width,
            canvas.height == total_height,
            along_len(canvas@, direction) == top_size + bottom_size,
            cross_of(direction, canvas@.width, canvas@.height) == cross_of(
                direction,
                width as int,
                height as int,
            ),
            i <= bottom_list.len(),
            offset == top_size + list_extent(bottom_list@, direction, i as int),
            ground == (|x: int, y: int, c: int| 0u8),
            shows(
                canvas@,
                bottom_painted(ground, bottom_list@, direction, top_size as int, i as int),
            ),
        decreases bottom_list.len() - i,
    {
        let piece = &bottom_list[i];
        proof {
            assert(piece_wf(bottom_list@[i as int], direction, width as int, height as int, true));
            lemma_list_extent_grows(
                bottom_list@,
                direction,
                width as int,
                height as int,
                true,
                i as int + 1,
                bottom_list.len() as int,
            );
            if i >= 1 {
                lemma_list_extent_grows(
                    bottom_list@,
                    direction,
                    width as int,
                    height as int,
                    true,
                    1,
                    i as int,
                );
                assert(list_extent(bottom_list@, direction, 1) == list_extent(
                    bottom_list@,
                    direction,
                    0,
                ) + piece_growth(bottom_list@[0], direction));
            }
        }
        let ghost before = canvas@;
        let start: i64 = offset - piece.overlay_size as i64;
        paste(&mut canvas, piece, direction, start);
        let long: u32 = match direction {
            ScrollDirection::Vertical => piece.image.height,
            ScrollDirection::Horizontal => piece.image.width,
        };
        offset = offset + (long as i64 - piece.overlay_size as i64);
        proof {
            let earlier =
                bottom_painted(ground, bottom_list@, direction, top_size as int, i as int);
            let later = bottom_painted(
                ground,
                bottom_list@,
                direction,
                top_size as int,
                i as int + 1,
            );
            assert(start == bottom_start(bottom_list@, direction, top_size as int, i as int));
            assert forall|x: int, y: int, c: int|
                canvas@.holds(x, y) && 0 <= c < 4 implies #[trigger] canvas@.byte_at(x, y, c)
                == later(x, y, c) by {
                assert(before.byte_at(x, y, c) == earlier(x, y, c));
            }
        }
        i = i + 1;
    }
    // The leading list, from the first frame outwards.
    let ghost below: Picture = bottom_painted(
        ground,
        bottom_list@,
        direction,
        top_size as int,
        bottom_list.len() as int,
    );
    let mut offset: i64 = top_size as i64;
    let mut j: usize = 0;
    while j < top_list.len()
        invariant
            composable(
                top_list@,
                bottom_list@,
                direction,
                width as int,
                height as int,
                top_size as int,
                bottom_size as int,
            ),
            side == side_of(direction, width as int, height as int),
            canvas.wf(),
            canvas.width == total_width,
            canvas.height == total_height,
            along_len(canvas@, direction) == top_size + bottom_size,
            cross_of(direction, canvas@.width, canvas@.height) == cross_of(
                direction,
                width as int,
                height as int,
            ),
            j <= top_list.len(),
            offset == top_size - list_extent(top_list@, direction, j as int),
            shows(canvas@, top_painted(below, top_list@, direction, top_size as int, j as int)),
        decreases top_list.len() - j,
    {
        let piece = &top_list[j];
        proof {
            assert(piece_wf(top_list@[j as int], direction, width as int, height as int, false));
            lemma_list_extent_grows(
                top_list@,
                direction,
                width as int,
                height as int,
                false,
                j as int + 1,
                top_list.len() as int,
            );
            lemma_list_extent_grows(
                top_list@,
                direction,
                width as int,
                height as int,
                false,
                0,
                j as int,
            );
        }
        let ghost before = canvas@;
        let long: u32 = match direction {
            ScrollDirection::Vertical => piece.image.height,
            ScrollDirection::Horizontal => piece.image.width,
        };
        let actual: i64 = long as i64 + piece.overlay_size as i64;
        let start: i64 = offset - actual;
        paste(&mut canvas, piece, direction, start);
        offset = start;
        proof {
            let earlier = top_painted(below, top_list@, direction, top_size as int, j as int);
            let later = top_painted(below, top_list@, direction, top_size as int, j as int + 1);
            assert(start == top_start(top_list@, direction, top_size as int, j as int));
            assert forall|x: int, y: int, c: int|
                canvas@.holds(x, y) && 0 <= c < 4 implies #[trigger] canvas@.byte_at(x, y, c)
                == later(x, y, c) by {
                assert(before.byte_at(x, y, c) == earlier(x, y, c));
            }
        }
        j = j + 1;
    }
    Some(canvas)
}

} // verus!
