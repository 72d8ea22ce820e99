//! Descriptors: a compact fingerprint of the patch around a keypoint, made
//! of the mean intensity of every second row and every second column of
//! the patch.

use crate::geometry::ScrollOffset;
use crate::raster::{GrayFrame, GrayView};
use vstd::prelude::*;

verus! {

/// The largest patch side a session accepts.
pub const MAX_PATCH_SIZE: usize = 0xffff;

/// One entry of a descriptor: the intensities of the pixels of one line of
/// the patch that lie inside the frame, as their sum and their number. The
/// entry stands for the mean `sum / (255 * count)`, and for zero when no
/// pixel of the line lies inside the frame.
#[derive(Clone, Copy, Debug, PartialEq, Eq, Structural)]
pub struct PatchMean {
    pub sum: u32,
    pub count: u32,
}

/// The descriptor length for a patch of the given side: the side rounded
/// down to an even number.
pub open spec fn descriptor_len(patch_size: int) -> int {
    2 * (patch_size / 2)
}

/// Coordinate of the `k`-th sampled line of a patch centred at `center`:
/// lines start half a patch before the centre and are two pixels apart.
pub open spec fn tap(center: int, patch_size: int, k: int) -> int {
    center - patch_size / 2 + 2 * k
}

/// What the pixel `(x, y)` adds to a line: nothing outside the frame, else
/// one when pixels are counted and its intensity when they are summed.
pub open spec fn tap_weight(frame: GrayView, x: int, y: int, counting: bool) -> int {
    if frame.holds(x, y) {
        if counting {
            1
        } else {
            frame.luma_at(x, y) as int
        }
    } else {
        0
    }
}

/// The pixel that the `k`-th sample of line `line` reads: along a row the
/// line fixes `y`, along a column it fixes `x`.
pub open spec fn tap_pixel(
    corner: ScrollOffset,
    patch_size: int,
    line: int,
    is_row: bool,
    k: int,
) -> (int, int) {
    if is_row {
        (tap(corner.x as int, patch_size, k), tap(corner.y as int, patch_size, line))
    } else {
        (tap(corner.x as int, patch_size, line), tap(corner.y as int, patch_size, k))
    }
}

/// Sum (or number, when `counting`) of the first `n` samples of a line that
/// lie inside the frame.
pub open spec fn line_total(
    frame: GrayView,
    corner: ScrollOffset,
    patch_size: int,
    line: int,
    is_row: bool,
    counting: bool,
    n: int,
) -> int
    decreases n,
{
    if n <= 0 {
        0
    } else {
        let at = tap_pixel(corner, patch_size, line, is_row, n - 1);
        line_total(frame, corner, patch_size, line, is_row, counting, n - 1) + tap_weight(
            frame,
            at.0,
            at.1,
            counting,
        )
    }
}

/// The descriptor entry of one line of the patch.
pub open spec fn patch_mean(
    frame: GrayView,
    corner: ScrollOffset,
    patch_size: int,
    line: int,
    is_row: bool,
) -> PatchMean {
    PatchMean {
        sum: line_total(frame, corner, patch_size, line, is_row, false, patch_size / 2) as u32,
        count: line_total(frame, corner, patch_size, line, is_row, true, patch_size / 2) as u32,
    }
}

/// The descriptor of the patch around `corner`: the entries of its sampled
/// rows, then those of its sampled columns.
pub open spec fn descriptor_of(frame: GrayView, corner: ScrollOffset, patch_size: int) -> Seq<
    PatchMean,
> {
    Seq::new(
        descriptor_len(patch_size) as nat,
        |i: int|
            if i < patch_size / 2 {
                patch_mean(frame, corner, patch_size, i, true)
            } else {
                patch_mean(frame, corner, patch_size, i - patch_size / 2, false)
            },
    )
}

/// A line of `n` samples counts at most `n` pixels and sums at most 255
/// for each.
pub proof fn lemma_line_total_bounds(
    frame: GrayView,
    corner: ScrollOffset,
    patch_size: int,
    line: int,
    is_row: bool,
    counting: bool,
    n: int,
)
    requires
        0 <= n,
    ensures
        0 <= line_total(frame, corner, patch_size, line, is_row, counting, n) <= 255 * n,
        counting ==> line_total(frame, corner, patch_size, line, is_row, counting, n) <= n,
    decreases n,
{
    if n > 0 {
        lemma_line_total_bounds(frame, corner, patch_size, line, is_row, counting, n - 1);
    }
}

/// Descriptor entry of one line of the patch around `corner`.
fn compute_line(
    frame: &GrayFrame,
    corner: &ScrollOffset,
    patch_size: usize,
    line: usize,
    is_row: bool,
) -> (mean: PatchMean)
    requires
        frame.wf(),
        patch_size <= MAX_PATCH_SIZE,
        line < patch_size / 2,
    ensures
        mean == patch_mean(frame@, *corner, patch_size as int, line as int, is_row),
{
    let half: i64 = (patch_size / 2) as i64;
    let lines: usize = patch_size / 2;
    let fixed: i64 = (if is_row {
        corner.y as i64
    } else {
        corner.x as i64
    }) - half + 2 * (line as i64);
    let mut sum: u32 = 0;
    let mut count: u32 = 0;
    let mut k: usize = 0;
    while k < lines
        invariant
            frame.wf(),
            patch_size <= MAX_PATCH_SIZE,
            lines == patch_size / 2,
            half == lines,
            k <= lines,
            fixed == tap(
                if is_row {
                    corner.y as int
                } else {
                    corner.x as int
                },
                patch_size as int,
                line as int,
            ),
            sum == line_total(
                frame@,
                *corner,
                patch_size as int,
                line as int,
                is_row,
                false,
                k as int,
            ),
            count == line_total(
                frame@,
                *corner,
                patch_size as int,
                line as int,
                is_row,
                true,
                k as int,
            ),
        decreases lines - k,
    {
        proof {
            lemma_line_total_bounds(
                frame@,
                *corner,
                patch_size as int,
                line as int,
                is_row,
                false,
                k as int,
            );
            lemma_line_total_bounds(
                frame@,
                *corner,
                patch_size as int,
                line as int,
                is_row,
                true,
                k as int,
            );
        }
        let moving: i64 = (if is_row {
            corner.x as i64
        } else {
            corner.y as i64
        }) - half + 2 * (k as i64);
        let value = if is_row {
            frame.get(moving, fixed)
        } else {
            frame.get(fixed, moving)
        };
        if let Some(luma) = value {
            sum = sum + luma as u32;
            count = count + 1;
        }
        k = k + 1;
    }
    PatchMean { sum, count }
}

/// Computes the descriptor of the patch around `corner`.
pub fn compute_descriptor(
    frame: &GrayFrame,
    corner: &ScrollOffset,
    patch_size: usize,
) -> (descriptor: Vec<PatchMean>)
    requires
        frame.wf(),
        patch_size <= MAX_PATCH_SIZE,
    ensures
        descriptor@ == descriptor_of(frame@, *corner, patch_size as int),
{
    let lines: usize = patch_size / 2;
    let mut descriptor: Vec<PatchMean> = Vec::new();
    let mut row: usize = 0;
    while row < lines
        invariant
            frame.wf(),
            patch_size <= MAX_PATCH_SIZE,
            lines == patch_size / 2,
            row <= lines,
            descriptor@.len() == row,
            forall|i: int|
                0 <= i < row ==> #[trigger] descriptor@[i] == patch_mean(
                    frame@,
                    *corner,
                    patch_size as int,
                    i,
                    true,
                ),
        decreases lines - row,
    {
        descriptor.push(compute_line(frame, corner, patch_size, row, true));
        row = row + 1;
    }
    let mut col: usize = 0;
    while col < lines
        invariant
            frame.wf(),
            patch_size <= MAX_PATCH_SIZE,
            lines == patch_size / 2,
            col <= lines,
            descriptor@.len() == lines + col,
            forall|i: int|
                0 <= i < lines ==> #[trigger] descriptor@[i] == patch_mean(
                    frame@,
                    *corner,
                    patch_size as int,
                    i,
                    true,
                ),
            forall|i: int|
                lines <= i < lines + col ==> #[trigger] descriptor@[i] == patch_mean(
                    frame@,
                    *corner,
                    patch_size as int,
                    i - lines,
                    false,
                ),
        decreases lines - col,
    {
        descriptor.push(compute_line(frame, corner, patch_size, col, false));
        col = col + 1;
    }
    assert(descriptor@ =~= descriptor_of(frame@, *corner, patch_size as int));
    descriptor
}

/// The descriptors of all keypoints of a frame, in keypoint order.
pub open spec fn descriptors_of(
    frame: GrayView,
    corners: Seq<ScrollOffset>,
    patch_size: int,
) -> Seq<Seq<PatchMean>> {
    Seq::new(corners.len(), |i: int| descriptor_of(frame, corners[i], patch_size))
}

/// The descriptors held in a vector of vectors, as sequences.
pub open spec fn deep(descriptors: Seq<Vec<PatchMean>>) -> Seq<Seq<PatchMean>> {
    Seq::new(descriptors.len(), |i: int| descriptors[i]@)
}

/// Computes the descriptor of every keypoint of a frame.
pub fn get_descriptors(
    frame: &GrayFrame,
    corners: &Vec<ScrollOffset>,
    patch_size: usize,
) -> (descriptors: Vec<Vec<PatchMean>>)
    requires
        frame.wf(),
        patch_size <= MAX_PATCH_SIZE,
    ensures
        deep(descriptors@) == descriptors_of(frame@, corners@, patch_size as int),
        descriptors@.len() == corners@.len(),
{
    let mut descriptors: Vec<Vec<PatchMean>> = Vec::new();
    let mut i: usize = 0;
    while i < corners.len()
        invariant
            frame.wf(),
            patch_size <= MAX_PATCH_SIZE,
            i <= corners.len(),
            descriptors@.len() == i,
            forall|j: int|
                0 <= j < i ==> (#[trigger] descriptors@[j])@ == descriptor_of(
                    frame@,
                    corners@[j],
                    patch_size as int,
                ),
        decreases corners.len() - i,
    {
        descriptors.push(compute_descriptor(frame, &corners[i], patch_size));
        i = i + 1;
    }
    assert(deep(descriptors@) =~= descriptors_of(frame@, corners@, patch_size as int));
    descriptors
}

/// Copies a list of descriptors.
pub(crate) fn copy_descriptors(descriptors: &Vec<Vec<PatchMean>>) -> (copy: Vec<Vec<PatchMean>>)
    ensures
        deep(copy@) == deep(descriptors@),
        copy@.len() == descriptors@.len(),
{
    let mut copy: Vec<Vec<PatchMean>> = Vec::new();
    let mut i: usize = 0;
    while i < descriptors.len()
        invariant
            i <= descriptors.len(),
            copy@.len() == i,
            forall|j: int| 0 <= j < i ==> (#[trigger] copy@[j])@ == descriptors@[j]@,
        decreases descriptors.len() - i,
    {
        let source = &descriptors[i];
        let mut entry: Vec<PatchMean> = Vec::new();
        let mut k: usize = 0;
        while k < source.len()
            invariant
                k <= source.len(),
                entry@.len() == k,
                forall|j: int| 0 <= j < k ==> #[trigger] entry@[j] == source@[j],
            decreases source.len() - k,
        {
            entry.push(source[k]);
            k = k + 1;
        }
        assert(entry@ =~= source@);
        copy.push(entry);
        i = i + 1;
    }
    assert(deep(copy@) =~= deep(descriptors@));
    copy
}

/// Copies a list of keypoints.
pub(crate) fn copy_corners(corners: &Vec<ScrollOffset>) -> (copy: Vec<ScrollOffset>)
    ensures
        copy@ == corners@,
{
    let mut copy: Vec<ScrollOffset> = Vec::new();
    let mut i: usize = 0;
    while i < corners.len()
        invariant
            i <= corners.len(),
            copy@.len() == i,
            forall|j: int| 0 <= j < i ==> #[trigger] copy@[j] == corners@[j],
        decreases corners.len() - i,
    {
        copy.push(corners[i]);
        i = i + 1;
    }
    assert(copy@ =~= corners@);
    copy
}

} // verus!
