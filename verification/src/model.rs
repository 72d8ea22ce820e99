//! The mathematical model of a stitching session: what its state is, when
//! that state is sound, and how one frame changes it.

use crate::descriptor::{deep, descriptor_len, descriptors_of, PatchMean, MAX_PATCH_SIZE};
use crate::geometry::{ScrollDirection, ScrollImageList, ScrollOffset};
use crate::imaging::{
    all_inside, as_offsets, fast12_corners, fast9_corners, luma_of, nearest_resized,
};
use crate::placement::{
    along_len, crop_region_of, cross_of, edge_of, frame_origin, grown_edge, index_overlap,
    lemma_list_extent_prefix, list_extent, list_wf, magnitude, min_diff_of, overlay_of,
    piece_growth, piece_wf, sampled_size, side_of, SampleRate, ScrollImage, MAX_EXTENT,
};
use crate::raster::{GrayView, Raster, RasterView};
use crate::voting::{
    ballots, elected, lemma_unmoved_keypoints_are_unchanged, Ballot, Election, NeighborMatch,
};
use vstd::prelude::*;

verus! {

/// The keypoints and descriptors of one frame, standing for the part of the
/// stitched content that this frame covers. `position` is where the frame
/// starts along the scroll axis, `dimension` the length of each descriptor.
#[derive(Clone, Debug)]
pub struct ScrollIndex {
    pub position: i32,
    pub dimension: usize,
    pub corners: Vec<ScrollOffset>,
    pub descriptors: Vec<Vec<PatchMean>>,
}

impl ScrollIndex {
    /// An index without keypoints, for descriptors of the given length.
    pub fn new(dimension: usize) -> (index: Self)
        ensures
            index.position == 0,
            index.dimension == dimension,
            index.corners@.len() == 0,
            index.descriptors@.len() == 0,
    {
        Self { position: 0, dimension, corners: Vec::new(), descriptors: Vec::new() }
    }
}

/// A frame that waits for the answer of a nearest-neighbour search.
#[derive(Clone, Debug)]
pub struct PendingFrame {
    /// The capture itself.
    pub image: Raster,
    /// Its keypoints, in the coordinates of the analysed frame.
    pub corners: Vec<ScrollOffset>,
    /// The descriptor of each keypoint.
    pub descriptors: Vec<Vec<PatchMean>>,
    /// The edge that the caller expects the frame to extend.
    pub hinted: ScrollImageList,
    /// The edge whose index is being searched.
    pub searching: ScrollImageList,
}

/// How the handling of one frame ended. `edge` is the edge at which the
/// frame was placed, and the hinted edge when it was not placed.
#[derive(Clone, Copy, Debug, PartialEq, Eq, Structural)]
pub enum StitchOutcome {
    /// The frame does not have the size of the session's frames, or is
    /// larger than a session accepts.
    InvalidDimensions { edge: ScrollImageList },
    /// The frame has no corner.
    NoFeatures { edge: ScrollImageList },
    /// The view did not move far enough for the searched edge.
    Unchanged { edge: ScrollImageList },
    /// No shift has enough support among the keypoints.
    NoReliableMatch { edge: ScrollImageList },
    /// The frame was placed with its outer edge at `edge_position`. `grown`
    /// is the list that received a part of it, if it added anything; the
    /// last two fields say which indexes were rebuilt from it.
    Placed {
        edge_position: i32,
        grown: Option<ScrollImageList>,
        edge: ScrollImageList,
        reindexed_top: bool,
        reindexed_bottom: bool,
    },
}

impl StitchOutcome {
    /// The outcome as a triple: the placement (edge position and grown
    /// list) if there is one, whether the view is unchanged, and the edge.
    pub open spec fn spec_into_tuple(self) -> (
        Option<(i32, Option<ScrollImageList>)>,
        bool,
        ScrollImageList,
    ) {
        match self {
            StitchOutcome::InvalidDimensions { edge } => (None, false, edge),
            StitchOutcome::NoFeatures { edge } => (None, false, edge),
            StitchOutcome::Unchanged { edge } => (None, true, edge),
            StitchOutcome::NoReliableMatch { edge } => (None, false, edge),
            StitchOutcome::Placed { edge_position, grown, edge, .. } => (
                Some((edge_position, grown)),
                false,
                edge,
            ),
        }
    }

    /// The outcome as a triple: the placement (edge position and grown
    /// list) if there is one, whether the view is unchanged, and the edge.
    #[verifier::when_used_as_spec(spec_into_tuple)]
    pub fn into_tuple(self) -> (triple: (
        Option<(i32, Option<ScrollImageList>)>,
        bool,
        ScrollImageList,
    ))
        ensures
            triple == self.spec_into_tuple(),
    {
        match self {
            StitchOutcome::InvalidDimensions { edge } => (None, false, edge),
            StitchOutcome::NoFeatures { edge } => (None, false, edge),
            StitchOutcome::Unchanged { edge } => (None, true, edge),
            StitchOutcome::NoReliableMatch { edge } => (None, false, edge),
            StitchOutcome::Placed { edge_position, grown, edge, .. } => (
                Some((edge_position, grown)),
                false,
                edge,
            ),
        }
    }
}

/// What the session asks of its caller after a step.
#[derive(Clone, Copy, Debug, PartialEq, Eq, Structural)]
pub enum StitchStep {
    /// Search the index of this edge for the nearest neighbour of every
    /// keypoint of the pending frame, and hand the answers back.
    Search(ScrollImageList),
    /// The frame has been dealt with.
    Done(StitchOutcome),
}

/// What a session was configured with.
pub struct Settings {
    pub direction: ScrollDirection,
    pub sample_rate: SampleRate,
    pub min_sample_size: u32,
    pub max_sample_size: u32,
    pub corner_threshold: u8,
    pub patch_size: usize,
    pub min_size_delta: i32,
    pub try_rollback: bool,
}

/// The size of the session's frames, raw and as analysed. All are zero
/// until the first frame fixes them.
pub struct FrameSize {
    pub width: int,
    pub height: int,
    pub dst_width: int,
    pub dst_height: int,
}

/// One growing edge of the stitched content.
pub struct EdgeView {
    /// The kept parts, in the order in which they were placed.
    pub list: Seq<ScrollImage>,
    /// The extent covered on this side of the origin.
    pub size: int,
    /// The measure against which the overlap of a new frame with the
    /// indexed frame is taken (see `index_overlap`); it is set anew
    /// whenever the index is rebuilt.
    pub index_size: int,
    /// The index that is searched for frames extending this edge.
    pub index: ScrollIndex,
}

/// The state of a session.
pub struct SessionView {
    pub settings: Settings,
    pub frame: FrameSize,
    /// The corner detector that the session settled on: `Some(true)` for
    /// the stricter one, `Some(false)` for the looser one.
    pub tier: Option<bool>,
    pub top: EdgeView,
    pub bottom: EdgeView,
    pub pending: Option<PendingFrame>,
}

/// The greyscale frame that is analysed for a capture: its intensities,
/// resampled when the analysed size differs from the raw size.
pub open spec fn gray_of(image: RasterView, dst_width: int, dst_height: int) -> GrayView {
    let luma = luma_of(image.width as u32, image.height as u32, image.bytes);
    if dst_width == image.width && dst_height == image.height {
        GrayView { width: image.width, height: image.height, luma }
    } else {
        GrayView {
            width: dst_width,
            height: dst_height,
            luma: nearest_resized(
                image.width as u32,
                image.height as u32,
                luma,
                dst_width as u32,
                dst_height as u32,
            ),
        }
    }
}

/// The corner detector used for a frame: the one the session settled on,
/// or, for the frame that settles it, the stricter one exactly when it
/// finds more than 200 corners.
pub open spec fn chosen_tier(tier: Option<bool>, gray: GrayView, threshold: u8) -> bool {
    match tier {
        Some(strict) => strict,
        None => fast12_corners(gray.width as u32, gray.height as u32, gray.luma, threshold).len()
            > 200,
    }
}

/// The keypoints of a frame.
pub open spec fn corners_of(tier: Option<bool>, gray: GrayView, threshold: u8) -> Seq<
    ScrollOffset,
> {
    if chosen_tier(tier, gray, threshold) {
        as_offsets(fast12_corners(gray.width as u32, gray.height as u32, gray.luma, threshold))
    } else {
        as_offsets(fast9_corners(gray.width as u32, gray.height as u32, gray.luma, threshold))
    }
}

impl EdgeView {
    /// Whether the lists and the index of an edge fit a session with the
    /// given settings and frame size.
    pub open spec fn wf(self, trailing: bool, settings: Settings, frame: FrameSize) -> bool {
        &&& list_wf(self.list, settings.direction, frame.width, frame.height, trailing)
        &&& list_extent(self.list, settings.direction, self.list.len() as int) == self.size
        &&& 0 <= self.size <= MAX_EXTENT
        &&& self.index.corners@.len() == self.index.descriptors@.len()
        &&& all_inside(self.index.corners@, frame.dst_width, frame.dst_height)
    }
}

impl SessionView {
    /// The size of a frame along the scroll axis.
    pub open spec fn side(self) -> int {
        side_of(self.settings.direction, self.frame.width, self.frame.height)
    }

    /// Whether nothing has been placed.
    pub open spec fn is_empty(self) -> bool {
        self.top.list.len() == 0 && self.bottom.list.len() == 0
    }

    /// The state of one edge.
    pub open spec fn edge(self, list: ScrollImageList) -> EdgeView {
        match list {
            ScrollImageList::Top => self.top,
            ScrollImageList::Bottom => self.bottom,
        }
    }

    /// How far the content reaches before the first frame.
    pub open spec fn leading_extent(self) -> int {
        self.top.size
    }

    /// How far the content reaches past the first frame.
    pub open spec fn trailing_extent(self) -> int {
        if self.is_empty() {
            0
        } else {
            self.bottom.size - self.side()
        }
    }

    /// The bound on plausible shifts for a search at the given edge.
    pub open spec fn min_diff(self, list: ScrollImageList) -> int {
        min_diff_of(
            list,
            self.top.size,
            self.bottom.size,
            self.side(),
            self.edge(list).index.position as int,
        )
    }

    /// Whether an index lies inside the covered content.
    pub open spec fn index_in_reach(self, index: ScrollIndex) -> bool {
        index.corners@.len() > 0 ==> -self.top.size <= index.position && index.position
            + self.side() <= self.bottom.size
    }

    /// Whether a pending frame fits the session.
    pub open spec fn pending_wf(self) -> bool {
        self.pending matches Some(p) ==> {
            &&& !self.is_empty()
            &&& p.image.wf()
            &&& p.image@.width == self.frame.width
            &&& p.image@.height == self.frame.height
            &&& p.corners@.len() >= 1
            &&& p.corners@.len() == p.descriptors@.len()
            &&& all_inside(p.corners@, self.frame.dst_width, self.frame.dst_height)
        }
    }

    /// Whether the state is sound.
    pub open spec fn wf(self) -> bool {
        &&& self.settings.patch_size <= MAX_PATCH_SIZE
        &&& 0 <= self.frame.width <= MAX_EXTENT
        &&& 0 <= self.frame.height <= MAX_EXTENT
        &&& 0 <= self.frame.dst_width <= self.frame.width
        &&& 0 <= self.frame.dst_height <= self.frame.height
        &&& side_of(self.settings.direction, self.frame.dst_width, self.frame.dst_height)
            == self.side()
        &&& self.top.wf(false, self.settings, self.frame)
        &&& self.bottom.wf(true, self.settings, self.frame)
        &&& self.index_in_reach(self.top.index)
        &&& self.index_in_reach(self.bottom.index)
        &&& 0 <= self.top.index_size <= self.top.size + self.side()
        &&& 0 <= self.bottom.index_size <= self.bottom.size
        &&& self.is_empty() ==> {
            &&& self.top.size == 0
            &&& self.bottom.size == 0
            &&& self.top.index_size == 0
            &&& self.bottom.index_size == 0
            &&& self.top.index.corners@.len() == 0
            &&& self.bottom.index.corners@.len() == 0
        }
        &&& !self.is_empty() ==> {
            &&& self.bottom.list.len() >= 1
            &&& self.frame.width >= 1
            &&& self.frame.height >= 1
            &&& self.bottom.size >= self.side()
            &&& self.bottom.list[0].overlay_size == 0
            &&& along_len(self.bottom.list[0].image@, self.settings.direction) == self.side()
        }
        &&& self.pending_wf()
    }

    /// Whether a frame whose origin lies at `origin` reaches at most one
    /// frame past the content on either side.
    pub open spec fn in_reach(self, origin: int) -> bool {
        let edge = edge_of(origin, self.side());
        -self.top.size - self.side() <= edge <= self.bottom.size + self.side()
    }

    /// The state without a pending frame.
    pub open spec fn idle(self) -> SessionView {
        SessionView { pending: None, ..self }
    }

    /// Whether the session holds nothing: no frame size, no detector, no
    /// part, no keypoint and no pending frame.
    pub open spec fn is_fresh(self) -> bool {
        &&& self.frame == FrameSize { width: 0, height: 0, dst_width: 0, dst_height: 0 }
        &&& self.tier is None
        &&& self.pending is None
        &&& self.is_cleared()
    }

    /// Whether the session holds no part and no keypoint, and its indexes
    /// are ready for the descriptors of its settings.
    pub open spec fn is_cleared(self) -> bool {
        &&& self.is_empty()
        &&& self.top.size == 0
        &&& self.bottom.size == 0
        &&& self.top.index_size == 0
        &&& self.bottom.index_size == 0
        &&& self.top.index.position == 0
        &&& self.bottom.index.position == 0
        &&& self.top.index.dimension == descriptor_len(self.settings.patch_size as int)
        &&& self.bottom.index.dimension == descriptor_len(self.settings.patch_size as int)
        &&& self.top.index.corners@.len() == 0
        &&& self.bottom.index.corners@.len() == 0
        &&& self.top.index.descriptors@.len() == 0
        &&& self.bottom.index.descriptors@.len() == 0
    }

    /// Whether a session takes a frame of this size: any size up to the
    /// limit as long as no frame has fixed the size, and after that the
    /// fixed size only.
    pub open spec fn accepts(self, image: RasterView) -> bool {
        if self.frame.width == 0 || self.frame.height == 0 {
            image.width <= MAX_EXTENT && image.height <= MAX_EXTENT
        } else {
            image.width == self.frame.width && image.height == self.frame.height
        }
    }

    /// The frame size that a session works with once frames are `width` by
    /// `height`: the cross axis is reduced as the sample rate asks, the
    /// scroll axis is kept.
    pub open spec fn sized(self, width: int, height: int) -> FrameSize {
        let cross = sampled_size(
            cross_of(self.settings.direction, width, height),
            self.settings.sample_rate,
            self.settings.min_sample_size as int,
            self.settings.max_sample_size as int,
        );
        match self.settings.direction {
            ScrollDirection::Vertical => FrameSize {
                width,
                height,
                dst_width: cross,
                dst_height: height,
            },
            ScrollDirection::Horizontal => FrameSize {
                width,
                height,
                dst_width: width,
                dst_height: cross,
            },
        }
    }

    /// The frame size that a session works with for a frame it accepts.
    pub open spec fn frame_for(self, image: RasterView) -> FrameSize {
        if self.frame.width == 0 || self.frame.height == 0 {
            self.sized(image.width, image.height)
        } else {
            self.frame
        }
    }
}

/// Whether `after` is the edge `before` once a frame with its outer edge at
/// `edge` has been added to it: the list has one more part, cut from the
/// frame with its allowance of overlap, the extent reaches to `edge`, and
/// the index is rebuilt from the frame exactly when the frame shares at
/// most `min_size_delta` pixels with the frame that was indexed before.
pub open spec fn edge_grown(
    before: EdgeView,
    after: EdgeView,
    list: ScrollImageList,
    settings: Settings,
    frame: FrameSize,
    image: RasterView,
    corners: Seq<ScrollOffset>,
    descriptors: Seq<Seq<PatchMean>>,
    edge: int,
) -> bool {
    let side = side_of(settings.direction, frame.width, frame.height);
    let delta = match list {
        ScrollImageList::Bottom => edge - before.size,
        ScrollImageList::Top => edge + before.size,
    };
    let overlay = overlay_of(delta, side);
    let region = crop_region_of(settings.direction, frame.width, frame.height, delta + overlay);
    let overlap = index_overlap(list, edge, side, before.index_size, before.index_size);
    &&& after.list.len() == before.list.len() + 1
    &&& after.list.drop_last() == before.list
    &&& after.list.last().overlay_size == overlay
    &&& image.cut_is(
        after.list.last().image@,
        region.x as int,
        region.y as int,
        region.width as int,
        region.height as int,
    )
    &&& after.size == magnitude(edge)
    &&& if overlap <= settings.min_size_delta {
        &&& after.index_size == before.index_size + side - overlap
        &&& after.index.position == (match list {
            ScrollImageList::Bottom => edge - side,
            ScrollImageList::Top => edge,
        })
        &&& after.index.dimension == descriptor_len(settings.patch_size as int)
        &&& after.index.corners@ == corners
        &&& deep(after.index.descriptors@) == descriptors
    } else {
        &&& after.index_size == before.index_size
        &&& after.index == before.index
    }
}

/// Whether the index of an edge was rebuilt by a frame with its outer edge
/// at `edge`.
pub open spec fn reindexed(
    before: EdgeView,
    list: ScrollImageList,
    settings: Settings,
    frame: FrameSize,
    edge: int,
) -> bool {
    index_overlap(
        list,
        edge,
        side_of(settings.direction, frame.width, frame.height),
        before.index_size,
        before.index_size,
    ) <= settings.min_size_delta
}

/// Whether `after` is the state `before` once a frame whose origin lies at
/// `origin` has been placed, and `outcome` reports it. The frame extends
/// the edge that `grown_edge` names and leaves the other alone; a frame
/// that adds nothing leaves both alone.
pub open spec fn placed(
    before: SessionView,
    after: SessionView,
    image: RasterView,
    corners: Seq<ScrollOffset>,
    descriptors: Seq<Seq<PatchMean>>,
    origin: int,
    searched: ScrollImageList,
    outcome: StitchOutcome,
) -> bool {
    let edge = edge_of(origin, before.side());
    let grown = grown_edge(edge, before.top.size, before.bottom.size);
    &&& after.settings == before.settings
    &&& after.frame == before.frame
    &&& after.tier == before.tier
    &&& after.pending is None
    &&& outcome matches StitchOutcome::Placed {
        edge_position,
        grown: reported,
        edge: reported_edge,
        reindexed_top,
        reindexed_bottom,
    }
    &&& edge_position == edge
    &&& reported == grown
    &&& reported_edge == searched
    &&& match grown {
        None => {
            &&& after.top == before.top
            &&& after.bottom == before.bottom
            &&& !reindexed_top
            &&& !reindexed_bottom
        },
        Some(ScrollImageList::Bottom) => {
            &&& after.top == before.top
            &&& edge_grown(
                before.bottom,
                after.bottom,
                ScrollImageList::Bottom,
                before.settings,
                before.frame,
                image,
                corners,
                descriptors,
                edge,
            )
            &&& !reindexed_top
            &&& reindexed_bottom == reindexed(
                before.bottom,
                ScrollImageList::Bottom,
                before.settings,
                before.frame,
                edge,
            )
        },
        Some(ScrollImageList::Top) => {
            &&& after.bottom == before.bottom
            &&& edge_grown(
                before.top,
                after.top,
                ScrollImageList::Top,
                before.settings,
                before.frame,
                image,
                corners,
                descriptors,
                edge,
            )
            &&& !reindexed_bottom
            &&& reindexed_top == reindexed(
                before.top,
                ScrollImageList::Top,
                before.settings,
                before.frame,
                edge,
            )
        },
    }
}

/// Whether `after` is the empty state `before` once its first frame has
/// been placed: the frame lies at the origin and is kept whole in the
/// trailing list, and the leading index is built from it as well.
pub open spec fn bootstrapped(
    before: SessionView,
    after: SessionView,
    image: RasterView,
    corners: Seq<ScrollOffset>,
    descriptors: Seq<Seq<PatchMean>>,
    outcome: StitchOutcome,
) -> bool {
    let side = before.side();
    &&& after.settings == before.settings
    &&& after.frame == before.frame
    &&& after.tier == before.tier
    &&& after.pending is None
    &&& edge_grown(
        before.bottom,
        after.bottom,
        ScrollImageList::Bottom,
        before.settings,
        before.frame,
        image,
        corners,
        descriptors,
        side,
    )
    &&& after.top.list == before.top.list
    &&& after.top.size == before.top.size
    &&& after.top.index_size == before.top.index_size
    &&& after.top.index.position == 0
    &&& after.top.index.dimension == descriptor_len(before.settings.patch_size as int)
    &&& after.top.index.corners@ == corners
    &&& deep(after.top.index.descriptors@) == descriptors
    &&& outcome == (StitchOutcome::Placed {
        edge_position: side as i32,
        grown: Some(ScrollImageList::Bottom),
        edge: ScrollImageList::Bottom,
        reindexed_top: true,
        reindexed_bottom: reindexed(
            before.bottom,
            ScrollImageList::Bottom,
            before.settings,
            before.frame,
            side,
        ),
    })
}

/// Whether `after` and `step` are what a session in state `before` makes
/// of a frame `image` with the given keypoints and descriptors that is
/// expected to extend the edge `list`: a frame without keypoints is
/// skipped, the first frame of an empty session is placed, and any other
/// frame waits for a search at the hinted edge.
pub open spec fn featured(
    before: SessionView,
    after: SessionView,
    image: RasterView,
    corners: Seq<ScrollOffset>,
    descriptors: Seq<Seq<PatchMean>>,
    list: ScrollImageList,
    step: StitchStep,
) -> bool {
    if corners.len() == 0 {
        &&& step == StitchStep::Done(StitchOutcome::NoFeatures { edge: list })
        &&& after == before.idle()
    } else if before.is_empty() {
        &&& step matches StitchStep::Done(outcome)
        &&& bootstrapped(before.idle(), after, image, corners, descriptors, outcome)
    } else {
        &&& step == StitchStep::Search(list)
        &&& after == SessionView { pending: after.pending, ..before }
        &&& after.pending matches Some(p)
        &&& p.image@ == image
        &&& p.corners@ == corners
        &&& deep(p.descriptors@) == descriptors
        &&& p.hinted == list
        &&& p.searching == list
    }
}

/// Whether `after` and `step` are what a session in state `before` makes
/// of a new frame `image` that is expected to extend the edge `list`. A
/// frame of a size that the session does not take is rejected. Any other
/// frame is analysed: its intensities are taken and, where the session
/// samples, reduced; its corners are found with the session's detector,
/// which the first frame with corners settles; and its descriptors are
/// computed. A frame without corners leaves the session as it was; any
/// other frame is dealt with as `featured` says.
pub open spec fn handled(
    before: SessionView,
    after: SessionView,
    image: RasterView,
    list: ScrollImageList,
    step: StitchStep,
) -> bool {
    if !before.accepts(image) {
        &&& step == StitchStep::Done(StitchOutcome::InvalidDimensions { edge: list })
        &&& after == before.idle()
    } else {
        let frame = before.frame_for(image);
        let gray = gray_of(image, frame.dst_width, frame.dst_height);
        let corners = corners_of(before.tier, gray, before.settings.corner_threshold);
        let tier = Some(chosen_tier(before.tier, gray, before.settings.corner_threshold));
        let descriptors = descriptors_of(gray, corners, before.settings.patch_size as int);
        let sized = SessionView { frame, tier, pending: None, ..before };
        if corners.len() == 0 {
            &&& step == StitchStep::Done(StitchOutcome::NoFeatures { edge: list })
            &&& after == before.idle()
        } else {
            featured(sized, after, image, corners, descriptors, list, step)
        }
    }
}

/// The ballots that the answers `found` of a search give the keypoints of
/// the pending frame.
pub open spec fn pending_ballots(before: SessionView, found: Seq<Option<NeighborMatch>>) -> Seq<
    Ballot,
> {
    let p = before.pending->0;
    ballots(
        before.settings.direction,
        before.min_diff(p.searching),
        before.edge(p.searching).index.corners@,
        p.corners@,
        found,
    )
}

/// Whether `after` and `step` are what a session in state `before`, with a
/// pending frame, makes of the outcome `election` of the vote among the
/// keypoints of that frame.
pub open spec fn resolved(
    before: SessionView,
    after: SessionView,
    election: Election,
    step: StitchStep,
) -> bool {
    let p = before.pending->0;
    let index = before.edge(p.searching).index;
    match election {
        Election::Unchanged => {
            &&& step == StitchStep::Done(StitchOutcome::Unchanged { edge: p.hinted })
            &&& after == before.idle()
        },
        Election::NoReliableMatch => if p.searching == p.hinted && before.settings.try_rollback {
            &&& step == StitchStep::Search(p.hinted.opposite())
            &&& after == SessionView { pending: after.pending, ..before }
            &&& after.pending matches Some(q)
            &&& q.image == p.image
            &&& q.corners == p.corners
            &&& q.descriptors == p.descriptors
            &&& q.hinted == p.hinted
            &&& q.searching == p.hinted.opposite()
        } else {
            &&& step == StitchStep::Done(StitchOutcome::NoReliableMatch { edge: p.hinted })
            &&& after == before.idle()
        },
        Election::Winner { origin, new } => {
            &&& step matches StitchStep::Done(outcome)
            &&& placed(
                before.idle(),
                after,
                p.image@,
                p.corners@,
                deep(p.descriptors@),
                frame_origin(
                    before.settings.direction,
                    index.position as int,
                    index.corners@[origin as int],
                    p.corners@[new as int],
                ),
                p.searching,
                outcome,
            )
        },
    }
}

/// A part cut from a frame for `delta` new pixels fits the session and
/// stands for exactly `delta` pixels of new coverage.
pub proof fn lemma_cut_piece_fits(
    piece: ScrollImage,
    image: RasterView,
    direction: ScrollDirection,
    width: int,
    height: int,
    delta: int,
)
    requires
        image.wf(),
        image.width == width,
        image.height == height,
        1 <= width <= MAX_EXTENT,
        1 <= height <= MAX_EXTENT,
        delta != 0,
        magnitude(delta) <= side_of(direction, width, height),
        piece.overlay_size == overlay_of(delta, side_of(direction, width, height)),
        ({
            let region = crop_region_of(direction, width, height, delta + piece.overlay_size);
            image.cut_is(
                piece.image@,
                region.x as int,
                region.y as int,
                region.width as int,
                region.height as int,
            )
        }),
    ensures
        piece_wf(piece, direction, width, height, delta > 0),
        piece_growth(piece, direction) == magnitude(delta),
        along_len(piece.image@, direction) == magnitude(delta) + magnitude(
            piece.overlay_size as int,
        ),
        magnitude(delta) == side_of(direction, width, height) ==> piece.overlay_size == 0,
{
    let side = side_of(direction, width, height);
    let amount = delta + piece.overlay_size;
    let region = crop_region_of(direction, width, height, amount);
    assert(magnitude(amount) == magnitude(delta) + magnitude(piece.overlay_size as int));
    assert(1 <= magnitude(amount) <= side);
    assert(image.clamped(
        region.x as int,
        region.y as int,
        region.width as int,
        region.height as int,
    ) == (region.x as int, region.y as int, region.width as int, region.height as int));
}

/// An edge that has grown by a frame is sound again, and its extent has
/// grown by what the frame adds.
pub proof fn lemma_edge_grown_wf(
    before: EdgeView,
    after: EdgeView,
    list: ScrollImageList,
    settings: Settings,
    frame: FrameSize,
    image: RasterView,
    corners: Seq<ScrollOffset>,
    descriptors: Seq<Seq<PatchMean>>,
    edge: int,
)
    requires
        before.wf(list == ScrollImageList::Bottom, settings, frame),
        edge_grown(before, after, list, settings, frame, image, corners, descriptors, edge),
        image.wf(),
        image.width == frame.width,
        image.height == frame.height,
        1 <= frame.width <= MAX_EXTENT,
        1 <= frame.height <= MAX_EXTENT,
        all_inside(corners, frame.dst_width, frame.dst_height),
        descriptors.len() == corners.len(),
        magnitude(edge) <= MAX_EXTENT,
        list == ScrollImageList::Bottom ==> edge > before.size,
        list == ScrollImageList::Top ==> -edge > before.size,
        magnitude(edge) - before.size <= side_of(settings.direction, frame.width, frame.height),
    ensures
        after.wf(list == ScrollImageList::Bottom, settings, frame),
        after.size == magnitude(edge),
        after.list.len() == before.list.len() + 1,
        forall|i: int| 0 <= i < before.list.len() ==> after.list[i] == before.list[i],
        piece_growth(after.list.last(), settings.direction) == magnitude(edge) - before.size,
        magnitude(edge) - before.size == side_of(settings.direction, frame.width, frame.height)
            ==> after.list.last().overlay_size == 0,
        along_len(after.list.last().image@, settings.direction) == magnitude(edge) - before.size
            + magnitude(after.list.last().overlay_size as int),
{
    let trailing = list == ScrollImageList::Bottom;
    let delta = match list {
        ScrollImageList::Bottom => edge - before.size,
        ScrollImageList::Top => edge + before.size,
    };
    let piece = after.list.last();
    let n = before.list.len() as int;
    lemma_cut_piece_fits(piece, image, settings.direction, frame.width, frame.height, delta);
    assert forall|i: int| 0 <= i < n implies after.list[i] == before.list[i] by {
        assert(after.list.drop_last()[i] == after.list[i]);
    }
    assert forall|i: int| 0 <= i < after.list.len() implies piece_wf(
        #[trigger] after.list[i],
        settings.direction,
        frame.width,
        frame.height,
        trailing,
    ) by {
        if i < n {
            assert(piece_wf(
                before.list[i],
                settings.direction,
                frame.width,
                frame.height,
                trailing,
            ));
        }
    }
    lemma_list_extent_prefix(after.list, before.list, settings.direction, n);
    assert(list_extent(after.list, settings.direction, n + 1) == list_extent(
        after.list,
        settings.direction,
        n,
    ) + piece_growth(after.list[n], settings.direction));
    assert(after.index.corners@.len() == after.index.descriptors@.len()) by {
        assert(deep(after.index.descriptors@).len() == after.index.descriptors@.len());
    }
}

/// A sound state stays sound when a frame is placed.
pub proof fn lemma_placed_keeps_wf(
    before: SessionView,
    after: SessionView,
    image: RasterView,
    corners: Seq<ScrollOffset>,
    descriptors: Seq<Seq<PatchMean>>,
    origin: int,
    searched: ScrollImageList,
    outcome: StitchOutcome,
)
    requires
        before.wf(),
        before.pending is None,
        placed(before, after, image, corners, descriptors, origin, searched, outcome),
        image.wf(),
        image.width == before.frame.width,
        image.height == before.frame.height,
        corners.len() >= 1,
        descriptors.len() == corners.len(),
        all_inside(corners, before.frame.dst_width, before.frame.dst_height),
        before.in_reach(origin),
        before.is_empty() ==> origin == 0,
    ensures
        after.wf(),
        after.top.size >= before.top.size,
        after.bottom.size >= before.bottom.size,
        after.leading_extent() >= before.leading_extent(),
        after.trailing_extent() >= before.trailing_extent(),
{
    let side = before.side();
    let edge = edge_of(origin, side);
    let c = corners[0];
    assert(0 <= c.x < before.frame.dst_width && 0 <= c.y < before.frame.dst_height);
    assert(side >= 1);
    match grown_edge(edge, before.top.size, before.bottom.size) {
        None => {
            assert(after.top == before.top);
            assert(after.bottom == before.bottom);
        },
        Some(ScrollImageList::Bottom) => {
            lemma_edge_grown_wf(
                before.bottom,
                after.bottom,
                ScrollImageList::Bottom,
                before.settings,
                before.frame,
                image,
                corners,
                descriptors,
                edge,
            );
            if before.is_empty() {
                assert(after.bottom.list.last() == after.bottom.list[0]);
            } else {
                assert(after.bottom.list[0] == before.bottom.list[0]);
            }
        },
        Some(ScrollImageList::Top) => {
            lemma_edge_grown_wf(
                before.top,
                after.top,
                ScrollImageList::Top,
                before.settings,
                before.frame,
                image,
                corners,
                descriptors,
                edge,
            );
        },
    }
}

/// A first frame that is handed in again right after it was placed is
/// searched among its own keypoints: the session asks for a search at the
/// hinted edge, and the index of that edge holds the keypoints of the
/// pending frame at position zero. This holds for the leading edge, and for
/// the trailing edge when `min_size_delta` is not negative.
pub proof fn lemma_first_frame_again_meets_itself(
    empty: SessionView,
    first: SessionView,
    again: SessionView,
    image: RasterView,
    first_hint: ScrollImageList,
    hint: ScrollImageList,
    outcome: StitchOutcome,
    step: StitchStep,
)
    requires
        empty.wf(),
        empty.is_empty(),
        handled(empty, first, image, first_hint, StitchStep::Done(outcome)),
        outcome is Placed,
        first.wf(),
        handled(first, again, image, hint, step),
        hint == ScrollImageList::Top || empty.settings.min_size_delta >= 0,
    ensures
        step == StitchStep::Search(hint),
        again.top == first.top,
        again.bottom == first.bottom,
        again.top.size == 0,
        again.bottom.size == again.side(),
        again.pending matches Some(p) && p.searching == hint && p.hinted == hint && again.edge(
            hint,
        ).index.position == 0 && again.edge(hint).index.corners@ == p.corners@,
{
    let frame = empty.frame_for(image);
    let gray = gray_of(image, frame.dst_width, frame.dst_height);
    let corners = corners_of(empty.tier, gray, empty.settings.corner_threshold);
    let tier = Some(chosen_tier(empty.tier, gray, empty.settings.corner_threshold));
    assert(empty.accepts(image));
    assert(corners.len() != 0);
    assert(first.frame == frame);
    assert(first.tier == tier);
    assert(first.bottom.list.len() == 1);
    assert(first.accepts(image));
    assert(first.frame_for(image) == frame);
    assert(corners_of(first.tier, gray, first.settings.corner_threshold) == corners);
}

/// A frame whose keypoints are each matched with the keypoint at their own
/// position, in a session that holds nothing but its first frame, counts as
/// unchanged: the vote ends so, the step reports it for the hinted edge,
/// and both edges stay as they are.
pub proof fn lemma_first_frame_again_is_unchanged(
    before: SessionView,
    found: Seq<Option<NeighborMatch>>,
)
    requires
        before.top.size == 0,
        before.bottom.size == before.side(),
        before.pending matches Some(p) && before.edge(p.searching).index.position == 0
            && before.edge(p.searching).index.corners@ == p.corners@ && p.corners@.len() >= 1
            && found.len() == p.corners@.len() && forall|i: int|
            0 <= i < found.len() ==> (#[trigger] found[i] matches Some(m) && m.origin == i),
    ensures
        elected(pending_ballots(before, found), found, Election::Unchanged),
        forall|after: SessionView, step: StitchStep| #[trigger]
            resolved(before, after, Election::Unchanged, step) ==> {
                &&& step == StitchStep::Done(
                    StitchOutcome::Unchanged { edge: before.pending->0.hinted },
                )
                &&& after.top == before.top
                &&& after.bottom == before.bottom
                &&& after.leading_extent() == before.leading_extent()
                &&& after.trailing_extent() == before.trailing_extent()
            },
{
    let p = before.pending->0;
    lemma_unmoved_keypoints_are_unchanged(
        before.settings.direction,
        before.min_diff(p.searching),
        p.corners@,
        p.corners@,
        found,
    );
}

} // verus!
