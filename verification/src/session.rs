//! The stitching session: it takes captures one at a time, finds where each
//! attaches to what it has, keeps the part that is new and composes the
//! kept parts on demand.

use crate::compose::{compose, composed, composed_height, composed_width};
use crate::descriptor::{
    copy_corners, copy_descriptors, deep, descriptor_len, get_descriptors, PatchMean,
    MAX_PATCH_SIZE,
};
use crate::geometry::{CropRegion, ScrollDirection, ScrollImageList, ScrollOffset};
use crate::imaging::{all_inside, corners_fast12, corners_fast9, resize_nearest, to_luma8};
use crate::model::{
    bootstrapped, chosen_tier, corners_of, featured, gray_of, handled, lemma_edge_grown_wf,
    lemma_placed_keeps_wf, pending_ballots, placed, resolved, EdgeView, FrameSize, PendingFrame,
    ScrollIndex, SessionView, Settings, StitchOutcome, StitchStep,
};
use crate::placement::{
    crop_region, crop_region_of, cross_side, frame_origin, index_overlap, magnitude,
    min_diff_of, overlay_of, sample_size, scroll_side, SampleRate, ScrollImage, MAX_EXTENT,
};
use crate::raster::{shows, GrayFrame, Raster};
use crate::voting::{
    answers_fit, ballots, elect, elected, lemma_election_is_determined, Election, NeighborMatch,
};
use vstd::prelude::*;

verus! {

/// The extents of the stitched content as the session counts them: each
/// includes what the first frame covers on its side of the origin.
#[derive(Clone, Copy, Debug, PartialEq, Eq, Structural)]
pub struct ScrollScreenshotCaptureSize {
    pub top_image_size: i32,
    pub bottom_image_size: i32,
}

/// A stitching session.
pub struct ScrollScreenshotService {
    /// The kept parts before the first frame (above or left of it).
    top_image_list: Vec<ScrollImage>,
    /// The kept parts from the first frame on (below or right of it).
    bottom_image_list: Vec<ScrollImage>,
    current_direction: ScrollDirection,
    image_width: u32,
    image_height: u32,
    /// The extent covered before the origin.
    top_image_size: i32,
    top_image_index_size: i32,
    /// The extent covered from the origin on.
    bottom_image_size: i32,
    bottom_image_index_size: i32,
    corner_threshold: u8,
    descriptor_patch_size: usize,
    top_image_ann_index: ScrollIndex,
    bottom_image_ann_index: ScrollIndex,
    /// An index is rebuilt when a new frame shares at most this many
    /// pixels with the indexed one.
    min_size_delta: i32,
    image_dst_width: u32,
    image_dst_height: u32,
    enable_corner_fast12: Option<bool>,
    try_rollback: bool,
    sample_rate: SampleRate,
    min_sample_size: u32,
    max_sample_size: u32,
    pending: Option<PendingFrame>,
}

impl View for ScrollScreenshotService {
    type V = SessionView;

    closed spec fn view(&self) -> SessionView {
        SessionView {
            settings: Settings {
                direction: self.current_direction,
                sample_rate: self.sample_rate,
                min_sample_size: self.min_sample_size,
                max_sample_size: self.max_sample_size,
                corner_threshold: self.corner_threshold,
                patch_size: self.descriptor_patch_size,
                min_size_delta: self.min_size_delta,
                try_rollback: self.try_rollback,
            },
            frame: FrameSize {
                width: self.image_width as int,
                height: self.image_height as int,
                dst_width: self.image_dst_width as int,
                dst_height: self.image_dst_height as int,
            },
            tier: self.enable_corner_fast12,
            top: EdgeView {
                list: self.top_image_list@,
                size: self.top_image_size as int,
                index_size: self.top_image_index_size as int,
                index: self.top_image_ann_index,
            },
            bottom: EdgeView {
                list: self.bottom_image_list@,
                size: self.bottom_image_size as int,
                index_size: self.bottom_image_index_size as int,
                index: self.bottom_image_ann_index,
            },
            pending: self.pending,
        }
    }
}

/// The settings of a session that was never configured.
pub open spec fn default_settings() -> Settings {
    Settings {
        direction: ScrollDirection::Vertical,
        sample_rate: SampleRate { numerator: 0, denominator: 1 },
        min_sample_size: 0,
        max_sample_size: 0,
        corner_threshold: 64,
        patch_size: 9,
        min_size_delta: 64,
        try_rollback: false,
    }
}

impl ScrollScreenshotService {
    /// Whether the session's state is sound. Every session made by `new`
    /// is, and every function of the session keeps it so.
    pub open spec fn wf(&self) -> bool {
        self@.wf()
    }

    /// The length of the session's descriptors: the patch side rounded down
    /// to an even number.
    fn get_descriptor_size(&self) -> (size: usize)
        ensures
            size == descriptor_len(self@.settings.patch_size as int),
    {
        self.descriptor_patch_size / 2 * 2
    }

    /// A session with the default settings that holds nothing.
    pub fn new() -> (session: Self)
        ensures
            session.wf(),
            session@.settings == default_settings(),
            session@.is_fresh(),
    {
        Self {
            top_image_list: Vec::new(),
            bottom_image_list: Vec::new(),
            current_direction: ScrollDirection::Vertical,
            image_width: 0,
            image_height: 0,
            top_image_size: 0,
            top_image_index_size: 0,
            bottom_image_size: 0,
            bottom_image_index_size: 0,
            corner_threshold: 64,
            descriptor_patch_size: 9,
            min_size_delta: 64,
            image_dst_width: 0,
            image_dst_height: 0,
            top_image_ann_index: ScrollIndex::new(8),
            bottom_image_ann_index: ScrollIndex::new(8),
            enable_corner_fast12: None,
            try_rollback: false,
            sample_rate: SampleRate { numerator: 0, denominator: 1 },
            min_sample_size: 0,
            max_sample_size: 0,
            pending: None,
        }
    }

    /// Drops every kept part, both indexes and the pending frame. The
    /// settings, the frame size and the corner detector stay.
    pub fn clear(&mut self)
        requires
            old(self).wf(),
        ensures
            final(self).wf(),
            final(self)@.is_cleared(),
            final(self)@.settings == old(self)@.settings,
            final(self)@.frame == old(self)@.frame,
            final(self)@.tier == old(self)@.tier,
            final(self)@.pending is None,
    {
        let dimension = self.get_descriptor_size();
        self.top_image_list = Vec::new();
        self.bottom_image_list = Vec::new();
        self.top_image_size = 0;
        self.bottom_image_size = 0;
        self.top_image_index_size = 0;
        self.bottom_image_index_size = 0;
        self.top_image_ann_index = ScrollIndex::new(dimension);
        self.bottom_image_ann_index = ScrollIndex::new(dimension);
        self.pending = None;
    }

    /// Configures the session and drops everything it holds.
    pub fn init(
        &mut self,
        direction: ScrollDirection,
        sample_rate: SampleRate,
        min_sample_size: u32,
        max_sample_size: u32,
        corner_threshold: u8,
        descriptor_patch_size: usize,
        min_size_delta: i32,
        try_rollback: bool,
    )
        requires
            descriptor_patch_size <= MAX_PATCH_SIZE,
        ensures
            final(self).wf(),
            final(self)@.is_fresh(),
            final(self)@.settings == (Settings {
                direction,
                sample_rate,
                min_sample_size,
                max_sample_size,
                corner_threshold,
                patch_size: descriptor_patch_size,
                min_size_delta,
                try_rollback,
            }),
    {
        self.top_image_list = Vec::new();
        self.bottom_image_list = Vec::new();
        self.current_direction = direction;
        self.image_width = 0;
        self.image_height = 0;
        self.image_dst_width = 0;
        self.image_dst_height = 0;
        self.top_image_size = 0;
        self.bottom_image_size = 0;
        self.corner_threshold = corner_threshold;
        self.descriptor_patch_size = descriptor_patch_size;
        self.min_size_delta = min_size_delta;
        self.top_image_index_size = 0;
        self.bottom_image_index_size = 0;
        let dimension = self.get_descriptor_size();
        self.top_image_ann_index = ScrollIndex::new(dimension);
        self.bottom_image_ann_index = ScrollIndex::new(dimension);
        self.try_rollback = try_rollback;
        self.enable_corner_fast12 = None;
        self.sample_rate = sample_rate;
        self.min_sample_size = min_sample_size;
        self.max_sample_size = max_sample_size;
        self.pending = None;
    }

    /// Fixes the size of the session's frames, and with it the size at
    /// which they are analysed. Refused, with nothing changed, when parts
    /// are held already or when a side is longer than `MAX_EXTENT`.
    pub fn init_image_size(&mut self, image_width: u32, image_height: u32) -> (accepted: bool)
        requires
            old(self).wf(),
        ensures
            final(self).wf(),
            accepted == (old(self)@.is_empty() && image_width <= MAX_EXTENT && image_height
                <= MAX_EXTENT),
            accepted ==> final(self)@ == (SessionView {
                frame: old(self)@.sized(image_width as int, image_height as int),
                ..old(self)@
            }),
            !accepted ==> final(self)@ == old(self)@,
    {
        if self.top_image_list.len() != 0 || self.bottom_image_list.len() != 0 || image_width
            > MAX_EXTENT as u32 || image_height > MAX_EXTENT as u32 {
            return false;
        }
        self.image_width = image_width;
        self.image_height = image_height;
        let cross = cross_side(self.current_direction, image_width, image_height);
        let sampled = sample_size(
            cross,
            self.sample_rate,
            self.min_sample_size,
            self.max_sample_size,
        );
        match self.current_direction {
            ScrollDirection::Vertical => {
                self.image_dst_width = sampled;
                self.image_dst_height = image_height;
            },
            ScrollDirection::Horizontal => {
                self.image_dst_width = image_width;
                self.image_dst_height = sampled;
            },
        }
        true
    }

    /// The greyscale frame that is analysed for a capture.
    fn get_gray_image(&self, image: &Raster) -> (gray: GrayFrame)
        requires
            self.wf(),
            image.wf(),
            image@.width == self@.frame.width,
            image@.height == self@.frame.height,
        ensures
            gray.wf(),
            gray@ == gray_of(image@, self@.frame.dst_width, self@.frame.dst_height),
            gray@.width == self@.frame.dst_width,
            gray@.height == self@.frame.dst_height,
    {
        let gray = to_luma8(image);
        if self.image_dst_width == image.width && self.image_dst_height == image.height {
            return gray;
        }
        proof {
            let total = image.data.len();
            assert(self.image_dst_width * self.image_dst_height <= image.width * image.height)
                by (nonlinear_arith)
                requires
                    0 <= self.image_dst_width <= image.width,
                    0 <= self.image_dst_height <= image.height,
            ;
            assert(image.width * image.height <= 4 * image.width * image.height)
                by (nonlinear_arith)
                requires
                    0 <= image.width,
                    0 <= image.height,
            ;
        }
        resize_nearest(&gray, self.image_dst_width, self.image_dst_height)
    }

    /// The corners of a frame. The first frame of a session settles which
    /// detector the session uses.
    fn get_corners(&mut self, gray: &GrayFrame) -> (corners: Vec<ScrollOffset>)
        requires
            old(self).wf(),
            gray.wf(),
            gray@.width == old(self)@.frame.dst_width,
            gray@.height == old(self)@.frame.dst_height,
        ensures
            final(self)@ == (SessionView {
                tier: Some(
                    chosen_tier(old(self)@.tier, gray@, old(self)@.settings.corner_threshold),
                ),
                ..old(self)@
            }),
            corners@ == corners_of(old(self)@.tier, gray@, old(self)@.settings.corner_threshold),
            all_inside(corners@, gray@.width, gray@.height),
    {
        match self.enable_corner_fast12 {
            None => {
                let fast12 = corners_fast12(gray, self.corner_threshold);
                if fast12.len() > 200 {
                    self.enable_corner_fast12 = Some(true);
                    fast12
                } else {
                    self.enable_corner_fast12 = Some(false);
                    corners_fast9(gray, self.corner_threshold)
                }
            },
            Some(true) => corners_fast12(gray, self.corner_threshold),
            Some(false) => corners_fast9(gray, self.corner_threshold),
        }
    }

    /// The part of a frame that is kept when `delta_size` pixels of it are
    /// wanted along the scroll axis.
    fn get_crop_region(&self, delta_size: i32) -> (region: CropRegion)
        requires
            self@.frame.width <= MAX_EXTENT,
            self@.frame.height <= MAX_EXTENT,
            magnitude(delta_size as int) <= self@.side(),
        ensures
            region == crop_region_of(
                self@.settings.direction,
                self@.frame.width,
                self@.frame.height,
                delta_size as int,
            ),
    {
        crop_region(self.current_direction, self.image_width, self.image_height, delta_size)
    }

    /// The bound on plausible shifts for a search, at the given edge, of an
    /// index that lies at `index_position`.
    fn min_diff(&self, index_position: i32, list: ScrollImageList) -> (bound: i64)
        requires
            self.wf(),
        ensures
            bound == min_diff_of(
                list,
                self@.top.size,
                self@.bottom.size,
                self@.side(),
                index_position as int,
            ),
    {
        let side: i64 = scroll_side(self.current_direction, self.image_width, self.image_height)
            as i64;
        match list {
            ScrollImageList::Bottom => -(self.bottom_image_size as i64 - side + 1)
                + index_position as i64,
            ScrollImageList::Top => (self.top_image_size as i64 + 1) + index_position as i64,
        }
    }

    /// Replaces the index of the edge that a frame with its outer edge at
    /// `edge_position` extends by one built from that frame.
    fn build_index(
        &mut self,
        corners: Vec<ScrollOffset>,
        descriptors: Vec<Vec<PatchMean>>,
        edge_position: i32,
        index_edge_position_distance: i32,
    )
        requires
            edge_position != 0,
            i32::MIN <= old(self)@.bottom.index_size - index_edge_position_distance <= i32::MAX,
            i32::MIN < old(self)@.top.index_size - index_edge_position_distance <= i32::MAX,
        ensures
            final(self)@.settings == old(self)@.settings,
            final(self)@.frame == old(self)@.frame,
            final(self)@.tier == old(self)@.tier,
            final(self)@.pending == old(self)@.pending,
            edge_position > 0 ==> {
                &&& final(self)@.top == old(self)@.top
                &&& final(self)@.bottom == (EdgeView {
                    index: final(self)@.bottom.index,
                    ..old(self)@.bottom
                })
                &&& final(self)@.bottom.index.position == old(self)@.bottom.index_size
                    - index_edge_position_distance
                &&& final(self)@.bottom.index.dimension == descriptor_len(
                    old(self)@.settings.patch_size as int,
                )
                &&& final(self)@.bottom.index.corners == corners
                &&& final(self)@.bottom.index.descriptors == descriptors
            },
            edge_position < 0 ==> {
                &&& final(self)@.bottom == old(self)@.bottom
                &&& final(self)@.top == (EdgeView {
                    index: final(self)@.top.index,
                    ..old(self)@.top
                })
                &&& final(self)@.top.index.position == -(old(self)@.top.index_size
                    - index_edge_position_distance)
                &&& final(self)@.top.index.dimension == descriptor_len(
                    old(self)@.settings.patch_size as int,
                )
                &&& final(self)@.top.index.corners == corners
                &&& final(self)@.top.index.descriptors == descriptors
            },
    {
        let index_position: i32 = if edge_position > 0 {
            self.bottom_image_index_size - index_edge_position_distance
        } else {
            -(self.top_image_index_size - index_edge_position_distance)
        };
        let new_scroll_index = ScrollIndex {
            position: index_position,
            dimension: self.get_descriptor_size(),
            corners,
            descriptors,
        };
        if edge_position > 0 {
            self.bottom_image_ann_index = new_scroll_index;
        } else {
            self.top_image_ann_index = new_scroll_index;
        }
    }

    /// Cuts from a frame the part that it adds, with its allowance of
    /// overlap, and rebuilds the index of the extended edge when the frame
    /// has nearly left the indexed one. Returns the part, the growth of the
    /// indexed extent and whether the index was rebuilt.
    fn add_index(
        &mut self,
        image: &Raster,
        corners: Vec<ScrollOffset>,
        descriptors: Vec<Vec<PatchMean>>,
        edge_position: i32,
        delta_size: i32,
    ) -> (r: (ScrollImage, i32, bool))
        requires
            old(self).wf(),
            image.wf(),
            image@.width == old(self)@.frame.width,
            image@.height == old(self)@.frame.height,
            delta_size != 0,
            magnitude(delta_size as int) <= old(self)@.side(),
            delta_size > 0 ==> 0 < edge_position <= MAX_EXTENT && delta_size == edge_position
                - old(self)@.bottom.size,
            delta_size < 0 ==> -MAX_EXTENT <= edge_position < 0 && delta_size == edge_position
                + old(self)@.top.size,
        ensures
            final(self)@.settings == old(self)@.settings,
            final(self)@.frame == old(self)@.frame,
            final(self)@.tier == old(self)@.tier,
            final(self)@.pending == old(self)@.pending,
            r.0.overlay_size == overlay_of(delta_size as int, old(self)@.side()),
            ({
                let region = crop_region_of(
                    old(self)@.settings.direction,
                    old(self)@.frame.width,
                    old(self)@.frame.height,
                    delta_size + r.0.overlay_size,
                );
                image@.cut_is(
                    r.0.image@,
                    region.x as int,
                    region.y as int,
                    region.width as int,
                    region.height as int,
                )
            }),
            ({
                let list = if delta_size > 0 {
                    ScrollImageList::Bottom
                } else {
                    ScrollImageList::Top
                };
                let before = old(self)@.edge(list);
                let after = final(self)@.edge(list);
                let side = old(self)@.side();
                let overlap = index_overlap(
                    list,
                    edge_position as int,
                    side,
                    before.index_size,
                    before.index_size,
                );
                &&& final(self)@.edge(list.opposite()) == old(self)@.edge(list.opposite())
                &&& after.list == before.list
                &&& after.size == before.size
                &&& after.index_size == before.index_size
                &&& r.2 == (overlap <= old(self)@.settings.min_size_delta)
                &&& if r.2 {
                    &&& r.1 == side - overlap
                    &&& after.index.position == (match list {
                        ScrollImageList::Bottom => edge_position - side,
                        ScrollImageList::Top => edge_position as int,
                    })
                    &&& after.index.dimension == descriptor_len(
                        old(self)@.settings.patch_size as int,
                    )
                    &&& after.index.corners == corners
                    &&& after.index.descriptors == descriptors
                } else {
                    &&& r.1 == 0
                    &&& after.index == before.index
                }
            }),
    {
        let mut index_delta_size: i32 = 0;
        let mut rebuilt = false;
        let image_scroll_side_size: i32 = scroll_side(
            self.current_direction,
            self.image_width,
            self.image_height,
        ) as i32;
        let index_edge_position_distance: i64 = if delta_size > 0 {
            self.bottom_image_index_size as i64 - (edge_position as i64
                - image_scroll_side_size as i64)
        } else {
            self.top_image_index_size as i64 + edge_position as i64
        };
        if index_edge_position_distance <= self.min_size_delta as i64 {
            index_delta_size = (image_scroll_side_size as i64 - index_edge_position_distance)
                as i32;
            self.build_index(
                corners,
                descriptors,
                edge_position,
                index_edge_position_distance as i32,
            );
            rebuilt = true;
        }
        // Half a frame may be painted over by the next part.
        let room: i32 = image_scroll_side_size / 2 - (if delta_size > 0 {
            delta_size
        } else {
            -delta_size
        });
        let allowance: i32 = if room > 0 {
            room
        } else {
            0
        };
        let image_overlay_size: i32 = if delta_size > 0 {
            allowance
        } else {
            -allowance
        };
        let crop_region = self.get_crop_region(delta_size + image_overlay_size);
        (
            ScrollImage {
                image: image.crop_imm(
                    crop_region.x,
                    crop_region.y,
                    crop_region.width,
                    crop_region.height,
                ),
                overlay_size: image_overlay_size,
            },
            index_delta_size,
            rebuilt,
        )
    }

    #[verifier::rlimit(50)]
    /// Places a frame that was matched with the keypoint `origin_position`
    /// of an index at `index_position` through its own keypoint
    /// `new_position`.
    fn push_image(
        &mut self,
        image: &Raster,
        corners: Vec<ScrollOffset>,
        descriptors: Vec<Vec<PatchMean>>,
        index_position: i32,
        origin_position: ScrollOffset,
        new_position: ScrollOffset,
        searched: ScrollImageList,
    ) -> (outcome: StitchOutcome)
        requires
            old(self).wf(),
            old(self)@.pending is None,
            image.wf(),
            image@.width == old(self)@.frame.width,
            image@.height == old(self)@.frame.height,
            corners@.len() >= 1,
            corners@.len() == descriptors@.len(),
            all_inside(corners@, old(self)@.frame.dst_width, old(self)@.frame.dst_height),
            old(self)@.in_reach(
                frame_origin(
                    old(self)@.settings.direction,
                    index_position as int,
                    origin_position,
                    new_position,
                ),
            ),
            old(self)@.is_empty() ==> frame_origin(
                old(self)@.settings.direction,
                index_position as int,
                origin_position,
                new_position,
            ) == 0,
        ensures
            final(self).wf(),
            placed(
                old(self)@,
                final(self)@,
                image@,
                corners@,
                deep(descriptors@),
                frame_origin(
                    old(self)@.settings.direction,
                    index_position as int,
                    origin_position,
                    new_position,
                ),
                searched,
                outcome,
            ),
    {
        let ghost before = self@;
        let ghost corners_seq = corners@;
        let ghost descriptors_seq = deep(descriptors@);
        let image_scroll_side_size: i64 = scroll_side(
            self.current_direction,
            self.image_width,
            self.image_height,
        ) as i64;
        let position_offset: i64 = match self.current_direction {
            ScrollDirection::Vertical => origin_position.y as i64 - new_position.y as i64
                + index_position as i64,
            ScrollDirection::Horizontal => origin_position.x as i64 - new_position.x as i64
                + index_position as i64,
        };
        // The outer edge of the frame.
        let edge_position: i64 = if position_offset >= 0 {
            position_offset + image_scroll_side_size
        } else {
            position_offset
        };
        // What the frame adds.
        let (delta_size, is_bottom): (i64, bool) = if edge_position >= 0 && edge_position
            > self.bottom_image_size as i64 && edge_position <= MAX_EXTENT as i64 {
            (edge_position - self.bottom_image_size as i64, true)
        } else if edge_position < 0 && -edge_position > self.top_image_size as i64
            && -edge_position <= MAX_EXTENT as i64 {
            (edge_position + self.top_image_size as i64, false)
        } else {
            return StitchOutcome::Placed {
                edge_position: edge_position as i32,
                grown: None,
                edge: searched,
                reindexed_top: false,
                reindexed_bottom: false,
            };
        };
        proof {
            let c = corners@[0];
            assert(0 <= c.x < before.frame.dst_width && 0 <= c.y < before.frame.dst_height);
        }
        let (cropped_image, index_delta_size, rebuilt) = self.add_index(
            image,
            corners,
            descriptors,
            edge_position as i32,
            delta_size as i32,
        );
        if is_bottom {
            let ghost old_list = self.bottom_image_list@;
            self.bottom_image_list.push(cropped_image);
            self.bottom_image_size = (self.bottom_image_size as i64 + delta_size) as i32;
            self.bottom_image_index_size = self.bottom_image_index_size + index_delta_size;
            let outcome = StitchOutcome::Placed {
                edge_position: edge_position as i32,
                grown: Some(ScrollImageList::Bottom),
                edge: searched,
                reindexed_top: false,
                reindexed_bottom: rebuilt,
            };
            proof {
                assert(self.bottom_image_list@.drop_last() =~= old_list);
                assert(self@.top == before.top);
                lemma_placed_keeps_wf(
                    before,
                    self@,
                    image@,
                    corners_seq,
                    descriptors_seq,
                    position_offset as int,
                    searched,
                    outcome,
                );
            }
            outcome
        } else {
            let ghost old_list = self.top_image_list@;
            self.top_image_list.push(cropped_image);
            self.top_image_size = (self.top_image_size as i64 - delta_size) as i32;
            self.top_image_index_size = self.top_image_index_size + index_delta_size;
            let outcome = StitchOutcome::Placed {
                edge_position: edge_position as i32,
                grown: Some(ScrollImageList::Top),
                edge: searched,
                reindexed_top: rebuilt,
                reindexed_bottom: false,
            };
            proof {
                assert(self.top_image_list@.drop_last() =~= old_list);
                assert(self@.bottom == before.bottom);
                lemma_placed_keeps_wf(
                    before,
                    self@,
                    image@,
                    corners_seq,
                    descriptors_seq,
                    position_offset as int,
                    searched,
                    outcome,
                );
            }
            outcome
        }
    }

    /// Runs the vote among the keypoints of a new frame against an index.
    ///
    /// `found` holds, for every keypoint of the frame, what the
    /// nearest-neighbour search in `index` reported for it. The result is
    /// the index with the matched entry and the keypoint of the winning
    /// shift, if one shift wins, and whether the view counts as unchanged.
    pub fn get_offsets<'a>(
        &self,
        index: &'a ScrollIndex,
        found: &Vec<Option<NeighborMatch>>,
        image_corners: &Vec<ScrollOffset>,
        scroll_image_list: ScrollImageList,
    ) -> (r: (Option<(&'a ScrollIndex, usize, usize)>, bool))
        requires
            self.wf(),
            found.len() == image_corners.len(),
            answers_fit(found@, index.corners@.len() as int),
        ensures
            ({
                let cast = ballots(
                    self@.settings.direction,
                    min_diff_of(
                        scroll_image_list,
                        self@.top.size,
                        self@.bottom.size,
                        self@.side(),
                        index.position as int,
                    ),
                    index.corners@,
                    image_corners@,
                    found@,
                );
                match r.0 {
                    None => if r.1 {
                        elected(cast, found@, Election::Unchanged)
                    } else {
                        elected(cast, found@, Election::NoReliableMatch)
                    },
                    Some((matched, origin, new)) => {
                        &&& !r.1
                        &&& matched == index
                        &&& elected(cast, found@, Election::Winner { origin, new })
                    },
                }
            }),
    {
        let min_diff = self.min_diff(index.position, scroll_image_list);
        match elect(self.current_direction, min_diff, &index.corners, image_corners, found) {
            Election::Unchanged => (None, true),
            Election::NoReliableMatch => (None, false),
            Election::Winner { origin, new } => (Some((index, origin, new)), false),
        }
    }

    /// Takes a new capture that is expected to extend the edge
    /// `scroll_image_list`.
    ///
    /// The first frame of an empty session is placed at once. Any later
    /// frame is kept as the pending frame, and the caller is asked to
    /// search the index of the hinted edge for its keypoints and to hand
    /// the answers to `handle_matches`. A pending frame that was never
    /// resolved is dropped.
    pub fn handle_image(&mut self, image: Raster, scroll_image_list: ScrollImageList) -> (step:
        StitchStep)
        requires
            old(self).wf(),
            image.wf(),
        ensures
            final(self).wf(),
            handled(old(self)@, final(self)@, image@, scroll_image_list, step),
            final(self)@.top.size >= old(self)@.top.size,
            final(self)@.bottom.size >= old(self)@.bottom.size,
            final(self)@.leading_extent() >= old(self)@.leading_extent(),
            final(self)@.trailing_extent() >= old(self)@.trailing_extent(),
            !(step matches StitchStep::Done(StitchOutcome::Placed { .. })) ==> {
                &&& final(self)@.top == old(self)@.top
                &&& final(self)@.bottom == old(self)@.bottom
            },
            old(self)@.is_empty() ==> (step matches StitchStep::Done(
                StitchOutcome::Placed { grown, edge, .. },
            ) ==> {
                &&& grown == Some(ScrollImageList::Bottom)
                &&& edge == ScrollImageList::Bottom
                &&& final(self)@.bottom.list.len() == 1
                &&& final(self)@.top.list.len() == 0
                &&& final(self)@.bottom.list[0].image@.width == image@.width
                &&& final(self)@.bottom.list[0].image@.height == image@.height
                &&& final(self)@.leading_extent() == 0
                &&& final(self)@.trailing_extent() == 0
            }),
    {
        self.pending = None;
        let known_width = self.image_width;
        let known_height = self.image_height;
        let known_dst_width = self.image_dst_width;
        let known_dst_height = self.image_dst_height;
        let known_tier = self.enable_corner_fast12;
        if self.image_width == 0 || self.image_height == 0 {
            // The first frame fixes the size of all frames.
            if !self.init_image_size(image.width, image.height) {
                return StitchStep::Done(
                    StitchOutcome::InvalidDimensions { edge: scroll_image_list },
                );
            }
        } else if image.width != self.image_width || image.height != self.image_height {
            return StitchStep::Done(StitchOutcome::InvalidDimensions { edge: scroll_image_list });
        }
        let gray_image = self.get_gray_image(&image);
        let image_corners = self.get_corners(&gray_image);
        let image_descriptors = get_descriptors(
            &gray_image,
            &image_corners,
            self.descriptor_patch_size,
        );
        let featureless = image_corners.len() == 0;
        let step = self.handle_features(
            image,
            image_corners,
            image_descriptors,
            scroll_image_list,
        );
        if featureless {
            // A frame without corners leaves no trace.
            self.image_width = known_width;
            self.image_height = known_height;
            self.image_dst_width = known_dst_width;
            self.image_dst_height = known_dst_height;
            self.enable_corner_fast12 = known_tier;
        }
        step
    }

    /// Takes a frame whose keypoints and descriptors are known already. The
    /// frame has the size of the session's frames, and its keypoints lie
    /// inside the analysed frame.
    ///
    /// A frame without keypoints is skipped. The first frame of an empty
    /// session is placed at once; any other frame becomes the pending
    /// frame, and the caller is asked for a search at the hinted edge.
    pub fn handle_features(
        &mut self,
        image: Raster,
        corners: Vec<ScrollOffset>,
        descriptors: Vec<Vec<PatchMean>>,
        scroll_image_list: ScrollImageList,
    ) -> (step: StitchStep)
        requires
            old(self).wf(),
            image.wf(),
            image@.width == old(self)@.frame.width,
            image@.height == old(self)@.frame.height,
            corners@.len() == descriptors@.len(),
            all_inside(corners@, old(self)@.frame.dst_width, old(self)@.frame.dst_height),
        ensures
            final(self).wf(),
            featured(
                old(self)@,
                final(self)@,
                image@,
                corners@,
                deep(descriptors@),
                scroll_image_list,
                step,
            ),
            final(self)@.top.size >= old(self)@.top.size,
            final(self)@.bottom.size >= old(self)@.bottom.size,
            final(self)@.leading_extent() >= old(self)@.leading_extent(),
            final(self)@.trailing_extent() >= old(self)@.trailing_extent(),
            !(step matches StitchStep::Done(StitchOutcome::Placed { .. })) ==> {
                &&& final(self)@.top == old(self)@.top
                &&& final(self)@.bottom == old(self)@.bottom
            },
            old(self)@.is_empty() ==> (step matches StitchStep::Done(
                StitchOutcome::Placed { grown, edge, .. },
            ) ==> {
                &&& grown == Some(ScrollImageList::Bottom)
                &&& edge == ScrollImageList::Bottom
                &&& final(self)@.bottom.list.len() == 1
                &&& final(self)@.top.list.len() == 0
                &&& final(self)@.bottom.list[0].image@.width == image@.width
                &&& final(self)@.bottom.list[0].image@.height == image@.height
                &&& final(self)@.leading_extent() == 0
                &&& final(self)@.trailing_extent() == 0
            }),
    {
        self.pending = None;
        if corners.len() == 0 {
            return StitchStep::Done(StitchOutcome::NoFeatures { edge: scroll_image_list });
        }
        if self.top_image_list.len() == 0 && self.bottom_image_list.len() == 0 {
            let outcome = self.bootstrap(&image, corners, descriptors);
            return StitchStep::Done(outcome);
        }
        self.pending = Some(
            PendingFrame {
                image,
                corners,
                descriptors,
                hinted: scroll_image_list,
                searching: scroll_image_list,
            },
        );
        StitchStep::Search(scroll_image_list)
    }

    /// Places the first frame of a session at the origin and builds both
    /// indexes from it.
    fn bootstrap(
        &mut self,
        image: &Raster,
        corners: Vec<ScrollOffset>,
        descriptors: Vec<Vec<PatchMean>>,
    ) -> (outcome: StitchOutcome)
        requires
            old(self).wf(),
            old(self)@.is_empty(),
            old(self)@.pending is None,
            image.wf(),
            image@.width == old(self)@.frame.width,
            image@.height == old(self)@.frame.height,
            corners@.len() >= 1,
            corners@.len() == descriptors@.len(),
            all_inside(corners@, old(self)@.frame.dst_width, old(self)@.frame.dst_height),
        ensures
            final(self).wf(),
            bootstrapped(
                old(self)@,
                final(self)@,
                image@,
                corners@,
                deep(descriptors@),
                outcome,
            ),
            final(self)@.bottom.list.len() == 1,
            final(self)@.top.list.len() == 0,
            final(self)@.bottom.list[0].image@.width == image@.width,
            final(self)@.bottom.list[0].image@.height == image@.height,
            final(self)@.leading_extent() == 0,
            final(self)@.trailing_extent() == 0,
    {
        let ghost before = self@;
        let top_corners = copy_corners(&corners);
        let top_descriptors = copy_descriptors(&descriptors);
        let placement = self.push_image(
            image,
            corners,
            descriptors,
            0,
            ScrollOffset { x: 0, y: 0 },
            ScrollOffset { x: 0, y: 0 },
            ScrollImageList::Bottom,
        );
        let ghost pushed = self@;
        proof {
            let c = corners@[0];
            assert(0 <= c.x < before.frame.dst_width && 0 <= c.y < before.frame.dst_height);
            lemma_edge_grown_wf(
                before.bottom,
                pushed.bottom,
                ScrollImageList::Bottom,
                before.settings,
                before.frame,
                image@,
                corners@,
                deep(descriptors@),
                before.side(),
            );
            assert(pushed.bottom.list.last() == pushed.bottom.list[0]);
        }
        self.top_image_ann_index = ScrollIndex {
            position: 0,
            dimension: self.get_descriptor_size(),
            corners: top_corners,
            descriptors: top_descriptors,
        };
        match placement {
            StitchOutcome::Placed { edge_position, grown, edge, reindexed_bottom, .. } => {
                StitchOutcome::Placed {
                    edge_position,
                    grown,
                    edge,
                    reindexed_top: true,
                    reindexed_bottom,
                }
            },
            other => other,
        }
    }

    /// Takes the answers of the search that the session asked for, votes,
    /// and either places the pending frame, asks for a search at the other
    /// edge, or gives the frame up. Without a pending frame nothing
    /// happens, and the step reports that nothing was matched.
    pub fn handle_matches(&mut self, found: &Vec<Option<NeighborMatch>>) -> (step: StitchStep)
        requires
            old(self).wf(),
            old(self)@.pending matches Some(p) ==> found.len() == p.corners.len() && answers_fit(
                found@,
                old(self)@.edge(p.searching).index.corners@.len() as int,
            ),
        ensures
            final(self).wf(),
            old(self)@.pending is None ==> final(self)@ == old(self)@ && step == StitchStep::Done(
                StitchOutcome::NoReliableMatch { edge: ScrollImageList::Bottom },
            ),
            old(self)@.pending is Some ==> forall|election: Election|
                elected(pending_ballots(old(self)@, found@), found@, election) ==> resolved(
                    old(self)@,
                    final(self)@,
                    election,
                    step,
                ),
            old(self)@.pending is Some ==> exists|election: Election|
                elected(pending_ballots(old(self)@, found@), found@, election),
            final(self)@.top.size >= old(self)@.top.size,
            final(self)@.bottom.size >= old(self)@.bottom.size,
            final(self)@.leading_extent() >= old(self)@.leading_extent(),
            final(self)@.trailing_extent() >= old(self)@.trailing_extent(),
            !(step matches StitchStep::Done(StitchOutcome::Placed { .. })) ==> {
                &&& final(self)@.top == old(self)@.top
                &&& final(self)@.bottom == old(self)@.bottom
            },
    {
        let ghost before = self@;
        let ghost cast = pending_ballots(before, found@);
        let pending = match self.pending.take() {
            Some(pending) => pending,
            None => {
                return StitchStep::Done(
                    StitchOutcome::NoReliableMatch { edge: ScrollImageList::Bottom },
                );
            },
        };
        let election = match pending.searching {
            ScrollImageList::Top => {
                let min_diff = self.min_diff(self.top_image_ann_index.position, pending.searching);
                elect(
                    self.current_direction,
                    min_diff,
                    &self.top_image_ann_index.corners,
                    &pending.corners,
                    found,
                )
            },
            ScrollImageList::Bottom => {
                let min_diff = self.min_diff(
                    self.bottom_image_ann_index.position,
                    pending.searching,
                );
                elect(
                    self.current_direction,
                    min_diff,
                    &self.bottom_image_ann_index.corners,
                    &pending.corners,
                    found,
                )
            },
        };
        proof {
            assert(elected(cast, found@, election));
            assert forall|other: Election| elected(cast, found@, other) implies other
                == election by {
                lemma_election_is_determined(cast, found@, other, election);
            }
        }
        match election {
            Election::Unchanged => StitchStep::Done(
                StitchOutcome::Unchanged { edge: pending.hinted },
            ),
            Election::NoReliableMatch => {
                let first_attempt = match (pending.searching, pending.hinted) {
                    (ScrollImageList::Top, ScrollImageList::Top) => true,
                    (ScrollImageList::Bottom, ScrollImageList::Bottom) => true,
                    _ => false,
                };
                if first_attempt && self.try_rollback {
                    let second = pending.hinted.opposite();
                    self.pending = Some(
                        PendingFrame {
                            image: pending.image,
                            corners: pending.corners,
                            descriptors: pending.descriptors,
                            hinted: pending.hinted,
                            searching: second,
                        },
                    );
                    StitchStep::Search(second)
                } else {
                    StitchStep::Done(StitchOutcome::NoReliableMatch { edge: pending.hinted })
                }
            },
            Election::Winner { origin, new } => {
                let (index_position, origin_position) = match pending.searching {
                    ScrollImageList::Top => (
                        self.top_image_ann_index.position,
                        self.top_image_ann_index.corners[origin],
                    ),
                    ScrollImageList::Bottom => (
                        self.bottom_image_ann_index.position,
                        self.bottom_image_ann_index.corners[origin],
                    ),
                };
                let new_position = pending.corners[new];
                proof {
                    let index = before.edge(pending.searching).index;
                    assert(0 <= origin_position.x < before.frame.dst_width && 0
                        <= origin_position.y < before.frame.dst_height);
                    assert(0 <= new_position.x < before.frame.dst_width && 0 <= new_position.y
                        < before.frame.dst_height);
                }
                let outcome = self.push_image(
                    &pending.image,
                    pending.corners,
                    pending.descriptors,
                    index_position,
                    origin_position,
                    new_position,
                    pending.searching,
                );
                proof {
                    lemma_placed_keeps_wf(
                        before.idle(),
                        self@,
                        pending.image@,
                        pending.corners@,
                        deep(pending.descriptors@),
                        frame_origin(
                            before.settings.direction,
                            index_position as int,
                            origin_position,
                            new_position,
                        ),
                        pending.searching,
                        outcome,
                    );
                }
                StitchStep::Done(outcome)
            },
        }
    }

    /// Composes everything that was placed into one raster. Returns `None`
    /// when nothing was placed, or when the bytes of the raster cannot be
    /// addressed on this machine.
    pub fn export(&self) -> (raster: Option<Raster>)
        requires
            self.wf(),
        ensures
            raster is Some <==> !self@.is_empty() && 4 * composed_width(
                self@.settings.direction,
                self@.frame.width,
                self@.top.size,
                self@.bottom.size,
            ) * composed_height(
                self@.settings.direction,
                self@.frame.height,
                self@.top.size,
                self@.bottom.size,
            ) <= usize::MAX,
            raster matches Some(r) ==> {
                &&& r.wf()
                &&& r@.width == composed_width(
                    self@.settings.direction,
                    self@.frame.width,
                    self@.top.size,
                    self@.bottom.size,
                )
                &&& r@.height == composed_height(
                    self@.settings.direction,
                    self@.frame.height,
                    self@.top.size,
                    self@.bottom.size,
                )
                &&& shows(
                    r@,
                    composed(
                        self@.top.list,
                        self@.bottom.list,
                        self@.settings.direction,
                        self@.top.size,
                    ),
                )
            },
    {
        if self.top_image_list.len() == 0 && self.bottom_image_list.len() == 0 {
            return None;
        }
        compose(
            &self.top_image_list,
            &self.bottom_image_list,
            self.current_direction,
            self.image_width,
            self.image_height,
            self.top_image_size,
            self.bottom_image_size,
        )
    }

    /// How far the stitched content reaches beyond the first frame: before
    /// it (leading) and past it (trailing).
    pub fn get_extents(&self) -> (extents: (i32, i32))
        requires
            self.wf(),
        ensures
            extents.0 == self@.leading_extent(),
            extents.1 == self@.trailing_extent(),
    {
        if self.top_image_list.len() == 0 && self.bottom_image_list.len() == 0 {
            (0, 0)
        } else {
            let side = scroll_side(self.current_direction, self.image_width, self.image_height);
            (self.top_image_size, self.bottom_image_size - side as i32)
        }
    }

    /// The extents of the stitched content on both sides of the origin,
    /// the first frame included.
    pub fn get_size(&self) -> (size: ScrollScreenshotCaptureSize)
        ensures
            size.top_image_size == self@.top.size,
            size.bottom_image_size == self@.bottom.size,
    {
        ScrollScreenshotCaptureSize {
            top_image_size: self.top_image_size,
            bottom_image_size: self.bottom_image_size,
        }
    }

    /// The scroll axis of the session.
    pub fn current_direction(&self) -> (direction: ScrollDirection)
        ensures
            direction == self@.settings.direction,
    {
        self.current_direction
    }

    /// The width of the session's frames, zero before the first frame.
    pub fn image_width(&self) -> (width: u32)
        ensures
            width == self@.frame.width,
    {
        self.image_width
    }

    /// The height of the session's frames, zero before the first frame.
    pub fn image_height(&self) -> (height: u32)
        ensures
            height == self@.frame.height,
    {
        self.image_height
    }

    /// The size at which the session's frames are analysed: width, then
    /// height. Both are zero before the first frame.
    pub fn analysed_size(&self) -> (size: (u32, u32))
        ensures
            size.0 == self@.frame.dst_width,
            size.1 == self@.frame.dst_height,
    {
        (self.image_dst_width, self.image_dst_height)
    }

    /// The kept parts before the first frame, in the order of placement.
    pub fn top_image_list(&self) -> (list: &Vec<ScrollImage>)
        ensures
            list@ == self@.top.list,
    {
        &self.top_image_list
    }

    /// The kept parts from the first frame on, in the order of placement.
    pub fn bottom_image_list(&self) -> (list: &Vec<ScrollImage>)
        ensures
            list@ == self@.bottom.list,
    {
        &self.bottom_image_list
    }

    /// The index that is searched for frames extending the given edge.
    pub fn ann_index(&self, list: ScrollImageList) -> (index: &ScrollIndex)
        ensures
            *index == self@.edge(list).index,
    {
        match list {
            ScrollImageList::Top => &self.top_image_ann_index,
            ScrollImageList::Bottom => &self.bottom_image_ann_index,
        }
    }

    /// The frame that waits for the answer of a search, if there is one.
    pub fn pending(&self) -> (pending: &Option<PendingFrame>)
        ensures
            *pending == self@.pending,
    {
        &self.pending
    }
}

} // verus!
