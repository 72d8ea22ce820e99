//! Whole sessions on synthetic captures: frames are cut from one large
//! picture at known offsets, and the nearest neighbours are found by
//! exhaustive search.

use scroll_stitch::descriptor::PatchMean;
use scroll_stitch::geometry::{ScrollDirection, ScrollImageList};
use scroll_stitch::model::{ScrollIndex, StitchOutcome, StitchStep};
use scroll_stitch::placement::SampleRate;
use scroll_stitch::raster::Raster;
use scroll_stitch::session::ScrollScreenshotService;
use scroll_stitch::voting::NeighborMatch;

struct Lcg(u64);

impl Lcg {
    fn next(&mut self) -> u32 {
        self.0 = self.0.wrapping_mul(6364136223846793005).wrapping_add(1442695040888963407);
        (self.0 >> 33) as u32
    }

    fn below(&mut self, bound: u32) -> u32 {
        self.next() % bound
    }
}

/// A grey picture with faint noise and many small rectangles that are much
/// darker or much brighter than the ground.
fn picture(width: u32, height: u32, rectangles: u32, seed: u64) -> Raster {
    let mut rng = Lcg(seed);
    let mut luma = vec![0u8; (width * height) as usize];
    for value in luma.iter_mut() {
        *value = 120 + rng.below(16) as u8;
    }
    for _ in 0..rectangles {
        let w = 8 + rng.below(20);
        let h = 8 + rng.below(20);
        let x0 = rng.below(width - w);
        let y0 = rng.below(height - h);
        let level = if rng.below(2) == 0 { rng.below(30) as u8 } else { 225 + rng.below(30) as u8 };
        for y in y0..y0 + h {
            for x in x0..x0 + w {
                luma[(y * width + x) as usize] = level;
            }
        }
    }
    let mut data = Vec::with_capacity(luma.len() * 4);
    for value in luma {
        data.push(value);
        data.push(value);
        data.push(value);
        data.push(255);
    }
    Raster::new(width, height, data).unwrap()
}

fn rows(source: &Raster, top: u32, height: u32) -> Raster {
    source.crop_imm(0, top, source.width, height)
}

fn columns(source: &Raster, left: u32, width: u32) -> Raster {
    source.crop_imm(left, 0, width, source.height)
}

fn values(descriptor: &[PatchMean]) -> Vec<f32> {
    descriptor
        .iter()
        .map(|cell| if cell.count == 0 { 0.0 } else { cell.sum as f32 / 255.0 / cell.count as f32 })
        .collect()
}

fn distance(a: &[f32], b: &[f32]) -> f32 {
    a.iter().zip(b.iter()).map(|(x, y)| (x - y) * (x - y)).sum::<f32>().sqrt()
}

/// The exact nearest neighbour of every descriptor among those of the index.
fn nearest(index: &ScrollIndex, descriptors: &[Vec<PatchMean>]) -> Vec<Option<NeighborMatch>> {
    let stored: Vec<Vec<f32>> = index.descriptors.iter().map(|d| values(d)).collect();
    descriptors
        .iter()
        .map(|descriptor| {
            let query = values(descriptor);
            let mut best: Option<(usize, f32)> = None;
            for (i, candidate) in stored.iter().enumerate() {
                let d = distance(candidate, &query);
                if best.map_or(true, |(_, least)| d < least) {
                    best = Some((i, d));
                }
            }
            best.map(|(origin, d)| NeighborMatch { origin, close: d < 0.1 })
        })
        .collect()
}

fn feed(service: &mut ScrollScreenshotService, frame: Raster, hint: ScrollImageList) -> StitchOutcome {
    let mut step = service.handle_image(frame, hint);
    loop {
        match step {
            StitchStep::Done(outcome) => return outcome,
            StitchStep::Search(edge) => {
                let found = {
                    let pending = service.pending().as_ref().unwrap();
                    nearest(service.ann_index(edge), &pending.descriptors)
                };
                step = service.handle_matches(&found);
            }
        }
    }
}

fn session(direction: ScrollDirection, min_size_delta: i32, try_rollback: bool) -> ScrollScreenshotService {
    let mut service = ScrollScreenshotService::new();
    service.init(
        direction,
        SampleRate { numerator: 1, denominator: 1 },
        0,
        u32::MAX,
        64,
        9,
        min_size_delta,
        try_rollback,
    );
    service
}

fn same_pixels(a: &Raster, ax: u32, ay: u32, b: &Raster, bx: u32, by: u32, width: u32, height: u32) -> bool {
    for y in 0..height {
        for x in 0..width {
            let i = (((ay + y) * a.width + ax + x) * 4) as usize;
            let j = (((by + y) * b.width + bx + x) * 4) as usize;
            if a.data[i..i + 4] != b.data[j..j + 4] {
                return false;
            }
        }
    }
    true
}

#[test]
fn first_frame_becomes_the_sole_trailing_entry() {
    let source = picture(320, 400, 60, 1);
    let mut service = session(ScrollDirection::Vertical, 64, false);
    assert!(service.export().is_none());
    assert_eq!(service.get_extents(), (0, 0));
    let outcome = feed(&mut service, rows(&source, 0, 240), ScrollImageList::Top);
    match outcome {
        StitchOutcome::Placed { edge_position, grown, edge, reindexed_top, reindexed_bottom } => {
            assert_eq!(edge_position, 240);
            assert_eq!(grown, Some(ScrollImageList::Bottom));
            assert_eq!(edge, ScrollImageList::Bottom);
            assert!(reindexed_top);
            assert!(reindexed_bottom);
        }
        other => panic!("unexpected outcome {:?}", other),
    }
    assert_eq!(outcome.into_tuple(), (Some((240, Some(ScrollImageList::Bottom))), false, ScrollImageList::Bottom));
    assert_eq!(service.bottom_image_list().len(), 1);
    assert_eq!(service.top_image_list().len(), 0);
    assert_eq!(service.bottom_image_list()[0].overlay_size, 0);
    assert_eq!(service.bottom_image_list()[0].image.width, 320);
    assert_eq!(service.bottom_image_list()[0].image.height, 240);
    assert_eq!(service.get_extents(), (0, 0));
    let size = service.get_size();
    assert_eq!((size.top_image_size, size.bottom_image_size), (0, 240));
    assert_eq!(service.image_width(), 320);
    assert_eq!(service.image_height(), 240);
    let top = service.ann_index(ScrollImageList::Top);
    let bottom = service.ann_index(ScrollImageList::Bottom);
    assert!(!top.corners.is_empty());
    assert_eq!(top.corners, bottom.corners);
    assert_eq!(top.descriptors, bottom.descriptors);
    assert_eq!(top.descriptors.len(), top.corners.len());
    assert_eq!(top.position, 0);
    assert_eq!(bottom.position, 0);
    assert_eq!(top.dimension, 8);
    assert!(top.descriptors.iter().all(|d| d.len() == 8));
    let whole = service.export().unwrap();
    assert_eq!((whole.width, whole.height), (320, 240));
    assert!(same_pixels(&whole, 0, 0, &source, 0, 0, 320, 240));
}

#[test]
fn the_same_frame_again_is_unchanged() {
    let source = picture(320, 400, 60, 2);
    for hint in [ScrollImageList::Bottom, ScrollImageList::Top] {
        let mut service = session(ScrollDirection::Vertical, 64, true);
        feed(&mut service, rows(&source, 50, 240), ScrollImageList::Bottom);
        let before = service.get_extents();
        let outcome = feed(&mut service, rows(&source, 50, 240), hint);
        assert_eq!(outcome, StitchOutcome::Unchanged { edge: hint });
        assert_eq!(outcome.into_tuple(), (None, true, hint));
        assert_eq!(service.get_extents(), before);
        assert_eq!(service.bottom_image_list().len(), 1);
        assert_eq!(service.top_image_list().len(), 0);
        assert!(service.pending().is_none());
    }
}

#[test]
fn second_frame_shifted_down_by_150() {
    let source = picture(800, 750, 260, 3);
    let mut service = session(ScrollDirection::Vertical, 64, false);
    let first = feed(&mut service, rows(&source, 0, 600), ScrollImageList::Bottom);
    assert!(matches!(first, StitchOutcome::Placed { edge_position: 600, .. }));
    assert_eq!(service.get_extents(), (0, 0));
    let second = feed(&mut service, rows(&source, 150, 600), ScrollImageList::Bottom);
    assert_eq!(
        second,
        StitchOutcome::Placed {
            edge_position: 750,
            grown: Some(ScrollImageList::Bottom),
            edge: ScrollImageList::Bottom,
            reindexed_top: false,
            reindexed_bottom: false,
        }
    );
    assert_eq!(service.get_extents(), (0, 150));
    let size = service.get_size();
    assert_eq!((size.top_image_size, size.bottom_image_size), (0, 750));
    let kept = &service.bottom_image_list()[1];
    assert_eq!(kept.overlay_size, 150);
    assert_eq!((kept.image.width, kept.image.height), (800, 300));
    assert!(same_pixels(&kept.image, 0, 0, &source, 0, 450, 800, 300));
    let whole = service.export().unwrap();
    assert_eq!((whole.width, whole.height), (800, 750));
    assert!(same_pixels(&whole, 0, 0, &source, 0, 0, 800, 750));
}

#[test]
fn a_run_of_frames_covers_the_distance_scrolled() {
    let source = picture(300, 1000, 220, 4);
    let mut service = session(ScrollDirection::Vertical, 150, false);
    let tops = [0u32, 70, 140, 200, 290, 350, 430, 500, 560, 600];
    let mut trailing = 0;
    for (i, top) in tops.iter().enumerate() {
        let outcome = feed(&mut service, rows(&source, *top, 400), ScrollImageList::Bottom);
        match outcome {
            StitchOutcome::Placed { edge_position, grown, .. } => {
                assert_eq!(edge_position, *top as i32 + 400, "frame {}", i);
                assert_eq!(grown, Some(ScrollImageList::Bottom), "frame {}", i);
            }
            other => panic!("frame {} ended as {:?}", i, other),
        }
        let (leading, now) = service.get_extents();
        assert_eq!(leading, 0);
        assert!(now >= trailing);
        assert_eq!(now, *top as i32);
        trailing = now;
    }
    let whole = service.export().unwrap();
    assert_eq!((whole.width, whole.height), (300, 1000));
    assert!(same_pixels(&whole, 0, 0, &source, 0, 0, 300, 1000));
}

#[test]
fn the_index_is_rebuilt_when_the_frame_has_nearly_left_it() {
    let source = picture(300, 1000, 220, 5);
    let mut service = session(ScrollDirection::Vertical, 150, false);
    feed(&mut service, rows(&source, 0, 400), ScrollImageList::Bottom);
    let kept = feed(&mut service, rows(&source, 200, 400), ScrollImageList::Bottom);
    assert!(matches!(kept, StitchOutcome::Placed { reindexed_bottom: false, .. }));
    assert_eq!(service.ann_index(ScrollImageList::Bottom).position, 0);
    let rebuilt = feed(&mut service, rows(&source, 260, 400), ScrollImageList::Bottom);
    assert!(matches!(rebuilt, StitchOutcome::Placed { reindexed_bottom: true, reindexed_top: false, .. }));
    assert_eq!(service.ann_index(ScrollImageList::Bottom).position, 260);
    assert_eq!(service.ann_index(ScrollImageList::Top).position, 0);
    let next = feed(&mut service, rows(&source, 500, 400), ScrollImageList::Bottom);
    assert!(matches!(next, StitchOutcome::Placed { edge_position: 900, reindexed_bottom: false, .. }));
}

#[test]
fn scrolling_back_extends_the_leading_edge() {
    let source = picture(300, 900, 200, 6);
    let mut service = session(ScrollDirection::Vertical, 64, false);
    feed(&mut service, rows(&source, 300, 400), ScrollImageList::Top);
    let outcome = feed(&mut service, rows(&source, 200, 400), ScrollImageList::Top);
    assert_eq!(
        outcome,
        StitchOutcome::Placed {
            edge_position: -100,
            grown: Some(ScrollImageList::Top),
            edge: ScrollImageList::Top,
            reindexed_top: true,
            reindexed_bottom: false,
        }
    );
    assert_eq!(service.get_extents(), (100, 0));
    let kept = &service.top_image_list()[0];
    assert_eq!(kept.overlay_size, -100);
    assert_eq!((kept.image.width, kept.image.height), (300, 200));
    assert!(same_pixels(&kept.image, 0, 0, &source, 0, 200, 300, 200));
    assert_eq!(service.ann_index(ScrollImageList::Top).position, -100);
    let further = feed(&mut service, rows(&source, 0, 400), ScrollImageList::Top);
    assert!(matches!(further, StitchOutcome::Placed { edge_position: -300, grown: Some(ScrollImageList::Top), .. }));
    assert_eq!(service.get_extents(), (300, 0));
    let whole = service.export().unwrap();
    assert_eq!((whole.width, whole.height), (300, 700));
    assert!(same_pixels(&whole, 0, 0, &source, 0, 0, 300, 700));
}

#[test]
fn a_frame_inside_the_content_adds_nothing() {
    let source = picture(300, 900, 200, 7);
    let mut service = session(ScrollDirection::Vertical, 64, true);
    feed(&mut service, rows(&source, 0, 400), ScrollImageList::Bottom);
    feed(&mut service, rows(&source, 200, 400), ScrollImageList::Bottom);
    let parts = service.bottom_image_list().len();
    let extents = service.get_extents();
    let outcome = feed(&mut service, rows(&source, 40, 400), ScrollImageList::Bottom);
    assert_eq!(outcome, StitchOutcome::Unchanged { edge: ScrollImageList::Bottom });
    assert_eq!(service.bottom_image_list().len(), parts);
    assert_eq!(service.get_extents(), extents);
}

#[test]
fn a_search_at_the_other_edge_follows_a_failed_one() {
    let source = picture(300, 1200, 260, 8);
    let mut service = session(ScrollDirection::Vertical, 150, true);
    feed(&mut service, rows(&source, 400, 400), ScrollImageList::Bottom);
    feed(&mut service, rows(&source, 650, 400), ScrollImageList::Bottom);
    assert_eq!(service.ann_index(ScrollImageList::Bottom).position, 250);
    // This frame shares nothing with the trailing index, and its keypoints
    // are matched with the leading index only.
    let frame = rows(&source, 300, 340);
    assert_eq!(
        feed(&mut service, frame, ScrollImageList::Bottom),
        StitchOutcome::InvalidDimensions { edge: ScrollImageList::Bottom }
    );
    let mut step = service.handle_image(rows(&source, 240, 400), ScrollImageList::Bottom);
    assert_eq!(step, StitchStep::Search(ScrollImageList::Bottom));
    let count = service.pending().as_ref().unwrap().corners.len();
    step = service.handle_matches(&vec![None; count]);
    assert_eq!(step, StitchStep::Search(ScrollImageList::Top));
    assert_eq!(service.pending().as_ref().unwrap().searching, ScrollImageList::Top);
    assert_eq!(service.pending().as_ref().unwrap().hinted, ScrollImageList::Bottom);
    let found = {
        let pending = service.pending().as_ref().unwrap();
        nearest(service.ann_index(ScrollImageList::Top), &pending.descriptors)
    };
    step = service.handle_matches(&found);
    assert_eq!(
        step,
        StitchStep::Done(StitchOutcome::Placed {
            edge_position: -160,
            grown: Some(ScrollImageList::Top),
            edge: ScrollImageList::Top,
            reindexed_top: true,
            reindexed_bottom: false,
        })
    );
    assert!(service.pending().is_none());
    assert_eq!(service.get_extents(), (160, 250));
}

#[test]
fn without_rollback_a_failed_search_ends_the_frame() {
    let source = picture(300, 900, 200, 9);
    let mut service = session(ScrollDirection::Vertical, 64, false);
    feed(&mut service, rows(&source, 0, 400), ScrollImageList::Bottom);
    let step = service.handle_image(rows(&source, 100, 400), ScrollImageList::Bottom);
    assert_eq!(step, StitchStep::Search(ScrollImageList::Bottom));
    let count = service.pending().as_ref().unwrap().corners.len();
    let step = service.handle_matches(&vec![None; count]);
    assert_eq!(step, StitchStep::Done(StitchOutcome::NoReliableMatch { edge: ScrollImageList::Bottom }));
    assert_eq!(
        StitchOutcome::NoReliableMatch { edge: ScrollImageList::Bottom }.into_tuple(),
        (None, false, ScrollImageList::Bottom)
    );
    assert!(service.pending().is_none());
    assert_eq!(service.get_extents(), (0, 0));
    assert_eq!(service.bottom_image_list().len(), 1);
}

#[test]
fn a_frame_without_corners_is_skipped() {
    let flat = Raster::new(64, 64, vec![200u8; 64 * 64 * 4]).unwrap();
    let mut service = session(ScrollDirection::Vertical, 64, false);
    let outcome = feed(&mut service, flat.clone(), ScrollImageList::Bottom);
    assert_eq!(outcome, StitchOutcome::NoFeatures { edge: ScrollImageList::Bottom });
    assert_eq!(outcome.into_tuple(), (None, false, ScrollImageList::Bottom));
    assert_eq!(service.bottom_image_list().len(), 0);
    assert!(service.export().is_none());
    assert_eq!(service.get_extents(), (0, 0));
    // The frame has left no trace: a frame of another size can be the first.
    assert_eq!((service.image_width(), service.image_height()), (0, 0));
    let source = picture(320, 400, 60, 10);
    let outcome = feed(&mut service, rows(&source, 0, 240), ScrollImageList::Bottom);
    assert!(matches!(outcome, StitchOutcome::Placed { edge_position: 240, .. }));
    assert_eq!((service.image_width(), service.image_height()), (320, 240));
    // Later frames without corners are skipped as well.
    let flat = Raster::new(320, 240, vec![10u8; 320 * 240 * 4]).unwrap();
    assert_eq!(
        feed(&mut service, flat, ScrollImageList::Top),
        StitchOutcome::NoFeatures { edge: ScrollImageList::Top }
    );
    assert_eq!(service.bottom_image_list().len(), 1);
    assert_eq!(service.get_extents(), (0, 0));
}

#[test]
fn a_frame_of_another_size_is_rejected() {
    let source = picture(320, 400, 60, 11);
    let mut service = session(ScrollDirection::Vertical, 64, false);
    feed(&mut service, rows(&source, 0, 240), ScrollImageList::Bottom);
    let before = service.get_extents();
    let outcome = feed(&mut service, rows(&source, 0, 200), ScrollImageList::Top);
    assert_eq!(outcome, StitchOutcome::InvalidDimensions { edge: ScrollImageList::Top });
    assert_eq!(service.get_extents(), before);
    assert_eq!(service.bottom_image_list().len(), 1);
}

#[test]
fn clear_makes_the_session_ready_for_a_first_frame() {
    let source = picture(320, 500, 80, 12);
    let mut service = session(ScrollDirection::Vertical, 64, false);
    feed(&mut service, rows(&source, 0, 240), ScrollImageList::Bottom);
    feed(&mut service, rows(&source, 100, 240), ScrollImageList::Bottom);
    assert_eq!(service.get_extents(), (0, 100));
    service.clear();
    assert_eq!(service.get_extents(), (0, 0));
    assert!(service.export().is_none());
    assert!(service.ann_index(ScrollImageList::Bottom).corners.is_empty());
    assert!(service.ann_index(ScrollImageList::Top).corners.is_empty());
    let outcome = feed(&mut service, rows(&source, 200, 240), ScrollImageList::Bottom);
    assert!(matches!(outcome, StitchOutcome::Placed { edge_position: 240, grown: Some(ScrollImageList::Bottom), .. }));
    assert_eq!(service.bottom_image_list().len(), 1);
}

#[test]
fn horizontal_sessions_grow_along_columns() {
    let source = picture(900, 200, 200, 13);
    let mut service = session(ScrollDirection::Horizontal, 64, false);
    assert_eq!(service.current_direction(), ScrollDirection::Horizontal);
    feed(&mut service, columns(&source, 300, 400), ScrollImageList::Bottom);
    let right = feed(&mut service, columns(&source, 420, 400), ScrollImageList::Bottom);
    assert!(matches!(right, StitchOutcome::Placed { edge_position: 520, grown: Some(ScrollImageList::Bottom), .. }));
    let kept = &service.bottom_image_list()[1];
    assert_eq!(kept.overlay_size, 80);
    assert_eq!((kept.image.width, kept.image.height), (200, 200));
    assert!(same_pixels(&kept.image, 0, 0, &source, 620, 0, 200, 200));
    let left = feed(&mut service, columns(&source, 150, 400), ScrollImageList::Top);
    assert!(matches!(left, StitchOutcome::Placed { edge_position: -150, grown: Some(ScrollImageList::Top), .. }));
    let kept = &service.top_image_list()[0];
    assert_eq!(kept.overlay_size, -50);
    assert_eq!((kept.image.width, kept.image.height), (200, 200));
    assert!(same_pixels(&kept.image, 0, 0, &source, 150, 0, 200, 200));
    assert_eq!(service.get_extents(), (150, 120));
    let whole = service.export().unwrap();
    assert_eq!((whole.width, whole.height), (670, 200));
    assert!(same_pixels(&whole, 0, 0, &source, 150, 0, 670, 200));
}

#[test]
fn frames_are_analysed_at_the_sampled_size() {
    let source = picture(400, 600, 160, 14);
    let mut service = ScrollScreenshotService::new();
    service.init(ScrollDirection::Vertical, SampleRate { numerator: 1, denominator: 2 }, 0, 1000, 64, 9, 64, false);
    let first = feed(&mut service, rows(&source, 0, 300), ScrollImageList::Bottom);
    assert!(matches!(first, StitchOutcome::Placed { edge_position: 300, .. }));
    let index = service.ann_index(ScrollImageList::Bottom);
    assert!(!index.corners.is_empty());
    assert!(index.corners.iter().all(|c| 0 <= c.x && c.x < 200 && 0 <= c.y && c.y < 300));
    assert!(index.corners.iter().any(|c| c.y >= 200));
    let second = feed(&mut service, rows(&source, 90, 300), ScrollImageList::Bottom);
    assert!(matches!(second, StitchOutcome::Placed { edge_position: 390, grown: Some(ScrollImageList::Bottom), .. }));
    let whole = service.export().unwrap();
    assert_eq!((whole.width, whole.height), (400, 390));
    assert!(same_pixels(&whole, 0, 0, &source, 0, 0, 400, 390));
}

#[test]
fn descriptors_are_taken_from_the_intensities() {
    // White on the left, black on the right, with one bright block that
    // makes corners in the black half.
    let width = 40u32;
    let height = 40u32;
    let mut data = Vec::new();
    for y in 0..height {
        for x in 0..width {
            let white = x < 10 || (20 <= x && x < 30 && 20 <= y && y < 30);
            let value = if white { 255u8 } else { 0u8 };
            data.extend_from_slice(&[value, value, value, 255]);
        }
    }
    let frame = Raster::new(width, height, data).unwrap();
    let mut service = ScrollScreenshotService::new();
    service.init(ScrollDirection::Vertical, SampleRate { numerator: 1, denominator: 1 }, 0, 1000, 64, 9, 64, false);
    let outcome = feed(&mut service, frame, ScrollImageList::Bottom);
    assert!(matches!(outcome, StitchOutcome::Placed { .. }));
    let index = service.ann_index(ScrollImageList::Bottom);
    assert!(!index.corners.is_empty());
    for (corner, descriptor) in index.corners.iter().zip(index.descriptors.iter()) {
        assert!(15 <= corner.x && corner.x < 35 && 15 <= corner.y && corner.y < 35);
        for cell in descriptor.iter() {
            assert_eq!(cell.count, 4);
            assert_eq!(cell.sum % 255, 0);
            assert!(cell.sum <= 4 * 255);
        }
        assert!(descriptor.iter().any(|cell| cell.sum > 0));
    }
}

#[test]
fn the_detector_is_settled_by_the_first_frame() {
    let busy = picture(320, 400, 400, 15);
    let mut service = session(ScrollDirection::Vertical, 64, false);
    feed(&mut service, rows(&busy, 0, 240), ScrollImageList::Bottom);
    let gray = image::GrayImage::from_raw(
        320,
        240,
        rows(&busy, 0, 240).data.chunks(4).map(|p| p[0]).collect::<Vec<u8>>(),
    )
    .unwrap();
    let strict = imageproc::corners::corners_fast12(&gray, 64);
    let loose = imageproc::corners::corners_fast9(&gray, 64);
    let expected = if strict.len() > 200 { strict } else { loose };
    let index = service.ann_index(ScrollImageList::Bottom);
    assert_eq!(index.corners.len(), expected.len());
    for (corner, found) in index.corners.iter().zip(expected.iter()) {
        assert_eq!((corner.x, corner.y), (found.x as i32, found.y as i32));
    }
}

/// A picture in colour: a green ground with blue and red blocks.
fn coloured(width: u32, height: u32, blocks: u32, seed: u64) -> Raster {
    let mut rng = Lcg(seed);
    let mut data = Vec::with_capacity((width * height * 4) as usize);
    for _ in 0..width * height {
        data.extend_from_slice(&[0, 200 + rng.below(40) as u8, 0, 255]);
    }
    for _ in 0..blocks {
        let w = 8 + rng.below(20);
        let h = 8 + rng.below(20);
        let x0 = rng.below(width - w);
        let y0 = rng.below(height - h);
        let colour = if rng.below(2) == 0 { [0, 0, 255, 255] } else { [90, 0, 0, 255] };
        for y in y0..y0 + h {
            for x in x0..x0 + w {
                let at = ((y * width + x) * 4) as usize;
                data[at..at + 4].copy_from_slice(&colour);
            }
        }
    }
    Raster::new(width, height, data).unwrap()
}

#[test]
fn keypoints_are_those_of_the_intensities_at_the_sampled_size() {
    let frame = coloured(400, 300, 120, 16);
    let mut service = ScrollScreenshotService::new();
    service.init(ScrollDirection::Vertical, SampleRate { numerator: 1, denominator: 2 }, 0, 1000, 40, 9, 64, false);
    let outcome = feed(&mut service, frame.clone(), ScrollImageList::Bottom);
    assert!(matches!(outcome, StitchOutcome::Placed { edge_position: 300, .. }));
    // The same steps, made here with the crates themselves.
    let luma = image::DynamicImage::ImageRgba8(image::RgbaImage::from_raw(400, 300, frame.data.clone()).unwrap())
        .to_luma8();
    assert!(luma.as_raw().iter().any(|v| *v != 0 && *v != 255));
    assert_ne!(luma.as_raw(), &frame.data.chunks(4).map(|p| p[0]).collect::<Vec<u8>>());
    let source =
        fast_image_resize::images::ImageRef::new(400, 300, luma.as_raw(), fast_image_resize::PixelType::U8).unwrap();
    let mut target = fast_image_resize::images::Image::new(200, 300, fast_image_resize::PixelType::U8);
    fast_image_resize::Resizer::new()
        .resize(
            &source,
            &mut target,
            &fast_image_resize::ResizeOptions::new().resize_alg(fast_image_resize::ResizeAlg::Nearest),
        )
        .unwrap();
    let small = image::GrayImage::from_raw(200, 300, target.into_vec()).unwrap();
    let strict = imageproc::corners::corners_fast12(&small, 40);
    let expected = if strict.len() > 200 { strict } else { imageproc::corners::corners_fast9(&small, 40) };
    assert!(!expected.is_empty());
    let index = service.ann_index(ScrollImageList::Bottom);
    assert_eq!(index.corners.len(), expected.len());
    for (corner, found) in index.corners.iter().zip(expected.iter()) {
        assert_eq!((corner.x, corner.y), (found.x as i32, found.y as i32));
    }
    let gray = scroll_stitch::raster::GrayFrame::new(200, 300, small.into_raw()).unwrap();
    let descriptors = scroll_stitch::descriptor::get_descriptors(&gray, &index.corners, 9);
    assert_eq!(index.descriptors, descriptors);
    // Analysed at full size the frame has other keypoints.
    let mut full = session(ScrollDirection::Vertical, 64, false);
    feed(&mut full, frame, ScrollImageList::Bottom);
    assert_ne!(full.ann_index(ScrollImageList::Bottom).corners, service.ann_index(ScrollImageList::Bottom).corners);
}

#[test]
fn extents_never_shrink() {
    let source = picture(300, 1200, 260, 17);
    let mut service = session(ScrollDirection::Vertical, 150, true);
    let tops = [400u32, 460, 430, 520, 400, 340, 380, 300, 560, 620, 250];
    let mut last = (0, 0);
    for top in tops {
        let hint = if top >= 400 { ScrollImageList::Bottom } else { ScrollImageList::Top };
        feed(&mut service, rows(&source, top, 400), hint);
        let now = service.get_extents();
        assert!(now.0 >= last.0 && now.1 >= last.1);
        last = now;
    }
    assert!(last.0 > 0 && last.1 > 0);
    let whole = service.export().unwrap();
    assert_eq!(whole.height as i32, 400 + last.0 + last.1);
    assert!(same_pixels(&whole, 0, 0, &source, 0, 400 - last.0 as u32, 300, whole.height));
}

#[test]
fn a_frame_longer_than_a_session_accepts_is_rejected() {
    let mut service = session(ScrollDirection::Vertical, 64, false);
    let long = Raster::new(0x4000_0000, 0, vec![]).unwrap();
    assert_eq!(
        feed(&mut service, long, ScrollImageList::Bottom),
        StitchOutcome::InvalidDimensions { edge: ScrollImageList::Bottom }
    );
    assert_eq!((service.image_width(), service.image_height()), (0, 0));
    let empty = Raster::new(0x3fff_ffff, 0, vec![]).unwrap();
    assert_eq!(
        feed(&mut service, empty, ScrollImageList::Top),
        StitchOutcome::NoFeatures { edge: ScrollImageList::Top }
    );
}

#[test]
fn the_frame_size_is_fixed_once() {
    let mut service = ScrollScreenshotService::new();
    service.init(ScrollDirection::Horizontal, SampleRate { numerator: 1, denominator: 4 }, 100, 150, 64, 9, 64, false);
    assert!(!service.init_image_size(0x4000_0000, 10));
    assert!(!service.init_image_size(10, 0x4000_0000));
    assert_eq!((service.image_width(), service.image_height()), (0, 0));
    assert!(service.init_image_size(800, 600));
    assert_eq!((service.image_width(), service.image_height()), (800, 600));
    // A frame of another size is now turned away.
    let source = picture(320, 400, 60, 18);
    assert_eq!(
        feed(&mut service, rows(&source, 0, 240), ScrollImageList::Bottom),
        StitchOutcome::InvalidDimensions { edge: ScrollImageList::Bottom }
    );
    // With parts in place the size cannot be changed.
    assert!(service.init_image_size(320, 240));
    feed(&mut service, rows(&source, 0, 240), ScrollImageList::Bottom);
    assert_eq!(service.bottom_image_list().len(), 1);
    assert!(!service.init_image_size(800, 600));
    assert_eq!((service.image_width(), service.image_height()), (320, 240));
    // Rows are sampled at a quarter, held to at least 100: 240 / 4 = 60 -> 100.
    let index = service.ann_index(ScrollImageList::Bottom);
    assert!(index.corners.iter().all(|c| c.y < 100 && c.x < 320));
}

#[test]
fn answers_without_a_pending_frame_change_nothing() {
    let source = picture(320, 400, 60, 19);
    let mut service = session(ScrollDirection::Vertical, 64, false);
    assert_eq!(
        service.handle_matches(&vec![]),
        StitchStep::Done(StitchOutcome::NoReliableMatch { edge: ScrollImageList::Bottom })
    );
    feed(&mut service, rows(&source, 0, 240), ScrollImageList::Bottom);
    assert_eq!(
        service.handle_matches(&vec![None; 3]),
        StitchStep::Done(StitchOutcome::NoReliableMatch { edge: ScrollImageList::Bottom })
    );
    assert_eq!(service.bottom_image_list().len(), 1);
    assert_eq!(service.get_extents(), (0, 0));
    // A new frame replaces one that was never resolved.
    assert_eq!(service.handle_image(rows(&source, 10, 240), ScrollImageList::Bottom), StitchStep::Search(ScrollImageList::Bottom));
    assert_eq!(service.handle_image(rows(&source, 60, 240), ScrollImageList::Top), StitchStep::Search(ScrollImageList::Top));
    let pending = service.pending().as_ref().unwrap();
    assert_eq!(pending.hinted, ScrollImageList::Top);
    assert!(same_pixels(&pending.image, 0, 0, &source, 0, 60, 320, 240));
}

#[test]
fn a_negative_rebuild_threshold_leaves_the_trailing_index_empty_at_first() {
    let source = picture(300, 900, 200, 20);
    let mut service = session(ScrollDirection::Vertical, -1, true);
    let first = feed(&mut service, rows(&source, 100, 400), ScrollImageList::Bottom);
    assert_eq!(
        first,
        StitchOutcome::Placed {
            edge_position: 400,
            grown: Some(ScrollImageList::Bottom),
            edge: ScrollImageList::Bottom,
            reindexed_top: true,
            reindexed_bottom: false,
        }
    );
    assert!(service.ann_index(ScrollImageList::Bottom).corners.is_empty());
    assert!(!service.ann_index(ScrollImageList::Top).corners.is_empty());
    // Nothing can be matched at the trailing edge, and the leading index
    // admits no frame that moved on: the frame is given up.
    let second = feed(&mut service, rows(&source, 320, 400), ScrollImageList::Bottom);
    assert_eq!(second, StitchOutcome::NoReliableMatch { edge: ScrollImageList::Bottom });
    assert_eq!(service.get_extents(), (0, 0));
    assert_eq!(service.bottom_image_list().len(), 1);
    // A frame that moved back is placed through the leading index.
    let third = feed(&mut service, rows(&source, 40, 400), ScrollImageList::Bottom);
    assert_eq!(
        third,
        StitchOutcome::Placed {
            edge_position: -60,
            grown: Some(ScrollImageList::Top),
            edge: ScrollImageList::Top,
            reindexed_top: true,
            reindexed_bottom: false,
        }
    );
    assert_eq!(third.into_tuple(), (Some((-60, Some(ScrollImageList::Top))), false, ScrollImageList::Top));
    assert_eq!(service.get_extents(), (60, 0));
}

#[test]
fn frames_with_given_keypoints_are_placed_by_their_shift() {
    let source = picture(800, 750, 10, 21);
    let mut service = session(ScrollDirection::Vertical, 64, false);
    assert!(service.init_image_size(800, 600));
    assert_eq!(service.analysed_size(), (800, 600));
    let cell = |sum: u32| scroll_stitch::descriptor::PatchMean { sum, count: 4 };
    let keypoints: Vec<scroll_stitch::geometry::ScrollOffset> =
        (0..20).map(|i| scroll_stitch::geometry::ScrollOffset::new(40 * i + 7, 200 + 15 * i)).collect();
    let descriptors: Vec<Vec<scroll_stitch::descriptor::PatchMean>> =
        (0..20).map(|i| (0..8).map(|k| cell(40 * i + k)).collect()).collect();
    let first = service.handle_features(rows(&source, 0, 600), keypoints.clone(), descriptors.clone(), ScrollImageList::Top);
    assert_eq!(
        first,
        StitchStep::Done(StitchOutcome::Placed {
            edge_position: 600,
            grown: Some(ScrollImageList::Bottom),
            edge: ScrollImageList::Bottom,
            reindexed_top: true,
            reindexed_bottom: true,
        })
    );
    assert_eq!(service.ann_index(ScrollImageList::Bottom).corners, keypoints);
    assert_eq!(service.ann_index(ScrollImageList::Top).descriptors, descriptors);
    // The same keypoints, seen 150 rows higher in the next frame.
    let moved: Vec<scroll_stitch::geometry::ScrollOffset> =
        keypoints.iter().map(|c| scroll_stitch::geometry::ScrollOffset::new(c.x, c.y - 150)).collect();
    let second = service.handle_features(rows(&source, 150, 600), moved, descriptors.clone(), ScrollImageList::Bottom);
    assert_eq!(second, StitchStep::Search(ScrollImageList::Bottom));
    let found: Vec<Option<NeighborMatch>> =
        (0..20).map(|origin| Some(NeighborMatch { origin, close: true })).collect();
    assert_eq!(
        service.handle_matches(&found),
        StitchStep::Done(StitchOutcome::Placed {
            edge_position: 750,
            grown: Some(ScrollImageList::Bottom),
            edge: ScrollImageList::Bottom,
            reindexed_top: false,
            reindexed_bottom: false,
        })
    );
    assert_eq!(service.get_extents(), (0, 150));
    let whole = service.export().unwrap();
    assert_eq!((whole.width, whole.height), (800, 750));
    assert!(same_pixels(&whole, 0, 0, &source, 0, 0, 800, 750));
    // A frame without keypoints is skipped.
    assert_eq!(
        service.handle_features(rows(&source, 100, 600), vec![], vec![], ScrollImageList::Top),
        StitchStep::Done(StitchOutcome::NoFeatures { edge: ScrollImageList::Top })
    );
    assert_eq!(service.get_extents(), (0, 150));
}
