//! Cutting, pasting and sampling of rasters, and the descriptors of patches.

use scroll_stitch::compose::compose;
use scroll_stitch::descriptor::{compute_descriptor, get_descriptors, PatchMean};
use scroll_stitch::geometry::{CropRegion, ScrollDirection, ScrollImageList, ScrollOffset};
use scroll_stitch::placement::{crop_region, cross_side, sample_size, scroll_side, SampleRate, ScrollImage};
use scroll_stitch::raster::{overlay_image, pixel_count, GrayFrame, Raster};

/// A raster whose pixel `(x, y)` holds `base + 10 * y + x` in every channel.
fn ramp(width: u32, height: u32, base: u8) -> Raster {
    let mut data = Vec::new();
    for y in 0..height {
        for x in 0..width {
            let value = base + (10 * y + x) as u8;
            data.extend_from_slice(&[value, value, value, 255]);
        }
    }
    Raster::new(width, height, data).unwrap()
}

fn reds(raster: &Raster) -> Vec<u8> {
    raster.data.chunks(4).map(|p| p[0]).collect()
}

#[test]
fn a_raster_needs_four_bytes_for_every_pixel() {
    assert!(Raster::new(2, 3, vec![0; 24]).is_some());
    assert!(Raster::new(2, 3, vec![0; 23]).is_none());
    assert!(Raster::new(2, 3, vec![0; 25]).is_none());
    assert!(Raster::new(0, 3, vec![]).is_some());
    assert!(Raster { width: 2, height: 2, data: vec![0; 16] }.is_valid());
    assert!(!Raster { width: 2, height: 2, data: vec![0; 15] }.is_valid());
    assert!(GrayFrame::new(2, 3, vec![0; 6]).is_some());
    assert!(GrayFrame::new(2, 3, vec![0; 7]).is_none());
    assert!(GrayFrame { width: 4, height: 2, data: vec![0; 8] }.is_valid());
    assert!(!GrayFrame { width: 4, height: 2, data: vec![0; 4] }.is_valid());
    assert_eq!(pixel_count(3, 5), 15);
    assert_eq!(pixel_count(u32::MAX, u32::MAX), 18446744065119617025);
}

#[test]
fn a_blank_raster_is_all_zero() {
    let blank = Raster::blank(3, 2).unwrap();
    assert_eq!((blank.width, blank.height), (3, 2));
    assert_eq!(blank.data, vec![0u8; 24]);
    assert!(Raster::blank(0, 7).unwrap().data.is_empty());
}

#[test]
fn a_cut_copies_the_rectangle() {
    let source = ramp(5, 4, 0);
    let cut = source.crop_imm(1, 2, 3, 2);
    assert_eq!((cut.width, cut.height), (3, 2));
    assert_eq!(reds(&cut), vec![21, 22, 23, 31, 32, 33]);
    assert!(cut.data.chunks(4).all(|p| p[3] == 255));
}

#[test]
fn a_cut_is_held_inside_the_raster() {
    let source = ramp(5, 4, 0);
    let cut = source.crop_imm(3, 3, 10, 10);
    assert_eq!((cut.width, cut.height), (2, 1));
    assert_eq!(reds(&cut), vec![33, 34]);
    let nothing = source.crop_imm(9, 0, 2, 2);
    assert_eq!((nothing.width, nothing.height), (0, 2));
    assert!(nothing.data.is_empty());
    let whole = source.crop_imm(0, 0, 5, 4);
    assert_eq!(whole.data, source.data);
}

#[test]
fn a_cut_agrees_with_the_image_crate() {
    let source = ramp(7, 6, 3);
    let theirs = image::DynamicImage::ImageRgba8(
        image::RgbaImage::from_raw(7, 6, source.data.clone()).unwrap(),
    );
    for (x, y, w, h) in [(0, 0, 7, 6), (2, 1, 3, 4), (5, 5, 9, 9), (7, 2, 1, 1), (1, 6, 2, 2)] {
        let mine = source.crop_imm(x, y, w, h);
        let other = theirs.crop_imm(x, y, w, h).to_rgba8();
        assert_eq!((mine.width, mine.height), (other.width(), other.height()));
        assert_eq!(mine.data, other.into_raw());
    }
}

#[test]
fn a_paste_replaces_the_rectangle_only() {
    let mut canvas = ramp(5, 4, 0);
    let patch = ramp(2, 2, 100);
    overlay_image(&mut canvas, &patch, 3, 1);
    assert_eq!(
        reds(&canvas),
        vec![0, 1, 2, 3, 4, 10, 11, 12, 100, 101, 20, 21, 22, 110, 111, 30, 31, 32, 33, 34]
    );
    let empty = Raster::new(0, 3, vec![]).unwrap();
    let before = canvas.data.clone();
    overlay_image(&mut canvas, &empty, 5, 1);
    assert_eq!(canvas.data, before);
}

#[test]
fn grey_frames_answer_inside_only() {
    let frame = GrayFrame::new(3, 2, vec![1, 2, 3, 4, 5, 6]).unwrap();
    assert_eq!(frame.get(0, 0), Some(1));
    assert_eq!(frame.get(2, 1), Some(6));
    assert_eq!(frame.get(1, 1), Some(5));
    assert_eq!(frame.get(3, 0), None);
    assert_eq!(frame.get(0, 2), None);
    assert_eq!(frame.get(-1, 0), None);
    assert_eq!(frame.get(0, -1), None);
}

#[test]
fn a_descriptor_holds_row_sums_then_column_sums() {
    // Pixel (x, y) holds 10 * y + x.
    let frame = GrayFrame::new(10, 10, (0..100).map(|i| i as u8).collect()).unwrap();
    // A patch of side 5 around (4, 4) samples rows and columns 2 and 4.
    let descriptor = compute_descriptor(&frame, &ScrollOffset::new(4, 4), 5);
    assert_eq!(
        descriptor,
        vec![
            PatchMean { sum: 22 + 24, count: 2 },
            PatchMean { sum: 42 + 44, count: 2 },
            PatchMean { sum: 22 + 42, count: 2 },
            PatchMean { sum: 24 + 44, count: 2 },
        ]
    );
    // An even side gives the same samples as the odd side above it.
    assert_eq!(compute_descriptor(&frame, &ScrollOffset::new(4, 4), 4), descriptor);
    assert_eq!(compute_descriptor(&frame, &ScrollOffset::new(4, 4), 9).len(), 8);
    assert_eq!(compute_descriptor(&frame, &ScrollOffset::new(4, 4), 1).len(), 0);
    assert_eq!(compute_descriptor(&frame, &ScrollOffset::new(4, 4), 0).len(), 0);
}

#[test]
fn a_descriptor_leaves_out_what_lies_outside_the_frame() {
    let frame = GrayFrame::new(10, 10, (0..100).map(|i| i as u8).collect()).unwrap();
    // Around (0, 9) a patch of side 5 samples columns -2 and 0, rows 7 and 9.
    let descriptor = compute_descriptor(&frame, &ScrollOffset::new(0, 9), 5);
    assert_eq!(
        descriptor,
        vec![
            PatchMean { sum: 70, count: 1 },
            PatchMean { sum: 90, count: 1 },
            PatchMean { sum: 0, count: 0 },
            PatchMean { sum: 70 + 90, count: 2 },
        ]
    );
    let far = compute_descriptor(&frame, &ScrollOffset::new(-50, 300), 5);
    assert_eq!(far, vec![PatchMean { sum: 0, count: 0 }; 4]);
}

#[test]
fn descriptors_come_in_keypoint_order() {
    let frame = GrayFrame::new(10, 10, (0..100).map(|i| i as u8).collect()).unwrap();
    let corners = vec![ScrollOffset::new(4, 4), ScrollOffset::new(0, 9), ScrollOffset::new(7, 2)];
    let all = get_descriptors(&frame, &corners, 5);
    assert_eq!(all.len(), 3);
    for (corner, descriptor) in corners.iter().zip(all.iter()) {
        assert_eq!(descriptor, &compute_descriptor(&frame, corner, 5));
    }
    assert!(get_descriptors(&frame, &vec![], 5).is_empty());
}

#[test]
fn the_sampled_size_is_the_share_held_between_the_bounds() {
    let half = SampleRate { numerator: 1, denominator: 2 };
    assert_eq!(sample_size(800, half, 0, 1000), 400);
    assert_eq!(sample_size(801, half, 0, 1000), 400);
    assert_eq!(sample_size(800, half, 0, 300), 300);
    assert_eq!(sample_size(800, half, 500, 1000), 500);
    assert_eq!(sample_size(800, half, 500, 300), 500);
    assert_eq!(sample_size(800, half, 900, 1000), 800);
    assert_eq!(sample_size(800, SampleRate { numerator: 3, denominator: 2 }, 0, 2000), 800);
    assert_eq!(sample_size(800, SampleRate { numerator: 0, denominator: 1 }, 0, 1000), 0);
    assert_eq!(sample_size(800, SampleRate { numerator: 0, denominator: 1 }, 64, 1000), 64);
    assert_eq!(sample_size(800, SampleRate { numerator: 1, denominator: 0 }, 0, 1000), 800);
    assert_eq!(sample_size(800, SampleRate { numerator: 1, denominator: 3 }, 0, 1000), 266);
    assert_eq!(sample_size(u32::MAX, SampleRate { numerator: u32::MAX, denominator: 1 }, 0, 7), 7);
    assert_eq!(sample_size(0, half, 5, 10), 0);
}

#[test]
fn the_kept_region_is_the_far_end_or_the_near_end() {
    assert_eq!(crop_region(ScrollDirection::Vertical, 800, 600, 300), CropRegion::new(0, 300, 800, 300));
    assert_eq!(crop_region(ScrollDirection::Vertical, 800, 600, -200), CropRegion::new(0, 0, 800, 200));
    assert_eq!(crop_region(ScrollDirection::Vertical, 800, 600, 600), CropRegion::new(0, 0, 800, 600));
    assert_eq!(crop_region(ScrollDirection::Horizontal, 800, 600, 300), CropRegion::new(500, 0, 300, 600));
    assert_eq!(crop_region(ScrollDirection::Horizontal, 800, 600, -200), CropRegion::new(0, 0, 200, 600));
    assert_eq!(crop_region(ScrollDirection::Horizontal, 800, 600, 0), CropRegion::new(0, 0, 0, 600));
    assert_eq!(scroll_side(ScrollDirection::Vertical, 800, 600), 600);
    assert_eq!(scroll_side(ScrollDirection::Horizontal, 800, 600), 800);
    assert_eq!(cross_side(ScrollDirection::Vertical, 800, 600), 800);
    assert_eq!(cross_side(ScrollDirection::Horizontal, 800, 600), 600);
    assert_eq!(ScrollImageList::Top.opposite(), ScrollImageList::Bottom);
    assert_eq!(ScrollImageList::Bottom.opposite(), ScrollImageList::Top);
}

#[test]
fn parts_are_pasted_trailing_first_and_leading_last() {
    // Frames are 2 by 4. The first frame is kept whole, a second one adds
    // one row with an allowance of one, and one part leads by one row.
    let first = ScrollImage { image: ramp(2, 4, 0), overlay_size: 0 };
    let second = ScrollImage { image: ramp(2, 2, 100), overlay_size: 1 };
    let lead = ScrollImage { image: ramp(2, 2, 200), overlay_size: -1 };
    let whole = compose(&vec![lead], &vec![first, second], ScrollDirection::Vertical, 2, 4, 1, 5).unwrap();
    assert_eq!((whole.width, whole.height), (2, 6));
    assert_eq!(
        reds(&whole),
        vec![200, 201, 210, 211, 10, 11, 20, 21, 100, 101, 110, 111]
    );
    // The same parts of 4 by 2 frames side by side.
    let first = ScrollImage { image: ramp(4, 2, 0), overlay_size: 0 };
    let second = ScrollImage { image: ramp(2, 2, 100), overlay_size: 1 };
    let lead = ScrollImage { image: ramp(2, 2, 200), overlay_size: -1 };
    let whole = compose(&vec![lead], &vec![first, second], ScrollDirection::Horizontal, 4, 2, 1, 5).unwrap();
    assert_eq!((whole.width, whole.height), (6, 2));
    assert_eq!(
        reds(&whole),
        vec![200, 201, 1, 2, 100, 101, 210, 211, 11, 12, 110, 111]
    );
}
