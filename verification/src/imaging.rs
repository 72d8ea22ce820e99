//! The image operations that other crates perform for this library:
//! conversion to greyscale, downsampling and corner detection.

use crate::geometry::ScrollOffset;
use crate::raster::{GrayFrame, Raster};
use vstd::prelude::*;

verus! {

/// The intensities that `image::DynamicImage::to_luma8` gives for an
/// eight-bit RGBA image of the given size and bytes.
pub uninterp spec fn luma_of(width: u32, height: u32, rgba: Seq<u8>) -> Seq<u8>;

/// What `fast_image_resize` gives when it resizes an eight-bit greyscale
/// image of the given size and bytes to `dst_width` by `dst_height` with
/// its nearest-neighbour algorithm.
pub uninterp spec fn nearest_resized(
    width: u32,
    height: u32,
    luma: Seq<u8>,
    dst_width: u32,
    dst_height: u32,
) -> Seq<u8>;

/// The positions `(x, y)` that `imageproc::corners::corners_fast12` reports
/// for a greyscale image of the given size and bytes, in its order.
pub uninterp spec fn fast12_corners(width: u32, height: u32, luma: Seq<u8>, threshold: u8) -> Seq<
    (u32, u32),
>;

/// The positions `(x, y)` that `imageproc::corners::corners_fast9` reports
/// for a greyscale image of the given size and bytes, in its order.
pub uninterp spec fn fast9_corners(width: u32, height: u32, luma: Seq<u8>, threshold: u8) -> Seq<
    (u32, u32),
>;

/// The reported positions as keypoints.
pub open spec fn as_offsets(found: Seq<(u32, u32)>) -> Seq<ScrollOffset> {
    Seq::new(found.len(), |i: int| ScrollOffset { x: found[i].0 as i32, y: found[i].1 as i32 })
}

/// Whether every keypoint is a pixel of a frame of the given size.
pub open spec fn all_inside(corners: Seq<ScrollOffset>, width: int, height: int) -> bool {
    forall|i: int|
        0 <= i < corners.len() ==> 0 <= (#[trigger] corners[i]).x < width && 0 <= corners[i].y
            < height
}

/// Greyscale copy of a colour raster, made by `image::DynamicImage::to_luma8`
/// on the raster as an eight-bit RGBA image.
///
/// Taken from that crate without proof: the copy has the size of the
/// raster, one byte per pixel, and its bytes depend on the raster's size
/// and bytes alone.
#[verifier::external_body]
pub(crate) fn to_luma8(image: &Raster) -> (gray: GrayFrame)
    requires
        image.wf(),
    ensures
        gray.wf(),
        gray.width == image.width,
        gray.height == image.height,
        gray.data@ == luma_of(image.width, image.height, image.data@),
{
    let rgba = image::RgbaImage::from_raw(image.width, image.height, image.data.clone()).unwrap();
    let luma = image::DynamicImage::ImageRgba8(rgba).to_luma8();
    GrayFrame { width: luma.width(), height: luma.height(), data: luma.into_raw() }
}

/// Resized copy of a greyscale frame, made by `fast_image_resize::Resizer::resize`
/// with the nearest-neighbour algorithm.
///
/// Taken from that crate without proof: the copy has the size asked for,
/// one byte per pixel, and its bytes depend on the frame's size and bytes
/// and on the size asked for alone.
#[verifier::external_body]
pub(crate) fn resize_nearest(frame: &GrayFrame, dst_width: u32, dst_height: u32) -> (resized:
    GrayFrame)
    requires
        frame.wf(),
        dst_width * dst_height <= usize::MAX,
    ensures
        resized.wf(),
        resized.width == dst_width,
        resized.height == dst_height,
        resized.data@ == nearest_resized(
            frame.width,
            frame.height,
            frame.data@,
            dst_width,
            dst_height,
        ),
{
    let pixel_type = fast_image_resize::PixelType::U8;
    let src = fast_image_resize::images::ImageRef::new(
        frame.width,
        frame.height,
        &frame.data,
        pixel_type,
    ).unwrap();
    let mut dst = fast_image_resize::images::Image::new(dst_width, dst_height, pixel_type);
    let options = fast_image_resize::ResizeOptions::new().resize_alg(
        fast_image_resize::ResizeAlg::Nearest,
    );
    fast_image_resize::Resizer::new().resize(&src, &mut dst, &options).unwrap();
    GrayFrame { width: dst_width, height: dst_height, data: dst.into_vec() }
}

/// The corners that `imageproc::corners::corners_fast12` finds in a frame.
///
/// Taken from that crate without proof: the positions depend on the
/// frame's size and bytes and on the threshold alone, and each of them is
/// a pixel of the frame (the detector looks only at pixels that have
/// three pixels of the frame on every side).
#[verifier::external_body]
pub(crate) fn corners_fast12(frame: &GrayFrame, threshold: u8) -> (corners: Vec<ScrollOffset>)
    requires
        frame.wf(),
        frame.width <= i32::MAX,
        frame.height <= i32::MAX,
    ensures
        corners@ == as_offsets(fast12_corners(frame.width, frame.height, frame.data@, threshold)),
        all_inside(corners@, frame.width as int, frame.height as int),
{
    let gray = image::GrayImage::from_raw(frame.width, frame.height, frame.data.clone()).unwrap();
    imageproc::corners::corners_fast12(&gray, threshold).iter().map(
        |c| ScrollOffset { x: c.x as i32, y: c.y as i32 },
    ).collect()
}

/// The corners that `imageproc::corners::corners_fast9` finds in a frame.
///
/// Taken from that crate without proof: the positions depend on the
/// frame's size and bytes and on the threshold alone, and each of them is
/// a pixel of the frame (the detector looks only at pixels that have
/// three pixels of the frame on every side).
#[verifier::external_body]
pub(crate) fn corners_fast9(frame: &GrayFrame, threshold: u8) -> (corners: Vec<ScrollOffset>)
    requires
        frame.wf(),
        frame.width <= i32::MAX,
        frame.height <= i32::MAX,
    ensures
        corners@ == as_offsets(fast9_corners(frame.width, frame.height, frame.data@, threshold)),
        all_inside(corners@, frame.width as int, frame.height as int),
{
    let gray = image::GrayImage::from_raw(frame.width, frame.height, frame.data.clone()).unwrap();
    imageproc::corners::corners_fast9(&gray, threshold).iter().map(
        |c| ScrollOffset { x: c.x as i32, y: c.y as i32 },
    ).collect()
}

} // verus!
