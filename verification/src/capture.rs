//! What the application around a session keeps about the capture provider:
//! the options that captures are taken with and the flags of work under
//! way.

use vstd::prelude::*;

verus! {

/// The pixel layout in which the capture provider hands out rasters.
#[derive(Debug, Clone, Copy, PartialEq, Eq, Structural)]
pub enum ColorFormat {
    Rgba8,
    Rgb8,
}

/// How the capture provider maps the colours of an HDR display.
#[derive(Debug, Clone, Copy, PartialEq, Eq, Structural)]
pub enum CorrectHdrColorAlgorithm {
    /// Colours are handed out as they were captured.
    Off,
    /// Colours are scaled linearly into the standard range.
    Linear,
}

/// The options of one capture.
#[derive(Debug, Clone, Copy, PartialEq, Eq, Structural)]
pub struct CaptureOption {
    pub color_format: ColorFormat,
    pub correct_hdr_color_algorithm: CorrectHdrColorAlgorithm,
    pub correct_color_filter: bool,
}

/// What is known about the dynamic range of a display.
#[derive(Debug, Clone, Copy, PartialEq, Eq, Structural)]
pub struct MonitorHdrInfo {
    pub sdr_white_level: u32,
    pub hdr_enabled: bool,
}

impl Default for MonitorHdrInfo {
    fn default() -> (info: Self)
        ensures
            info.sdr_white_level == 0,
            !info.hdr_enabled,
    {
        Self { sdr_white_level: 0, hdr_enabled: false }
    }
}

/// The file format in which a composed raster is stored.
#[derive(Debug, Clone, Copy, PartialEq, Eq, Structural)]
pub enum ImageEncoder {
    Webp,
    Png,
    Avif,
    Jpeg,
}

/// Whether a capture is under way.
#[derive(Debug, Clone, Copy, PartialEq, Eq, Structural)]
pub struct CaptureState {
    pub capturing: bool,
}

/// Whether the clipboard is being read.
#[derive(Debug, Clone, Copy, PartialEq, Eq, Structural)]
pub struct ReadClipboardState {
    pub reading: bool,
}

impl ReadClipboardState {
    pub fn new(value: bool) -> (state: Self)
        ensures
            state.reading == value,
    {
        Self { reading: value }
    }
}

} // verus!
