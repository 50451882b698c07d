//! Plain-value descriptors read from the decode engine, and the resolved
//! consumer-facing record.
//!
//! The engine hands out aggregate stream properties and per-frame decoded
//! properties; the caller copies the fields it reads into `StreamProps` and
//! `FrameProps`, so that every resolution rule works on plain values.
//! Mastering-display chromaticities and luminance are real numbers in the
//! engine; they are carried here as fixed-point integers in ten-thousandths
//! (the record formats them with four decimal digits, so ten-thousandths lose
//! nothing).

use vstd::prelude::*;

verus! {

/// Aggregate, container-declared properties of the whole stream.
#[derive(Clone, Copy, Debug)]
pub struct StreamProps {
    pub fps_num: u32,
    pub fps_den: u32,
    pub num_frames: usize,
    /// Stream-level matrix-coefficients code.
    pub color_space: i32,
    /// Declared sample-aspect-ratio numerator; only strictly positive values count.
    pub sar_num: i32,
    /// Declared sample-aspect-ratio denominator; only strictly positive values count.
    pub sar_den: i32,
    pub crop_top: u32,
    pub crop_bottom: u32,
    pub crop_left: u32,
    pub crop_right: u32,
    pub stereo_3d_type: i32,
    pub stereo_3d_flags: i32,
    /// Nonzero when the stream declares mastering-display primaries.
    pub has_mastering_primaries: i32,
    /// Nonzero when the stream declares mastering-display luminance.
    pub has_mastering_luminance: i32,
    /// Green primary chromaticity x, in ten-thousandths.
    pub green_x: i64,
    /// Green primary chromaticity y, in ten-thousandths.
    pub green_y: i64,
    /// Blue primary chromaticity x, in ten-thousandths.
    pub blue_x: i64,
    /// Blue primary chromaticity y, in ten-thousandths.
    pub blue_y: i64,
    /// Red primary chromaticity x, in ten-thousandths.
    pub red_x: i64,
    /// Red primary chromaticity y, in ten-thousandths.
    pub red_y: i64,
    /// White point chromaticity x, in ten-thousandths.
    pub white_x: i64,
    /// White point chromaticity y, in ten-thousandths.
    pub white_y: i64,
    /// Maximum mastering luminance, in ten-thousandths of a nit.
    pub max_luminance: i64,
    /// Minimum mastering luminance, in ten-thousandths of a nit.
    pub min_luminance: i64,
    /// Nonzero when the stream declares a content-light level.
    pub has_content_light: i32,
    pub content_light_max: u32,
    pub content_light_avg: u32,
}

/// Properties decoded from one representative frame (frame index 0).
#[derive(Clone, Copy, Debug)]
pub struct FrameProps {
    pub encoded_width: u32,
    pub encoded_height: u32,
    /// Row stride of the luma plane, in bytes.
    pub luma_stride: usize,
    pub color_primaries: i32,
    pub transfer_characteristics: i32,
    /// Frame-level matrix-coefficients code.
    pub color_space: i32,
    /// Frame-level color-range code: 1 is limited, 2 is full.
    pub color_range: i32,
    /// Frame-level chroma-location code: 1 is left, 3 is top-left.
    pub chroma_location: i32,
    /// Nonzero when the frame is flagged interlaced.
    pub interlaced_frame: i32,
    /// Nonzero when the top field comes first; meaningful only when interlaced.
    pub top_field_first: i32,
}

/// The resolved, immutable video-metadata record: one per resolution call,
/// a pure value with no resource ownership.
#[derive(Clone, Debug)]
pub struct VidInf {
    pub width: u32,
    pub height: u32,
    pub fps_num: u32,
    pub fps_den: u32,
    pub frames: usize,
    pub color_primaries: Option<i32>,
    pub transfer_characteristics: Option<i32>,
    pub matrix_coefficients: Option<i32>,
    pub is_10bit: bool,
    pub color_range: Option<i32>,
    pub chroma_sample_position: Option<i32>,
    pub sar_num: Option<u32>,
    pub sar_den: Option<u32>,
    pub crop_top: u32,
    pub crop_bottom: u32,
    pub crop_left: u32,
    pub crop_right: u32,
    pub is_interlaced: bool,
    pub top_field_first: Option<bool>,
    pub stereo_3d_type: i32,
    pub stereo_3d_flags: i32,
    pub mastering_display: Option<String>,
    pub content_light: Option<String>,
}

} // verus!
