//! Per-target heuristics that choose concrete encoder parameters from the
//! source format, the requested quality and the image's pixel count.

use vstd::prelude::*;

use crate::format::DetectedFormat;

verus! {

/// DEFLATE effort level requested of the PNG encoder.
#[derive(Clone, Copy, Debug, PartialEq, Eq, Structural)]
pub enum PngCompression {
    Fast,
    Default,
    Best,
}

/// Per-scanline prediction strategy requested of the PNG encoder.
#[derive(Clone, Copy, Debug, PartialEq, Eq, Structural)]
pub enum PngFilter {
    NoFilter,
    Adaptive,
}

/// `v` forced into the inclusive range `[lo, hi]`.
pub open spec fn clamped(v: int, lo: int, hi: int) -> int {
    if v < lo {
        lo
    } else if v > hi {
        hi
    } else {
        v
    }
}

/// `q` scaled by `num`/10, rounded half-up.
pub open spec fn scaled_by_tenths(q: int, num: int) -> int {
    (q * num + 5) / 10
}

/// Base JPEG quality factor by source format. A JPEG source is penalized
/// (requested quality scaled by 0.6 and capped at 70) because re-quantizing
/// already-lossy data compounds artifacts; other sources keep the requested
/// value inside a source-specific band.
pub open spec fn spec_jpeg_base_quality(source: DetectedFormat, quality: u8) -> int {
    match source {
        DetectedFormat::Jpeg => clamped(scaled_by_tenths(quality as int, 6), 5, 70),
        DetectedFormat::Png => clamped(quality as int, 15, 90),
        _ => clamped(quality as int, 10, 95),
    }
}

/// Quality delta by pixel count for the JPEG target: larger images tolerate
/// more quantization, very small ones get a boost.
pub open spec fn spec_jpeg_size_adjustment(pixel_count: u64) -> int {
    if pixel_count > 2000000 {
        -5
    } else if pixel_count > 1000000 {
        -2
    } else if pixel_count < 100000 {
        5
    } else {
        0
    }
}

/// The JPEG quality factor chosen for a request: base value plus size delta,
/// clamped to [5, 95].
pub open spec fn spec_jpeg_quality(source: DetectedFormat, quality: u8, pixel_count: u64) -> int {
    clamped(spec_jpeg_base_quality(source, quality) + spec_jpeg_size_adjustment(pixel_count), 5, 95)
}

/// Base WebP quality factor by source format; the WebP-to-WebP re-encoding
/// penalty mirrors the JPEG one, slightly less aggressively.
pub open spec fn spec_webp_base_quality(source: DetectedFormat, quality: u8) -> int {
    match source {
        DetectedFormat::WebP => clamped(scaled_by_tenths(quality as int, 7), 10, 80),
        DetectedFormat::Jpeg => clamped(quality as int, 10, 85),
        DetectedFormat::Png => clamped(quality as int, 20, 90),
        _ => clamped(quality as int, 15, 90),
    }
}

/// Quality delta by pixel count for the WebP target.
pub open spec fn spec_webp_size_adjustment(pixel_count: u64) -> int {
    if pixel_count > 2000000 {
        -3
    } else if pixel_count > 1000000 {
        -1
    } else if pixel_count < 100000 {
        3
    } else {
        0
    }
}

/// The WebP quality factor chosen for a request, clamped to [10, 90].
pub open spec fn spec_webp_quality(source: DetectedFormat, quality: u8, pixel_count: u64) -> int {
    clamped(spec_webp_base_quality(source, quality) + spec_webp_size_adjustment(pixel_count), 10, 90)
}

/// The PNG encoder settings chosen for a request: compression is always Best;
/// the filter follows the source format (NoFilter for JPEG-origin pixel data,
/// Adaptive otherwise), except that images over 1,000,000 pixels always get
/// Adaptive.
pub open spec fn spec_png_settings(source: DetectedFormat, pixel_count: u64) -> (PngCompression,
    PngFilter) {
    let source_filter = match source {
        DetectedFormat::Png => PngFilter::Adaptive,
        DetectedFormat::Jpeg => PngFilter::NoFilter,
        _ => PngFilter::Adaptive,
    };
    let filter = if pixel_count > 1000000 {
        PngFilter::Adaptive
    } else {
        source_filter
    };
    (PngCompression::Best, filter)
}

/// `v` forced into `[lo, hi]`.
fn clamp_u32(v: u32, lo: u32, hi: u32) -> (r: u32)
    requires
        lo <= hi,
    ensures
        r == clamped(v as int, lo as int, hi as int),
{
    if v < lo {
        lo
    } else if v > hi {
        hi
    } else {
        v
    }
}

/// Choose the JPEG quality factor for a request. The result always lies in the
/// documented clamped range [5, 95], whatever the inputs.
pub fn calculate_jpeg_quality(source: DetectedFormat, quality: u8, pixel_count: u64) -> (r: u8)
    ensures
        r == spec_jpeg_quality(source, quality, pixel_count),
        5 <= r <= 95,
{
    let base: u32 = match source {
        DetectedFormat::Jpeg => clamp_u32((quality as u32 * 6 + 5) / 10, 5, 70),
        DetectedFormat::Png => clamp_u32(quality as u32, 15, 90),
        _ => clamp_u32(quality as u32, 10, 95),
    };
    let delta: i32 = if pixel_count > 2000000 {
        -5
    } else if pixel_count > 1000000 {
        -2
    } else if pixel_count < 100000 {
        5
    } else {
        0
    };
    let sum: i32 = base as i32 + delta;
    if sum < 5 {
        5
    } else if sum > 95 {
        95
    } else {
        sum as u8
    }
}

/// Choose the WebP quality factor for a request. The result always lies in the
/// documented clamped range [10, 90], whatever the inputs. The lossless WebP
/// encode path does not consume this value; it is computed for parity with the
/// lossy targets and reported to diagnostics only.
pub fn calculate_webp_quality(source: DetectedFormat, quality: u8, pixel_count: u64) -> (r: u8)
    ensures
        r == spec_webp_quality(source, quality, pixel_count),
        10 <= r <= 90,
{
    let base: u32 = match source {
        DetectedFormat::WebP => clamp_u32((quality as u32 * 7 + 5) / 10, 10, 80),
        DetectedFormat::Jpeg => clamp_u32(quality as u32, 10, 85),
        DetectedFormat::Png => clamp_u32(quality as u32, 20, 90),
        _ => clamp_u32(quality as u32, 15, 90),
    };
    let delta: i32 = if pixel_count > 2000000 {
        -3
    } else if pixel_count > 1000000 {
        -1
    } else if pixel_count < 100000 {
        3
    } else {
        0
    };
    let sum: i32 = base as i32 + delta;
    if sum < 10 {
        10
    } else if sum > 90 {
        90
    } else {
        sum as u8
    }
}

/// Choose the PNG encoder settings for a request.
pub fn calculate_png_compression_settings(source: DetectedFormat, pixel_count: u64) -> (r: (
    PngCompression,
    PngFilter,
))
    ensures
        r == spec_png_settings(source, pixel_count),
{
    let source_filter = match source {
        DetectedFormat::Png => PngFilter::Adaptive,
        DetectedFormat::Jpeg => PngFilter::NoFilter,
        _ => PngFilter::Adaptive,
    };
    let filter = if pixel_count > 1000000 {
        PngFilter::Adaptive
    } else {
        source_filter
    };
    (PngCompression::Best, filter)
}

} // verus!
