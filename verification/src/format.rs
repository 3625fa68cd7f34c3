//! Signature-based classification of encoded image buffers.

use vstd::prelude::*;

verus! {

/// The format of an encoded image buffer, classified from its leading bytes.
#[derive(Clone, Copy, Debug, PartialEq, Eq, Structural)]
pub enum DetectedFormat {
    Png,
    Jpeg,
    WebP,
    Unknown,
}

impl DetectedFormat {
    /// The human-readable label reported for this format.
    pub open spec fn spec_label(self) -> Seq<char> {
        match self {
            DetectedFormat::Png => "PNG"@,
            DetectedFormat::Jpeg => "JPEG"@,
            DetectedFormat::WebP => "WebP"@,
            DetectedFormat::Unknown => "Unknown"@,
        }
    }

    pub fn label(&self) -> (r: &'static str)
        ensures
            r@ == self.spec_label(),
    {
        match self {
            DetectedFormat::Png => "PNG",
            DetectedFormat::Jpeg => "JPEG",
            DetectedFormat::WebP => "WebP",
            DetectedFormat::Unknown => "Unknown",
        }
    }
}

/// The canonical 8-byte PNG signature: 89 50 4E 47 0D 0A 1A 0A.
pub open spec fn is_png_signature(d: Seq<u8>) -> bool {
    d.len() >= 8 && d[0] == 0x89u8 && d[1] == 0x50u8 && d[2] == 0x4eu8 && d[3] == 0x47u8
        && d[4] == 0x0du8 && d[5] == 0x0au8 && d[6] == 0x1au8 && d[7] == 0x0au8
}

/// The JPEG start-of-image marker prefix: FF D8 FF.
pub open spec fn is_jpeg_signature(d: Seq<u8>) -> bool {
    d.len() >= 3 && d[0] == 0xffu8 && d[1] == 0xd8u8 && d[2] == 0xffu8
}

/// A RIFF container whose form type is WEBP: "RIFF" at bytes 0-3 and "WEBP" at bytes 8-11.
pub open spec fn is_webp_signature(d: Seq<u8>) -> bool {
    d.len() >= 12 && d[0] == 0x52u8 && d[1] == 0x49u8 && d[2] == 0x46u8 && d[3] == 0x46u8
        && d[8] == 0x57u8 && d[9] == 0x45u8 && d[10] == 0x42u8 && d[11] == 0x50u8
}

/// Classification of a buffer: buffers shorter than 8 bytes are Unknown, then the
/// PNG, JPEG and WebP signatures are tried in that order (they are mutually
/// exclusive, so the order does not affect the result).
pub open spec fn spec_detect(d: Seq<u8>) -> DetectedFormat {
    if d.len() < 8 {
        DetectedFormat::Unknown
    } else if is_png_signature(d) {
        DetectedFormat::Png
    } else if is_jpeg_signature(d) {
        DetectedFormat::Jpeg
    } else if is_webp_signature(d) {
        DetectedFormat::WebP
    } else {
        DetectedFormat::Unknown
    }
}

/// Classify an encoded image buffer by its byte signature alone.
pub fn detect_image_format(data: &[u8]) -> (r: DetectedFormat)
    ensures
        r == spec_detect(data@),
{
    if data.len() < 8 {
        return DetectedFormat::Unknown;
    }
    if data[0] == 0x89 && data[1] == 0x50 && data[2] == 0x4e && data[3] == 0x47 && data[4]
        == 0x0d && data[5] == 0x0a && data[6] == 0x1a && data[7] == 0x0a {
        return DetectedFormat::Png;
    }
    if data[0] == 0xff && data[1] == 0xd8 && data[2] == 0xff {
        return DetectedFormat::Jpeg;
    }
    if data.len() >= 12 && data[0] == 0x52 && data[1] == 0x49 && data[2] == 0x46 && data[3]
        == 0x46 && data[8] == 0x57 && data[9] == 0x45 && data[10] == 0x42 && data[11] == 0x50 {
        return DetectedFormat::WebP;
    }
    DetectedFormat::Unknown
}

} // verus!
