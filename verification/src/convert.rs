//! The conversion dispatcher: ties the format detector, the quality
//! heuristics and the external codec together, and the introspection entry
//! path beside it.

use vstd::prelude::*;
use vstd::string::StrSliceExecFns;

use crate::codec::{
    decode_from_memory, decode_ok, decoded_color, decoded_height, decoded_width, encode_jpeg,
    encode_png, encode_webp_lossless, jpeg_encodable, png_compression_type, png_encodable,
    png_filter_type, webp_encodable, DecodedImage,
};
use crate::format::{detect_image_format, spec_detect, DetectedFormat};
use crate::heuristics::{
    calculate_jpeg_quality, calculate_png_compression_settings, calculate_webp_quality,
};

verus! {

/// A conversion failure. Each call either fully succeeds or produces no
/// output bytes at all; no error is retried or recovered internally.
#[derive(Clone, Copy, Debug, PartialEq, Eq, Structural)]
pub enum ConvertError {
    /// The input bytes are not a valid or recognized image.
    DecodeError,
    /// The target codec rejected the decoded pixel data.
    EncodeError,
    /// The requested target format label is not one of the recognized labels.
    UnsupportedFormatError,
}

impl ConvertError {
    /// The descriptive message surfaced to the caller for this failure.
    pub open spec fn spec_message(self) -> Seq<char> {
        match self {
            ConvertError::DecodeError => "Failed to decode image"@,
            ConvertError::EncodeError => "Failed to encode image"@,
            ConvertError::UnsupportedFormatError => "Unsupported format. Use 'jpeg' or 'png'."@,
        }
    }

    pub fn message(&self) -> (r: &'static str)
        ensures
            r@ == self.spec_message(),
    {
        match self {
            ConvertError::DecodeError => "Failed to decode image",
            ConvertError::EncodeError => "Failed to encode image",
            ConvertError::UnsupportedFormatError => "Unsupported format. Use 'jpeg' or 'png'.",
        }
    }
}

/// A recognized target format label for `compress_image`. Conversion to WebP
/// has its own entry path, `convert_to_webp`.
#[derive(Clone, Copy, Debug, PartialEq, Eq, Structural)]
pub enum TargetFormat {
    Jpeg,
    Png,
}

/// `a` equals `lo` up to ASCII case: either exactly, or `lo` is an ASCII
/// lowercase letter and `a` is its uppercase form.
pub open spec fn char_eq_ascii_ci(a: char, lo: char) -> bool {
    a == lo || (97 <= lo as int <= 122 && a as int == lo as int - 32)
}

/// `s` equals `lo` character by character, up to ASCII case.
pub open spec fn seq_eq_ascii_ci(s: Seq<char>, lo: Seq<char>) -> bool {
    s.len() == lo.len() && forall|j: int| 0 <= j < s.len() ==> char_eq_ascii_ci(s[j], lo[j])
}

/// Classification of a target format label: "jpeg" and "jpg" name the JPEG
/// target, "png" the PNG target, all compared without regard to ASCII case;
/// every other label is unrecognized.
pub open spec fn spec_parse_target(s: Seq<char>) -> Option<TargetFormat> {
    if seq_eq_ascii_ci(s, "jpeg"@) || seq_eq_ascii_ci(s, "jpg"@) {
        Some(TargetFormat::Jpeg)
    } else if seq_eq_ascii_ci(s, "png"@) {
        Some(TargetFormat::Png)
    } else {
        None
    }
}

fn char_matches_ci(a: char, lo: char) -> (r: bool)
    ensures
        r == char_eq_ascii_ci(a, lo),
{
    if a == lo {
        return true;
    }
    let au: u32 = a as u32;
    let lu: u32 = lo as u32;
    97 <= lu && lu <= 122 && lu - 32 == au
}

fn str_eq_ignore_ascii_case(s: &str, lo: &str) -> (r: bool)
    ensures
        r == seq_eq_ascii_ci(s@, lo@),
{
    let n = s.unicode_len();
    if n != lo.unicode_len() {
        return false;
    }
    let mut i: usize = 0;
    while i < n
        invariant
            n == s@.len(),
            n == lo@.len(),
            i <= n,
            forall|j: int| 0 <= j < i ==> char_eq_ascii_ci(s@[j], lo@[j]),
        decreases n - i,
    {
        if !char_matches_ci(s.get_char(i), lo.get_char(i)) {
            return false;
        }
        i += 1;
    }
    true
}

/// Map a free-form target format label to the closed enumeration, or `None`
/// for an unrecognized label.
pub fn parse_target_format(format: &str) -> (r: Option<TargetFormat>)
    ensures
        r == spec_parse_target(format@),
{
    if str_eq_ignore_ascii_case(format, "jpeg") || str_eq_ignore_ascii_case(format, "jpg") {
        Some(TargetFormat::Jpeg)
    } else if str_eq_ignore_ascii_case(format, "png") {
        Some(TargetFormat::Png)
    } else {
        None
    }
}

/// Decode an encoded image buffer; any decoder failure is surfaced as a
/// `DecodeError`.
pub fn decode_image(input: &[u8]) -> (r: Result<DecodedImage, ConvertError>)
    ensures
        r is Ok <==> decode_ok(input@),
        r matches Ok(img) ==> img.spec_width() == decoded_width(input@) && img.spec_height()
            == decoded_height(input@) && img.spec_color() == decoded_color(input@),
        r matches Err(e) ==> e == ConvertError::DecodeError,
{
    match decode_from_memory(input) {
        Ok(img) => Ok(img),
        Err(_) => Err(ConvertError::DecodeError),
    }
}

/// Encode an already-decoded image as JPEG. The quality factor is chosen by
/// the JPEG heuristic from the source format, the requested quality and the
/// pixel count; the pixel data is reduced to 8-bit RGB, deliberately dropping
/// any alpha channel.
pub fn compress_to_jpeg_advanced(img: &DecodedImage, source: DetectedFormat, quality: u8) -> (r:
    Result<Vec<u8>, ConvertError>)
    ensures
        r is Ok <==> jpeg_encodable(img.spec_width(), img.spec_height()),
        r matches Err(e) ==> e == ConvertError::EncodeError,
{
    let adjusted_quality = calculate_jpeg_quality(source, quality, img.pixel_count());
    match encode_jpeg(img, adjusted_quality) {
        Ok(bytes) => Ok(bytes),
        Err(_) => Err(ConvertError::EncodeError),
    }
}

/// Encode an already-decoded image as PNG in its native color model, with the
/// compression level and filter strategy chosen by the PNG heuristic.
pub fn compress_to_png_advanced(img: &DecodedImage, source: DetectedFormat) -> (r: Result<
    Vec<u8>,
    ConvertError,
>)
    ensures
        r is Ok <==> png_encodable(img.spec_width(), img.spec_height(), img.spec_color()),
        r matches Err(e) ==> e == ConvertError::EncodeError,
{
    let settings = calculate_png_compression_settings(source, img.pixel_count());
    let compression = png_compression_type(settings.0);
    let filter = png_filter_type(settings.1);
    match encode_png(img, compression, filter) {
        Ok(bytes) => Ok(bytes),
        Err(_) => Err(ConvertError::EncodeError),
    }
}

/// Encode an already-decoded image as lossless WebP in its native color
/// model. The WebP quality heuristic is still evaluated for parity with the
/// lossy targets, but the lossless encode path has no quality parameter and
/// does not consume its value.
pub fn compress_to_webp_advanced(img: &DecodedImage, source: DetectedFormat, quality: u8) -> (r:
    Result<Vec<u8>, ConvertError>)
    ensures
        r is Ok <==> webp_encodable(img.spec_width(), img.spec_height(), img.spec_color()),
        r matches Err(e) ==> e == ConvertError::EncodeError,
{
    let _adjusted_quality = calculate_webp_quality(source, quality, img.pixel_count());
    match encode_webp_lossless(img) {
        Ok(bytes) => Ok(bytes),
        Err(_) => Err(ConvertError::EncodeError),
    }
}

/// Convert an encoded image buffer to the requested target format.
///
/// The buffer is decoded first, so undecodable bytes yield a `DecodeError`
/// even when the target label is also unrecognized; a recognized label then
/// dispatches to the matching per-target path, and an unrecognized one yields
/// an `UnsupportedFormatError`.
pub fn compress_image(input: &[u8], format: &str, quality: u8) -> (r: Result<Vec<u8>, ConvertError>)
    ensures
        !decode_ok(input@) <==> r matches Err(ConvertError::DecodeError),
        (decode_ok(input@) && spec_parse_target(format@) is None) <==> r matches Err(
            ConvertError::UnsupportedFormatError,
        ),
        (decode_ok(input@) && spec_parse_target(format@) == Some(TargetFormat::Jpeg)) ==> (
        r is Ok <==> jpeg_encodable(decoded_width(input@), decoded_height(input@))),
        (decode_ok(input@) && spec_parse_target(format@) == Some(TargetFormat::Png)) ==> (
        r is Ok <==> png_encodable(
            decoded_width(input@),
            decoded_height(input@),
            decoded_color(input@),
        )),
        r is Ok ==> spec_parse_target(format@) is Some,
{
    let img = match decode_image(input) {
        Ok(img) => img,
        Err(e) => {
            return Err(e);
        },
    };
    let source = detect_image_format(input);
    match parse_target_format(format) {
        Some(TargetFormat::Jpeg) => compress_to_jpeg_advanced(&img, source, quality),
        Some(TargetFormat::Png) => compress_to_png_advanced(&img, source),
        None => Err(ConvertError::UnsupportedFormatError),
    }
}

/// Convert an encoded image buffer to WebP.
pub fn convert_to_webp(input: &[u8], quality: u8) -> (r: Result<Vec<u8>, ConvertError>)
    ensures
        !decode_ok(input@) <==> r matches Err(ConvertError::DecodeError),
        decode_ok(input@) ==> (r is Ok <==> webp_encodable(
            decoded_width(input@),
            decoded_height(input@),
            decoded_color(input@),
        )),
        r matches Err(e) ==> e == ConvertError::DecodeError || e == ConvertError::EncodeError,
{
    let img = match decode_image(input) {
        Ok(img) => img,
        Err(e) => {
            return Err(e);
        },
    };
    let source = detect_image_format(input);
    compress_to_webp_advanced(&img, source, quality)
}

/// The introspection result for an image buffer. The aspect ratio, a real
/// number, is left to the caller as the division `width / height`.
#[derive(Clone, Copy, Debug, PartialEq, Eq, Structural)]
pub struct ImageMetadata {
    /// Decoded width in pixels.
    pub width: u32,
    /// Decoded height in pixels.
    pub height: u32,
    /// Signature-based classification of the buffer.
    pub format: DetectedFormat,
    /// Length of the encoded input buffer in bytes.
    pub size: usize,
}

/// Gather the metadata of a decoded image and of the buffer it came from.
pub fn image_info_of(img: &DecodedImage, input: &[u8]) -> (m: ImageMetadata)
    ensures
        m.width == img.spec_width(),
        m.height == img.spec_height(),
        m.format == spec_detect(input@),
        m.size == input@.len(),
{
    ImageMetadata {
        width: img.width(),
        height: img.height(),
        format: detect_image_format(input),
        size: input.len(),
    }
}

/// Report the decoded dimensions, detected format and byte size of an encoded
/// image buffer.
pub fn get_image_info(input: &[u8]) -> (r: Result<ImageMetadata, ConvertError>)
    ensures
        r is Ok <==> decode_ok(input@),
        r matches Err(e) ==> e == ConvertError::DecodeError,
        r matches Ok(m) ==> m.width == decoded_width(input@) && m.height == decoded_height(input@)
            && m.format == spec_detect(input@) && m.size == input@.len(),
{
    let img = match decode_image(input) {
        Ok(img) => img,
        Err(e) => {
            return Err(e);
        },
    };
    Ok(image_info_of(&img, input))
}

} // verus!
