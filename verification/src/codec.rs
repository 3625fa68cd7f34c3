//! Trusted boundary to the external image-codec library: decoding an encoded
//! buffer into a pixel grid, and encoding a pixel grid as JPEG, PNG or WebP.
//! Every `external_body` item here is believed, not verified; each doc
//! comment names the external routine it relies on and the failure conditions
//! read from that routine's source.

use vstd::prelude::*;

use crate::heuristics::{PngCompression, PngFilter};

verus! {

#[verifier::external_type_specification]
#[verifier::external_body]
pub struct ExDynamicImage(image::DynamicImage);

#[verifier::external_type_specification]
#[verifier::external_body]
pub struct ExImageError(image::ImageError);

#[verifier::external_type_specification]
#[verifier::external_body]
pub struct ExPngCompressionType(image::codecs::png::CompressionType);

#[verifier::external_type_specification]
#[verifier::external_body]
pub struct ExPngFilterType(image::codecs::png::FilterType);

/// The color model of a decoded pixel grid, as this library tracks it: the
/// codec library's eight integer sample layouts, its two floating-point ones,
/// and a catch-all for any model a later codec version might add (none exists
/// in the version relied on).
#[derive(Clone, Copy, Debug, PartialEq, Eq, Structural)]
pub enum ColorModel {
    L8,
    La8,
    Rgb8,
    Rgba8,
    L16,
    La16,
    Rgb16,
    Rgba16,
    Rgb32F,
    Rgba32F,
    Other,
}

/// What the decode routine yields for a byte buffer, as far as this library
/// reads it: `None` when the bytes are not a valid, recognized image, and
/// otherwise the decoded width, height and color model. Decoding is a pure
/// function of the input bytes, so the outcome carries a name.
pub uninterp spec fn spec_decode(input: Seq<u8>) -> Option<(u32, u32, ColorModel)>;

/// The decode routine succeeds on these bytes.
pub open spec fn decode_ok(input: Seq<u8>) -> bool {
    spec_decode(input) is Some
}

/// The width the decode routine reports; meaningful only when `decode_ok`.
pub open spec fn decoded_width(input: Seq<u8>) -> u32 {
    match spec_decode(input) {
        Some(d) => d.0,
        None => 0,
    }
}

/// The height the decode routine reports; meaningful only when `decode_ok`.
pub open spec fn decoded_height(input: Seq<u8>) -> u32 {
    match spec_decode(input) {
        Some(d) => d.1,
        None => 0,
    }
}

/// The color model the decode routine reports; meaningful only when
/// `decode_ok`.
pub open spec fn decoded_color(input: Seq<u8>) -> ColorModel {
    match spec_decode(input) {
        Some(d) => d.2,
        None => ColorModel::Other,
    }
}

/// Dimensions the JPEG encoder accepts: both sides must fit in 1..=65535
/// (the encoder rejects anything else before writing a byte).
pub open spec fn jpeg_encodable(width: u32, height: u32) -> bool {
    1 <= width <= 65535 && 1 <= height <= 65535
}

/// Color models the PNG encoder accepts: the 8- and 16-bit ones; the
/// floating-point models are refused as unsupported.
pub open spec fn png_supported_color(c: ColorModel) -> bool {
    match c {
        ColorModel::L8 => true,
        ColorModel::La8 => true,
        ColorModel::Rgb8 => true,
        ColorModel::Rgba8 => true,
        ColorModel::L16 => true,
        ColorModel::La16 => true,
        ColorModel::Rgb16 => true,
        ColorModel::Rgba16 => true,
        _ => false,
    }
}

/// What the PNG encoder accepts: nonzero dimensions and a supported color
/// model.
pub open spec fn png_encodable(width: u32, height: u32, color: ColorModel) -> bool {
    width >= 1 && height >= 1 && png_supported_color(color)
}

/// Color models the lossless WebP encoder accepts: the 8-bit ones.
pub open spec fn webp_supported_color(c: ColorModel) -> bool {
    match c {
        ColorModel::L8 => true,
        ColorModel::La8 => true,
        ColorModel::Rgb8 => true,
        ColorModel::Rgba8 => true,
        _ => false,
    }
}

/// What the lossless WebP encoder accepts: both sides in 1..=16384 and a
/// supported color model.
pub open spec fn webp_encodable(width: u32, height: u32, color: ColorModel) -> bool {
    1 <= width <= 16384 && 1 <= height <= 16384 && webp_supported_color(color)
}

/// A decoded raster image: the pixel grid itself, held by the external codec
/// library's own type, together with its dimensions and color model read out
/// once as plain values. Built only by `decode_from_memory`, so the stored
/// values are the ones the decoder reported for this very pixel grid.
pub struct DecodedImage {
    image: image::DynamicImage,
    width: u32,
    height: u32,
    color: ColorModel,
}

impl DecodedImage {
    /// Width of the pixel grid, as the decoder reported it.
    pub closed spec fn spec_width(&self) -> u32 {
        self.width
    }

    /// Height of the pixel grid, as the decoder reported it.
    pub closed spec fn spec_height(&self) -> u32 {
        self.height
    }

    /// Color model of the pixel grid, as the decoder reported it.
    pub closed spec fn spec_color(&self) -> ColorModel {
        self.color
    }

    pub fn width(&self) -> (r: u32)
        ensures
            r == self.spec_width(),
    {
        self.width
    }

    pub fn height(&self) -> (r: u32)
        ensures
            r == self.spec_height(),
    {
        self.height
    }

    pub fn color(&self) -> (r: ColorModel)
        ensures
            r == self.spec_color(),
    {
        self.color
    }

    /// Width times height, the coarse size proxy the heuristics adjust by.
    pub fn pixel_count(&self) -> (r: u64)
        ensures
            r == self.spec_width() as u64 * self.spec_height() as u64,
    {
        let w: u64 = self.width as u64;
        let h: u64 = self.height as u64;
        proof {
            assert(w * h <= 0xffff_ffff * 0xffff_ffff) by (nonlinear_arith)
                requires
                    w <= 0xffff_ffff,
                    h <= 0xffff_ffff,
            ;
        }
        w * h
    }
}

/// Relies on `DynamicImage::color`: the pixel grid's color model, read out as
/// this library's own enumeration of the codec's color types (the catch-all
/// arm is unreachable in the codec version relied on, whose enumeration has
/// exactly the ten listed models).
#[verifier::external_body]
fn color_model_of(image: &image::DynamicImage) -> ColorModel {
    match image.color() {
        image::ColorType::L8 => ColorModel::L8,
        image::ColorType::La8 => ColorModel::La8,
        image::ColorType::Rgb8 => ColorModel::Rgb8,
        image::ColorType::Rgba8 => ColorModel::Rgba8,
        image::ColorType::L16 => ColorModel::L16,
        image::ColorType::La16 => ColorModel::La16,
        image::ColorType::Rgb16 => ColorModel::Rgb16,
        image::ColorType::Rgba16 => ColorModel::Rgba16,
        image::ColorType::Rgb32F => ColorModel::Rgb32F,
        image::ColorType::Rgba32F => ColorModel::Rgba32F,
        _ => ColorModel::Other,
    }
}

/// Relies on `image::load_from_memory`, which guesses the format from the
/// buffer's content and decodes it, returning an error for anything it cannot
/// recognize or decode, and on `GenericImageView::dimensions` and
/// `DynamicImage::color`, which report the decoded image's width, height and
/// color model. All three are pure functions of the input bytes, named
/// together by `spec_decode`.
#[verifier::external_body]
pub(crate) fn decode_from_memory(input: &[u8]) -> (r: Result<DecodedImage, image::ImageError>)
    ensures
        r is Ok <==> decode_ok(input@),
        r matches Ok(img) ==> spec_decode(input@) == Some(
            (img.spec_width(), img.spec_height(), img.spec_color()),
        ),
{
    let image = image::load_from_memory(input)?;
    let (width, height) = image::GenericImageView::dimensions(&image);
    let color = color_model_of(&image);
    Ok(DecodedImage { image, width, height, color })
}

/// Relies on `image::codecs::jpeg::JpegEncoder`: converts the pixel grid to
/// 8-bit RGB (dropping any alpha channel) and encodes it as baseline JPEG at
/// the given quality factor, which the encoder itself clamps to 1-100. The
/// encoder fails exactly when a dimension is zero or above 65535: its only
/// error return is the `u16` range check on the dimensions, the RGB buffer's
/// length matches the dimensions by construction, and the in-memory writer
/// cannot fail.
#[verifier::external_body]
pub(crate) fn encode_jpeg(img: &DecodedImage, quality: u8) -> (r: Result<
    Vec<u8>,
    image::ImageError,
>)
    ensures
        r is Ok <==> jpeg_encodable(img.spec_width(), img.spec_height()),
{
    let rgb = img.image.to_rgb8();
    let mut out: Vec<u8> = Vec::new();
    let encoder = image::codecs::jpeg::JpegEncoder::new_with_quality(&mut out, quality);
    image::ImageEncoder::write_image(
        encoder,
        &rgb,
        rgb.width(),
        rgb.height(),
        image::ExtendedColorType::Rgb8,
    )?;
    Ok(out)
}

/// Relies on `image::codecs::png::CompressionType`: the codec library's name
/// for each DEFLATE effort level this library can request.
#[verifier::external_body]
pub(crate) fn png_compression_type(c: PngCompression) -> image::codecs::png::CompressionType {
    match c {
        PngCompression::Fast => image::codecs::png::CompressionType::Fast,
        PngCompression::Default => image::codecs::png::CompressionType::Default,
        PngCompression::Best => image::codecs::png::CompressionType::Best,
    }
}

/// Relies on `image::codecs::png::FilterType`: the codec library's name for
/// each scanline filter strategy this library can request.
#[verifier::external_body]
pub(crate) fn png_filter_type(f: PngFilter) -> image::codecs::png::FilterType {
    match f {
        PngFilter::NoFilter => image::codecs::png::FilterType::NoFilter,
        PngFilter::Adaptive => image::codecs::png::FilterType::Adaptive,
    }
}

/// Relies on `image::codecs::png::PngEncoder`: encodes the pixel grid as PNG
/// in its native color model, with the given compression level and filter
/// strategy. The encoder fails exactly when the color model is not one of the
/// 8- or 16-bit ones or a dimension is zero: those are its only error returns
/// for a non-animated image whose buffer length matches the dimensions (true
/// by construction), and the in-memory writer cannot fail.
#[verifier::external_body]
pub(crate) fn encode_png(
    img: &DecodedImage,
    compression: image::codecs::png::CompressionType,
    filter: image::codecs::png::FilterType,
) -> (r: Result<Vec<u8>, image::ImageError>)
    ensures
        r is Ok <==> png_encodable(img.spec_width(), img.spec_height(), img.spec_color()),
{
    let mut out: Vec<u8> = Vec::new();
    let encoder = image::codecs::png::PngEncoder::new_with_quality(&mut out, compression, filter);
    image::ImageEncoder::write_image(
        encoder,
        img.image.as_bytes(),
        img.width,
        img.height,
        img.image.color().into(),
    )?;
    Ok(out)
}

/// Relies on `image::codecs::webp::WebPEncoder::new_lossless`: encodes the
/// pixel grid as lossless WebP in its native color model; the lossless path
/// takes no quality parameter. The encoder fails exactly when the color model
/// is not one of the 8-bit ones or a dimension is zero or above 16384: those
/// are its only error returns when the buffer length matches the dimensions
/// (true by construction), and the in-memory writer cannot fail.
#[verifier::external_body]
pub(crate) fn encode_webp_lossless(img: &DecodedImage) -> (r: Result<
    Vec<u8>,
    image::ImageError,
>)
    ensures
        r is Ok <==> webp_encodable(img.spec_width(), img.spec_height(), img.spec_color()),
{
    let mut out: Vec<u8> = Vec::new();
    let encoder = image::codecs::webp::WebPEncoder::new_lossless(&mut out);
    image::ImageEncoder::write_image(
        encoder,
        img.image.as_bytes(),
        img.width,
        img.height,
        img.image.color().into(),
    )?;
    Ok(out)
}

} // verus!
