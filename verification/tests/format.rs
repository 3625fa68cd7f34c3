use wasmimage::format::{detect_image_format, DetectedFormat};

const PNG_SIG: [u8; 8] = [0x89, 0x50, 0x4E, 0x47, 0x0D, 0x0A, 0x1A, 0x0A];

#[test]
fn detects_canonical_png_signature() {
    assert_eq!(detect_image_format(&PNG_SIG), DetectedFormat::Png);
}

#[test]
fn detects_jpeg_prefix() {
    let buf = [0xFF, 0xD8, 0xFF, 0x00, 0x00, 0x00, 0x00, 0x00];
    assert_eq!(detect_image_format(&buf), DetectedFormat::Jpeg);
}

#[test]
fn detects_riff_webp_markers() {
    let buf = [
        0x52, 0x49, 0x46, 0x46, 0x01, 0x02, 0x03, 0x04, 0x57, 0x45, 0x42, 0x50,
    ];
    assert_eq!(detect_image_format(&buf), DetectedFormat::WebP);
}

#[test]
fn short_buffers_are_unknown_regardless_of_content() {
    assert_eq!(detect_image_format(&[]), DetectedFormat::Unknown);
    // Even a JPEG marker prefix is Unknown when the buffer is under 8 bytes.
    assert_eq!(detect_image_format(&[0xFF, 0xD8, 0xFF]), DetectedFormat::Unknown);
    // Seven bytes of the PNG signature are still too short.
    assert_eq!(detect_image_format(&PNG_SIG[..7]), DetectedFormat::Unknown);
}

#[test]
fn riff_without_webp_form_is_unknown() {
    let buf = [
        0x52, 0x49, 0x46, 0x46, 0x01, 0x02, 0x03, 0x04, 0x57, 0x41, 0x56, 0x45,
    ];
    assert_eq!(detect_image_format(&buf), DetectedFormat::Unknown);
}

#[test]
fn unrelated_bytes_are_unknown() {
    let buf = [0x47, 0x49, 0x46, 0x38, 0x39, 0x61, 0x00, 0x00];
    assert_eq!(detect_image_format(&buf), DetectedFormat::Unknown);
}

#[test]
fn format_labels() {
    assert_eq!(DetectedFormat::Png.label(), "PNG");
    assert_eq!(DetectedFormat::Jpeg.label(), "JPEG");
    assert_eq!(DetectedFormat::WebP.label(), "WebP");
    assert_eq!(DetectedFormat::Unknown.label(), "Unknown");
}
