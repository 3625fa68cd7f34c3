use wasmimage::format::DetectedFormat;
use wasmimage::heuristics::{
    calculate_jpeg_quality, calculate_png_compression_settings, calculate_webp_quality,
    PngCompression, PngFilter,
};

const SOURCES: [DetectedFormat; 4] = [
    DetectedFormat::Png,
    DetectedFormat::Jpeg,
    DetectedFormat::WebP,
    DetectedFormat::Unknown,
];

#[test]
fn jpeg_quality_always_in_clamped_range() {
    for source in SOURCES {
        for quality in 1..=100u8 {
            for pixel_count in [0u64, 50_000, 100_000, 500_000, 1_000_001, 2_000_001] {
                let q = calculate_jpeg_quality(source, quality, pixel_count);
                assert!((5..=95).contains(&q));
            }
        }
    }
}

#[test]
fn webp_quality_always_in_clamped_range() {
    for source in SOURCES {
        for quality in 1..=100u8 {
            for pixel_count in [0u64, 50_000, 100_000, 500_000, 1_000_001, 2_000_001] {
                let q = calculate_webp_quality(source, quality, pixel_count);
                assert!((10..=90).contains(&q));
            }
        }
    }
}

#[test]
fn jpeg_reencode_at_full_quality_is_sixty() {
    // clamp(round(100 * 0.6), 5, 70) + 0 = 60 at a mid-band pixel count.
    assert_eq!(calculate_jpeg_quality(DetectedFormat::Jpeg, 100, 500_000), 60);
}

#[test]
fn jpeg_quality_from_png_source_keeps_requested_band() {
    assert_eq!(calculate_jpeg_quality(DetectedFormat::Png, 50, 500_000), 50);
    // The requested value is lifted to the band's floor.
    assert_eq!(calculate_jpeg_quality(DetectedFormat::Png, 5, 500_000), 15);
    // And capped at the band's ceiling.
    assert_eq!(calculate_jpeg_quality(DetectedFormat::Png, 100, 500_000), 90);
}

#[test]
fn jpeg_quality_size_adjustments() {
    // Unknown source: base = clamp(80, 10, 95) = 80.
    assert_eq!(calculate_jpeg_quality(DetectedFormat::Unknown, 80, 2_000_001), 75);
    assert_eq!(calculate_jpeg_quality(DetectedFormat::Unknown, 80, 2_000_000), 78);
    assert_eq!(calculate_jpeg_quality(DetectedFormat::Unknown, 80, 1_000_000), 80);
    assert_eq!(calculate_jpeg_quality(DetectedFormat::Unknown, 80, 99_999), 85);
    assert_eq!(calculate_jpeg_quality(DetectedFormat::Unknown, 80, 100_000), 80);
}

#[test]
fn jpeg_quality_rounds_scaled_value_half_up() {
    // 99 * 0.6 = 59.4 rounds to 59; 51 * 0.6 = 30.6 rounds to 31.
    assert_eq!(calculate_jpeg_quality(DetectedFormat::Jpeg, 99, 500_000), 59);
    assert_eq!(calculate_jpeg_quality(DetectedFormat::Jpeg, 51, 500_000), 31);
}

#[test]
fn webp_reencode_penalty_and_bands() {
    // WebP source: clamp(round(100 * 0.7), 10, 80) = 70.
    assert_eq!(calculate_webp_quality(DetectedFormat::WebP, 100, 500_000), 70);
    assert_eq!(calculate_webp_quality(DetectedFormat::Jpeg, 100, 500_000), 85);
    assert_eq!(calculate_webp_quality(DetectedFormat::Png, 10, 500_000), 20);
    assert_eq!(calculate_webp_quality(DetectedFormat::Unknown, 100, 500_000), 90);
}

#[test]
fn webp_quality_size_adjustments() {
    // PNG source: base = clamp(50, 20, 90) = 50.
    assert_eq!(calculate_webp_quality(DetectedFormat::Png, 50, 2_000_001), 47);
    assert_eq!(calculate_webp_quality(DetectedFormat::Png, 50, 1_500_000), 49);
    assert_eq!(calculate_webp_quality(DetectedFormat::Png, 50, 50_000), 53);
    assert_eq!(calculate_webp_quality(DetectedFormat::Png, 50, 500_000), 50);
}

#[test]
fn png_settings_for_png_source_large_image() {
    assert_eq!(
        calculate_png_compression_settings(DetectedFormat::Png, 1_500_000),
        (PngCompression::Best, PngFilter::Adaptive)
    );
}

#[test]
fn png_settings_large_image_overrides_jpeg_source_filter() {
    assert_eq!(
        calculate_png_compression_settings(DetectedFormat::Jpeg, 1_500_000),
        (PngCompression::Best, PngFilter::Adaptive)
    );
}

#[test]
fn png_settings_jpeg_source_small_image_skips_filtering() {
    assert_eq!(
        calculate_png_compression_settings(DetectedFormat::Jpeg, 500_000),
        (PngCompression::Best, PngFilter::NoFilter)
    );
    assert_eq!(
        calculate_png_compression_settings(DetectedFormat::Jpeg, 1_000_000),
        (PngCompression::Best, PngFilter::NoFilter)
    );
}

#[test]
fn png_settings_other_sources_use_adaptive() {
    assert_eq!(
        calculate_png_compression_settings(DetectedFormat::Unknown, 500_000),
        (PngCompression::Best, PngFilter::Adaptive)
    );
    assert_eq!(
        calculate_png_compression_settings(DetectedFormat::WebP, 500_000),
        (PngCompression::Best, PngFilter::Adaptive)
    );
}
