use media_gateway::imagemagick::{
    get_dimensions, halve, init, lower_bitrate, EngineGuard, LoadedImage, SupportedImageFormats,
};

#[test]
fn halving_rounds_up() {
    assert_eq!(halve(0), 0);
    assert_eq!(halve(1), 1);
    assert_eq!(halve(2), 1);
    assert_eq!(halve(7), 4);
    assert_eq!(halve(8), 4);
    assert_eq!(halve(1920), 960);
    assert_eq!(halve(1081), 541);
    assert_eq!(halve(usize::MAX), usize::MAX / 2 + 1);
}

#[test]
fn halving_is_the_ceiling_of_half() {
    for n in 0usize..2000 {
        let half = halve(n);
        assert!(2 * half >= n);
        assert!(2 * half <= n + 1);
        assert_eq!(half, n / 2 + (n % 2 != 0) as usize);
    }
}

#[test]
fn thumbnail_halves_both_sides() {
    assert_eq!(lower_bitrate(&LoadedImage { width: 7, height: 5 }), (4, 3));
    assert_eq!(lower_bitrate(&LoadedImage { width: 640, height: 480 }), (320, 240));
    assert_eq!(lower_bitrate(&LoadedImage { width: 1, height: 1 }), (1, 1));
    assert_eq!(lower_bitrate(&LoadedImage { width: 0, height: 9 }), (0, 5));
}

#[test]
fn dimensions_are_width_then_height() {
    assert_eq!(get_dimensions(&LoadedImage { width: 800, height: 600 }), (800, 600));
    assert_eq!(get_dimensions(&LoadedImage { width: 0, height: 0 }), (0, 0));
}

#[test]
fn engine_is_set_up_by_the_first_claim_only() {
    let mut guard = EngineGuard::new();
    assert!(!guard.started());
    assert!(init(&mut guard));
    assert!(guard.started());
    assert!(!init(&mut guard));
    assert!(guard.started());
}

#[test]
fn many_claims_set_the_engine_up_once() {
    let mut guard = EngineGuard::new();
    let set_ups = (0..50).filter(|_| init(&mut guard)).count();
    assert_eq!(set_ups, 1);
}

#[test]
fn image_formats_have_their_names() {
    let names = [
        (SupportedImageFormats::AVIF, "avif"),
        (SupportedImageFormats::GIF, "gif"),
        (SupportedImageFormats::JP2, "jp2"),
        (SupportedImageFormats::JPEG, "jpg"),
        (SupportedImageFormats::JSON, "json"),
        (SupportedImageFormats::JXR, "jxr"),
        (SupportedImageFormats::PJPG, "pjpg"),
        (SupportedImageFormats::MP4, "mp4"),
        (SupportedImageFormats::PNG, "png"),
        (SupportedImageFormats::PNG8, "png8"),
        (SupportedImageFormats::PNG32, "png32"),
        (SupportedImageFormats::WebM, "webm"),
        (SupportedImageFormats::WebP, "webp"),
        (SupportedImageFormats::BlurHash, "blurhash"),
    ];
    for (format, name) in names {
        assert_eq!(format.name(), name);
        assert_eq!(SupportedImageFormats::from_name(name), Some(format));
    }
}

#[test]
fn unknown_image_format_names_are_refused() {
    for name in ["", "jpeg", "JPG", "png ", "tiff", "png64", "blur"] {
        assert_eq!(SupportedImageFormats::from_name(name), None);
    }
}

#[test]
fn default_image_format_is_jpeg() {
    assert_eq!(SupportedImageFormats::default(), SupportedImageFormats::JPEG);
}

#[test]
fn quality_applies_to_all_image_formats_but_two() {
    assert!(!SupportedImageFormats::JSON.quality_available());
    assert!(!SupportedImageFormats::BlurHash.quality_available());
    for format in [
        SupportedImageFormats::AVIF,
        SupportedImageFormats::GIF,
        SupportedImageFormats::JP2,
        SupportedImageFormats::JPEG,
        SupportedImageFormats::JXR,
        SupportedImageFormats::PJPG,
        SupportedImageFormats::MP4,
        SupportedImageFormats::PNG,
        SupportedImageFormats::PNG8,
        SupportedImageFormats::PNG32,
        SupportedImageFormats::WebM,
        SupportedImageFormats::WebP,
    ] {
        assert!(format.quality_available());
    }
}

#[test]
fn image_formats_have_their_content_types() {
    assert_eq!(SupportedImageFormats::JPEG.content_type(), "image/jpeg");
    assert_eq!(SupportedImageFormats::PJPG.content_type(), "image/jpeg");
    assert_eq!(SupportedImageFormats::PNG.content_type(), "image/png");
    assert_eq!(SupportedImageFormats::PNG8.content_type(), "image/png");
    assert_eq!(SupportedImageFormats::PNG32.content_type(), "image/png");
    assert_eq!(SupportedImageFormats::WebP.content_type(), "image/webp");
    assert_eq!(SupportedImageFormats::AVIF.content_type(), "image/avif");
    assert_eq!(SupportedImageFormats::GIF.content_type(), "image/gif");
    assert_eq!(SupportedImageFormats::JP2.content_type(), "image/jp2");
    assert_eq!(SupportedImageFormats::JXR.content_type(), "image/jxr");
    assert_eq!(SupportedImageFormats::JSON.content_type(), "application/json");
    assert_eq!(SupportedImageFormats::MP4.content_type(), "video/mp4");
    assert_eq!(SupportedImageFormats::WebM.content_type(), "video/webm");
    assert_eq!(SupportedImageFormats::BlurHash.content_type(), "text/plain");
}
