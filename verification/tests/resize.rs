use imgfit::resize_image;
use imgfit::sniff::{sniff_format, ImageKind};
use imgfit::ResizeError;

/// An encoded PNG of the given dimensions with a smooth color gradient.
fn png_bytes(w: u32, h: u32) -> Vec<u8> {
    let img = image::DynamicImage::ImageRgb8(image::RgbImage::from_fn(w, h, |x, y| {
        image::Rgb([(x % 251) as u8, (y % 241) as u8, ((x + y) % 239) as u8])
    }));
    let mut data = Vec::new();
    img.write_to(
        &mut std::io::Cursor::new(&mut data),
        image::ImageOutputFormat::Png,
    )
    .unwrap();
    data
}

#[test]
fn scales_800x600_to_fit_100x100() {
    let data = png_bytes(800, 600);
    let out = resize_image(&data, 100, 100, 80).unwrap();
    let decoded = image::load_from_memory(&out).unwrap();
    assert_eq!(decoded.width(), 100);
    assert_eq!(decoded.height(), 75);
}

#[test]
fn scales_portrait_to_fit() {
    let data = png_bytes(600, 800);
    let out = resize_image(&data, 100, 100, 80).unwrap();
    let decoded = image::load_from_memory(&out).unwrap();
    assert_eq!(decoded.width(), 75);
    assert_eq!(decoded.height(), 100);
}

#[test]
fn tighter_height_bound_binds() {
    let data = png_bytes(800, 600);
    let out = resize_image(&data, 1000, 75, 80).unwrap();
    let decoded = image::load_from_memory(&out).unwrap();
    assert_eq!(decoded.width(), 100);
    assert_eq!(decoded.height(), 75);
}

#[test]
fn upscales_to_fill_bounds() {
    let data = png_bytes(10, 10);
    let out = resize_image(&data, 100, 100, 80).unwrap();
    let decoded = image::load_from_memory(&out).unwrap();
    assert_eq!(decoded.width(), 100);
    assert_eq!(decoded.height(), 100);
}

#[test]
fn output_is_jpeg() {
    let data = png_bytes(64, 48);
    let out = resize_image(&data, 32, 32, 80).unwrap();
    assert_eq!(sniff_format(&out), Some(ImageKind::Jpeg));
    assert!(image::guess_format(&out).unwrap() == image::ImageFormat::Jpeg);
}

#[test]
fn jpeg_input_accepted() {
    let data = png_bytes(64, 48);
    let jpeg = resize_image(&data, 64, 48, 90).unwrap();
    let out = resize_image(&jpeg, 32, 32, 80).unwrap();
    let decoded = image::load_from_memory(&out).unwrap();
    assert_eq!(decoded.width(), 32);
    assert_eq!(decoded.height(), 24);
}

#[test]
fn random_bytes_rejected() {
    let data: Vec<u8> = vec![9, 17, 33, 65, 129, 3, 5, 7, 11, 13];
    let err = resize_image(&data, 100, 100, 80).unwrap_err();
    assert!(matches!(err, ResizeError::FormatDetection));
    assert_eq!(err.message(), "Failed to detect image format");
}

#[test]
fn empty_input_rejected() {
    let data: Vec<u8> = Vec::new();
    let err = resize_image(&data, 100, 100, 80).unwrap_err();
    assert!(matches!(err, ResizeError::FormatDetection));
}

#[test]
fn corrupt_png_is_decode_error() {
    let mut data: Vec<u8> = vec![0x89, 0x50, 0x4e, 0x47, 0x0d, 0x0a, 0x1a, 0x0a];
    data.extend_from_slice(&[1, 2, 3, 4, 5, 6, 7, 8]);
    let err = resize_image(&data, 100, 100, 80).unwrap_err();
    assert!(matches!(err, ResizeError::Decode(_)));
    assert!(err.message().starts_with("Failed to decode image: "));
}

#[test]
fn truncated_png_is_decode_error() {
    let mut data = png_bytes(32, 32);
    data.truncate(20);
    let err = resize_image(&data, 16, 16, 80).unwrap_err();
    assert!(matches!(err, ResizeError::Decode(_)));
}

#[test]
fn oversized_raster_is_encode_error() {
    // JPEG cannot encode a dimension above 65535; a 70000-pixel-wide raster
    // that already fits its bounds reaches the encoder unshrunk.
    let data = png_bytes(70000, 1);
    let err = resize_image(&data, 70000, 1, 80).unwrap_err();
    assert!(matches!(err, ResizeError::Encode(_)));
    assert!(err.message().starts_with("Failed to encode image: "));
}

#[test]
fn zero_width_degenerates_to_one_pixel() {
    let data = png_bytes(800, 600);
    let out = resize_image(&data, 0, 100, 80).unwrap();
    let decoded = image::load_from_memory(&out).unwrap();
    assert_eq!(decoded.width(), 1);
    assert_eq!(decoded.height(), 1);
}

#[test]
fn zero_height_degenerates_to_one_pixel() {
    let data = png_bytes(800, 600);
    let out = resize_image(&data, 100, 0, 80).unwrap();
    let decoded = image::load_from_memory(&out).unwrap();
    assert_eq!(decoded.width(), 1);
    assert_eq!(decoded.height(), 1);
}

#[test]
fn repeat_invocation_is_pixel_identical() {
    let data = png_bytes(320, 200);
    let out1 = resize_image(&data, 100, 100, 70).unwrap();
    let out2 = resize_image(&data, 100, 100, 70).unwrap();
    let px1 = image::load_from_memory(&out1).unwrap().to_rgb8().into_raw();
    let px2 = image::load_from_memory(&out2).unwrap().to_rgb8().into_raw();
    assert_eq!(px1, px2);
}

#[test]
fn quality_extremes_accepted() {
    let data = png_bytes(64, 64);
    assert!(resize_image(&data, 32, 32, 0).is_ok());
    assert!(resize_image(&data, 32, 32, 100).is_ok());
}

#[test]
fn higher_quality_is_closer_to_source() {
    // The quality knob trades fidelity for size: against the same source,
    // quality 95 must not be further from it than quality 5.
    let data = png_bytes(96, 96);
    let src = image::load_from_memory(&data).unwrap().to_rgb8();
    let lo = image::load_from_memory(&resize_image(&data, 96, 96, 5).unwrap())
        .unwrap()
        .to_rgb8();
    let hi = image::load_from_memory(&resize_image(&data, 96, 96, 95).unwrap())
        .unwrap()
        .to_rgb8();
    let dist = |a: &image::RgbImage, b: &image::RgbImage| -> u64 {
        a.as_raw()
            .iter()
            .zip(b.as_raw().iter())
            .map(|(x, y)| {
                let d = if x > y { x - y } else { y - x };
                d as u64 * d as u64
            })
            .sum()
    };
    assert!(dist(&hi, &src) <= dist(&lo, &src));
}

#[test]
fn sniff_known_signatures() {
    assert_eq!(
        sniff_format(&[0x89, 0x50, 0x4e, 0x47, 0x0d, 0x0a, 0x1a, 0x0a]),
        Some(ImageKind::Png)
    );
    assert_eq!(sniff_format(&[0xff, 0xd8, 0xff, 0xe0]), Some(ImageKind::Jpeg));
    assert_eq!(sniff_format(b"GIF89a"), Some(ImageKind::Gif));
    assert_eq!(sniff_format(b"GIF87a"), Some(ImageKind::Gif));
    assert_eq!(sniff_format(b"RIFFxxxxWEBP"), Some(ImageKind::WebP));
    assert_eq!(sniff_format(b"MM\x00*"), Some(ImageKind::Tiff));
    assert_eq!(sniff_format(b"II*\x00"), Some(ImageKind::Tiff));
    assert_eq!(sniff_format(b"DDS "), Some(ImageKind::Dds));
    assert_eq!(sniff_format(b"BM"), Some(ImageKind::Bmp));
    assert_eq!(sniff_format(&[0, 0, 1, 0]), Some(ImageKind::Ico));
    assert_eq!(sniff_format(b"#?RADIANCE"), Some(ImageKind::Hdr));
    assert_eq!(sniff_format(b"P1"), Some(ImageKind::Pnm));
    assert_eq!(sniff_format(b"P6"), Some(ImageKind::Pnm));
    assert_eq!(sniff_format(b"farbfeld"), Some(ImageKind::Farbfeld));
    assert_eq!(
        sniff_format(b"\x00\x00\x00 ftypavif"),
        Some(ImageKind::Avif)
    );
    assert_eq!(
        sniff_format(b"\x00\x00\x00\x1cftypavif"),
        Some(ImageKind::Avif)
    );
    assert_eq!(
        sniff_format(&[0x76, 0x2f, 0x31, 0x01]),
        Some(ImageKind::OpenExr)
    );
    assert_eq!(sniff_format(b"qoif"), Some(ImageKind::Qoi));
}

#[test]
fn sniff_rejects_near_misses() {
    assert_eq!(sniff_format(b"GIF88a"), None);
    assert_eq!(sniff_format(b"P8"), None);
    assert_eq!(sniff_format(b"P0"), None);
    assert_eq!(sniff_format(&[0x89, 0x50, 0x4e, 0x47]), None);
    assert_eq!(sniff_format(b"RIF"), None);
    assert_eq!(sniff_format(b""), None);
    assert_eq!(sniff_format(b"qoi"), None);
}

#[test]
fn sniff_agrees_with_decoder_dispatch() {
    let png = png_bytes(8, 8);
    assert_eq!(sniff_format(&png), Some(ImageKind::Png));
    assert!(image::guess_format(&png).unwrap() == image::ImageFormat::Png);
}
