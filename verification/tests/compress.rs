use bandwidth_hero_proxy::compress::{
    calculate_dimensions, compress, compress_with, effective_quality, encoding_outcome,
    keep_if_smaller, select_format, CompressionError, Config, OutputFormat,
};

#[test]
fn test_calculate_dimensions() {
    assert_eq!(calculate_dimensions(800, 600, 400), (400, 300));
    assert_eq!(calculate_dimensions(400, 300, 400), (400, 300));
    assert_eq!(calculate_dimensions(200, 150, 400), (200, 150));
}

#[test]
fn test_select_format_height_limit() {
    let config = Config::default();
    assert_eq!(select_format(true, 40000, &config), OutputFormat::Jpeg);
    assert_eq!(select_format(true, 1000, &config), OutputFormat::Avif);
    assert_eq!(select_format(false, 1000, &config), OutputFormat::Jpeg);
}

#[test]
fn calculate_dimensions_rounds_each_side_to_the_nearest_pixel() {
    // 333 * 400 / 1000 = 133.2
    assert_eq!(calculate_dimensions(1000, 333, 400), (400, 133));
    // 334 * 400 / 1000 = 133.6
    assert_eq!(calculate_dimensions(1000, 334, 400), (400, 134));
    // 5 * 400 / 800 = 2.5: halves go up
    assert_eq!(calculate_dimensions(800, 5, 400), (400, 3));
    // a very wide picture loses its height
    assert_eq!(calculate_dimensions(1000, 1, 400), (400, 0));
    assert_eq!(calculate_dimensions(401, 401, 400), (400, 400));
    assert_eq!(calculate_dimensions(u32::MAX, u32::MAX, 400), (400, 400));
    assert_eq!(calculate_dimensions(u32::MAX, u32::MAX, u32::MAX - 1), (u32::MAX - 1, u32::MAX - 1));
    assert_eq!(calculate_dimensions(0, 7, 0), (0, 7));
    assert_eq!(calculate_dimensions(9, 7, 0), (0, 0));
}

#[test]
fn calculate_dimensions_is_idempotent() {
    for (w, h) in [(800u32, 600u32), (1234, 777), (400, 9), (3, 3), (5000, 1)] {
        let (pw, ph) = calculate_dimensions(w, h, 400);
        assert_eq!(calculate_dimensions(pw, ph, pw), (pw, ph));
        if w > 400 {
            assert_eq!(pw, 400);
            let drift = (ph as i64 * w as i64 - h as i64 * 400).abs();
            assert!(2 * drift <= w as i64);
        } else {
            assert_eq!((pw, ph), (w, h));
        }
    }
}

#[test]
fn select_format_honours_both_ceilings() {
    let config = Config::default();
    assert_eq!(select_format(true, 16383, &config), OutputFormat::Avif);
    assert_eq!(select_format(true, 16384, &config), OutputFormat::Jpeg);
    assert_eq!(select_format(true, 32767, &config), OutputFormat::Jpeg);
    assert_eq!(select_format(true, 32768, &config), OutputFormat::Jpeg);
    assert_eq!(select_format(false, 32768, &config), OutputFormat::Jpeg);
    assert_eq!(select_format(false, 0, &config), OutputFormat::Jpeg);
    assert_eq!(select_format(true, 0, &config), OutputFormat::Avif);
}

#[test]
fn default_limits() {
    let config = Config::default();
    assert_eq!(config.max_width, 400);
    assert_eq!(config.max_jpeg_height, 32767);
    assert_eq!(config.max_avif_height, 16383);
    assert_eq!(config.grayscale_quality_range, (10, 40));
    assert!(config.avif_encoder);
}

#[test]
fn grayscale_quality_is_clamped_into_its_band() {
    let config = Config::default();
    assert_eq!(effective_quality(80, true, &config), 40);
    assert_eq!(effective_quality(5, true, &config), 10);
    assert_eq!(effective_quality(25, true, &config), 25);
    assert_eq!(effective_quality(10, true, &config), 10);
    assert_eq!(effective_quality(40, true, &config), 40);
    assert_eq!(effective_quality(80, false, &config), 80);
    assert_eq!(effective_quality(0, false, &config), 0);
}

#[test]
fn a_longer_encoding_is_thrown_away() {
    let source = vec![7u8; 10];
    let kept = keep_if_smaller(vec![1u8; 11], OutputFormat::Jpeg, &source, 10);
    assert_eq!(kept.data, source);
    assert_eq!(kept.format, "original");
    assert_eq!(kept.bytes_saved, 0);
}

#[test]
fn an_encoding_of_equal_length_is_kept() {
    let source = vec![7u8; 10];
    let kept = keep_if_smaller(vec![1u8; 10], OutputFormat::Avif, &source, 10);
    assert_eq!(kept.data, vec![1u8; 10]);
    assert_eq!(kept.format, "avif");
    assert_eq!(kept.bytes_saved, 0);
    let kept = keep_if_smaller(vec![1u8; 4], OutputFormat::Jpeg, &source, 10);
    assert_eq!(kept.data, vec![1u8; 4]);
    assert_eq!(kept.format, "jpeg");
    assert_eq!(kept.bytes_saved, 6);
}

#[test]
fn bytes_that_are_no_image_are_refused() {
    let outcome = compress(b"this is not a picture", true, false, 40, 21);
    match outcome {
        Err(e) => assert!(e.message().starts_with("Image processing error: ")),
        Ok(_) => panic!("garbage was transcoded"),
    }
}

fn picture(width: u32, height: u32) -> image::RgbImage {
    let mut seed: u32 = 2463534242;
    image::RgbImage::from_fn(width, height, |x, y| {
        seed ^= seed << 13;
        seed ^= seed >> 17;
        seed ^= seed << 5;
        let grain = (seed & 31) as u8;
        image::Rgb([(x % 224) as u8 + grain, (y % 224) as u8 + grain, ((x + y) % 224) as u8 + grain])
    })
}

fn png_of(img: image::DynamicImage) -> Vec<u8> {
    let mut out = Vec::new();
    img.write_to(&mut std::io::Cursor::new(&mut out), image::ImageFormat::Png).unwrap();
    out
}

fn decoded(data: &[u8]) -> (image::ImageFormat, image::DynamicImage) {
    let reader = image::ImageReader::new(std::io::Cursor::new(data)).with_guessed_format().unwrap();
    let format = reader.format().unwrap();
    (format, reader.decode().unwrap())
}

#[test]
fn a_wide_picture_is_scaled_down_and_encoded_as_jpeg() {
    let source = png_of(image::DynamicImage::ImageRgb8(picture(800, 600)));
    let size = source.len() as u64;
    let result = compress(&source, false, false, 40, size).unwrap();
    assert_eq!(result.format, "jpeg");
    assert!(result.data.len() as u64 <= size);
    assert_eq!(result.bytes_saved, size as i64 - result.data.len() as i64);
    assert!(result.bytes_saved > 0);
    let (format, img) = decoded(&result.data);
    assert_eq!(format, image::ImageFormat::Jpeg);
    assert_eq!((img.width(), img.height()), (400, 300));
    assert_eq!(img.color(), image::ColorType::Rgb8);
}

#[test]
fn a_narrow_picture_keeps_its_size() {
    let source = png_of(image::DynamicImage::ImageRgb8(picture(200, 150)));
    let result = compress(&source, false, false, 40, source.len() as u64).unwrap();
    assert_eq!(result.format, "jpeg");
    let (_, img) = decoded(&result.data);
    assert_eq!((img.width(), img.height()), (200, 150));
}

#[test]
fn a_grayscale_picture_has_one_channel() {
    let source = png_of(image::DynamicImage::ImageRgb8(picture(500, 100)));
    let result = compress(&source, false, true, 90, source.len() as u64).unwrap();
    assert_eq!(result.format, "jpeg");
    let (_, img) = decoded(&result.data);
    assert_eq!((img.width(), img.height()), (400, 80));
    assert_eq!(img.color(), image::ColorType::L8);
}

#[test]
fn grayscale_lowers_the_quality_into_its_band() {
    let source = png_of(image::DynamicImage::ImageRgb8(picture(300, 200)));
    let size = source.len() as u64;
    let at_ninety = compress(&source, false, true, 90, size).unwrap();
    let at_forty = compress(&source, false, true, 40, size).unwrap();
    let at_five = compress(&source, false, true, 5, size).unwrap();
    let at_ten = compress(&source, false, true, 10, size).unwrap();
    assert_eq!(at_ninety.data, at_forty.data);
    assert_eq!(at_five.data, at_ten.data);
    assert!(at_ten.data.len() < at_forty.data.len());
}

#[test]
fn an_encoding_longer_than_the_original_size_gives_the_original_back() {
    let source = png_of(image::DynamicImage::ImageRgb8(picture(64, 64)));
    let result = compress(&source, false, false, 100, 10).unwrap();
    assert_eq!(result.format, "original");
    assert_eq!(result.data, source);
    assert_eq!(result.bytes_saved, 0);
}

#[test]
fn a_small_picture_is_encoded_as_avif_on_request() {
    let source = png_of(image::DynamicImage::ImageRgb8(picture(48, 32)));
    let size = source.len() as u64;
    let result = compress(&source, true, false, 40, size).unwrap();
    assert_eq!(result.format, "avif");
    assert_eq!(&result.data[4..12], b"ftypavif");
    assert!(result.data.len() as u64 <= size);
    assert_eq!(result.bytes_saved, size as i64 - result.data.len() as i64);
}

#[test]
fn avif_takes_pictures_with_transparency_and_deep_samples() {
    let mut with_alpha = image::RgbaImage::new(40, 30);
    for (x, y, pixel) in with_alpha.enumerate_pixels_mut() {
        *pixel = image::Rgba([(x * 6) as u8, (y * 8) as u8, 128, ((x + y) * 3) as u8]);
    }
    let source = png_of(image::DynamicImage::ImageRgba8(with_alpha));
    let result = compress(&source, true, false, 50, 1 << 20).unwrap();
    assert_eq!(result.format, "avif");
    let deep = image::ImageBuffer::<image::Rgb<u16>, Vec<u16>>::from_fn(40, 30, |x, y| {
        image::Rgb([(x * 1000) as u16, (y * 2000) as u16, 40000])
    });
    let source = png_of(image::DynamicImage::ImageRgb16(deep));
    let result = compress(&source, true, true, 50, 1 << 20).unwrap();
    assert_eq!(result.format, "avif");
}

#[test]
fn jpeg_refuses_layouts_it_cannot_hold() {
    let with_alpha = image::RgbaImage::from_pixel(40, 30, image::Rgba([1, 2, 3, 4]));
    let source = png_of(image::DynamicImage::ImageRgba8(with_alpha));
    match compress(&source, false, false, 50, 1 << 20) {
        Err(e) => assert!(e.message().starts_with("Image processing error: ")),
        Ok(r) => panic!("encoded as {}", r.format),
    }
    // desaturated, 8-bit gray with alpha is refused as well
    assert!(compress(&source, false, true, 50, 1 << 20).is_err());
    let gray = image::GrayImage::from_pixel(40, 30, image::Luma([77]));
    let source = png_of(image::DynamicImage::ImageLuma8(gray));
    assert_eq!(compress(&source, false, false, 50, 1 << 20).unwrap().format, "jpeg");
}

#[test]
fn avif_refuses_a_quality_outside_its_range() {
    let source = png_of(image::DynamicImage::ImageRgb8(picture(16, 16)));
    for quality in [0u8, 101, 255] {
        match compress(&source, true, false, quality, 1 << 20) {
            Err(e) => assert_eq!(e.message(), "Image processing error: AVIF quality must be within 1..=100"),
            Ok(r) => panic!("encoded as {}", r.format),
        }
        // the JPEG encoder clamps the quality itself
        assert_eq!(compress(&source, false, false, quality, 1 << 20).unwrap().format, "jpeg");
        // grayscale clamps it into 10..=40 before the encoder sees it
        assert_eq!(compress(&source, true, true, quality, 1 << 20).unwrap().format, "avif");
    }
    assert_eq!(compress(&source, true, false, 1, 1 << 20).unwrap().format, "avif");
    assert_eq!(compress(&source, true, false, 100, 1 << 20).unwrap().format, "avif");
}

#[test]
fn a_picture_too_tall_for_avif_becomes_a_jpeg() {
    let tall = image::GrayImage::from_pixel(4, 16384, image::Luma([200]));
    let source = png_of(image::DynamicImage::ImageLuma8(tall));
    let result = compress(&source, true, false, 40, 1 << 20).unwrap();
    assert_eq!(result.format, "jpeg");
    let (_, img) = decoded(&result.data);
    assert_eq!((img.width(), img.height()), (4, 16384));
}

#[test]
fn a_picture_that_loses_its_height_cannot_be_encoded() {
    let flat = image::RgbImage::from_pixel(1000, 1, image::Rgb([1, 2, 3]));
    let source = png_of(image::DynamicImage::ImageRgb8(flat));
    assert!(compress(&source, false, false, 40, 1 << 20).is_err());
    assert!(compress(&source, true, false, 40, 1 << 20).is_err());
}

#[test]
fn without_an_avif_encoder_every_picture_becomes_a_jpeg() {
    let source = png_of(image::DynamicImage::ImageRgb8(picture(32, 32)));
    let mut config = Config::default();
    config.avif_encoder = false;
    let result = compress_with(&source, true, false, 40, 1 << 20, &config).unwrap();
    assert_eq!(result.format, "jpeg");
    let (format, _) = decoded(&result.data);
    assert_eq!(format, image::ImageFormat::Jpeg);
    config.max_width = 16;
    let result = compress_with(&source, false, false, 40, 1 << 20, &config).unwrap();
    let (_, img) = decoded(&result.data);
    assert_eq!((img.width(), img.height()), (16, 16));
}

#[test]
fn the_output_is_never_longer_than_the_original() {
    let source = png_of(image::DynamicImage::ImageRgb8(picture(120, 90)));
    let size = source.len() as u64;
    for quality in [1u8, 40, 100] {
        for use_avif in [false, true] {
            let result = compress(&source, use_avif, false, quality, size).unwrap();
            assert!(result.data.len() as u64 <= size);
            if result.format == "original" {
                assert_eq!(result.bytes_saved, 0);
                assert_eq!(result.data, source);
            } else {
                assert_eq!(result.bytes_saved, size as i64 - result.data.len() as i64);
            }
        }
    }
}

#[test]
fn errors_are_rendered_with_their_kind() {
    assert_eq!(
        CompressionError::ImageError("bad marker".to_string()).message(),
        "Image processing error: bad marker"
    );
    assert_eq!(CompressionError::IoError("disk full".to_string()).message(), "IO error: disk full");
    assert_eq!(OutputFormat::Avif.name(), "avif");
    assert_eq!(OutputFormat::Jpeg.name(), "jpeg");
}

#[test]
fn what_an_encoder_gave_is_handed_on() {
    assert_eq!(encoding_outcome(Ok(vec![1, 2, 3])).unwrap(), vec![1, 2, 3]);
    assert_eq!(encoding_outcome(Ok(Vec::new())).unwrap(), Vec::<u8>::new());
    match encoding_outcome(Err("unsupported colour".to_string())) {
        Err(CompressionError::ImageError(detail)) => assert_eq!(detail, "unsupported colour"),
        other => panic!("unexpected outcome {:?}", other),
    }
}

#[test]
fn the_jpeg_of_a_picture_depends_on_picture_and_quality_alone() {
    let source = png_of(image::DynamicImage::ImageRgb8(picture(160, 120)));
    let size = source.len() as u64;
    let first = compress(&source, false, false, 40, size).unwrap();
    let second = compress(&source, false, false, 40, size).unwrap();
    assert_eq!(first.data, second.data);
    let other = compress(&source, false, false, 41, size).unwrap();
    assert_ne!(first.data, other.data);
    assert_ne!(first.data, source);
}

#[test]
fn a_picture_without_width_is_refused_by_avif_with_its_own_message() {
    let source = png_of(image::DynamicImage::ImageRgb8(picture(8, 8)));
    let mut config = Config::default();
    config.max_width = 0;
    match compress_with(&source, true, false, 40, 1 << 20, &config) {
        Err(e) => assert_eq!(e.message(), "Image processing error: AVIF needs a picture with a width"),
        Ok(r) => panic!("encoded as {}", r.format),
    }
    // the quality is judged first
    match compress_with(&source, true, false, 0, 1 << 20, &config) {
        Err(e) => assert_eq!(e.message(), "Image processing error: AVIF quality must be within 1..=100"),
        Ok(r) => panic!("encoded as {}", r.format),
    }
}

#[test]
fn every_supported_format_is_found_by_its_signature() {
    let formats = [
        image::ImageFormat::Png,
        image::ImageFormat::Jpeg,
        image::ImageFormat::Gif,
        image::ImageFormat::WebP,
        image::ImageFormat::Bmp,
        image::ImageFormat::Tiff,
    ];
    for format in formats {
        let mut source = Vec::new();
        image::DynamicImage::ImageRgb8(picture(24, 16))
            .write_to(&mut std::io::Cursor::new(&mut source), format)
            .unwrap();
        // AVIF takes every pixel layout that the decoders hand out
        let result = compress(&source, true, false, 60, 1 << 20).unwrap();
        assert_eq!(result.format, "avif", "{:?}", format);
        assert_eq!(&result.data[4..12], b"ftypavif");
    }
    // bytes with a signature and nothing behind it are refused
    assert!(compress(&[0xff, 0xd8, 0xff], false, false, 60, 3).is_err());
    assert!(compress(b"", false, false, 60, 0).is_err());
}
