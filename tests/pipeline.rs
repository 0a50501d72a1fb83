use image::{DynamicImage, ImageFormat, Rgb, RgbImage};
use image_compressor::compress::{assemble, compress_image, CompressError, SizeReport, MAX_SIDE};
use image_compressor::format::OutputFormat;
use std::io::Cursor;

fn encoded(img: RgbImage, format: ImageFormat) -> Vec<u8> {
    let mut buf = Cursor::new(Vec::new());
    DynamicImage::ImageRgb8(img).write_to(&mut buf, format).unwrap();
    buf.into_inner()
}

fn noisy(width: u32, height: u32) -> RgbImage {
    let mut state: u32 = 12345;
    RgbImage::from_fn(width, height, |_, _| {
        state = state.wrapping_mul(1103515245).wrapping_add(12345);
        let v = (state >> 8).to_le_bytes();
        Rgb([v[0], v[1], v[2]])
    })
}

fn solid(width: u32, height: u32) -> RgbImage {
    RgbImage::from_pixel(width, height, Rgb([40, 120, 200]))
}

#[test]
fn test_compress_to_jpeg() {
    let input = encoded(noisy(800, 600), ImageFormat::Png);
    let out = compress_image(&input, "jpeg").unwrap();
    assert!(
        out.bytes.len() < input.len(),
        "Output file size should be smaller after compression"
    );
    assert_eq!(image::guess_format(&out.bytes).unwrap(), ImageFormat::Jpeg);
}

#[test]
fn test_compress_to_png() {
    let input = encoded(solid(800, 600), ImageFormat::Jpeg);
    let out = compress_image(&input, "png").unwrap();
    assert!(
        out.bytes.len() <= input.len(),
        "Output file size should be smaller or equal after compression"
    );
    assert_eq!(image::guess_format(&out.bytes).unwrap(), ImageFormat::Png);
}

#[test]
fn test_compress_to_webp() {
    let input = encoded(solid(800, 600), ImageFormat::Jpeg);
    let out = compress_image(&input, "webp").unwrap();
    assert!(
        out.bytes.len() < input.len(),
        "Output file size should be smaller after compression"
    );
    assert_eq!(image::guess_format(&out.bytes).unwrap(), ImageFormat::WebP);
}

#[test]
fn png_to_jpeg_scenario_fits_box_and_decodes() {
    let input = encoded(noisy(800, 600), ImageFormat::Png);
    let out = compress_image(&input, "jpeg").unwrap();
    assert_eq!(out.format, OutputFormat::Jpeg);
    assert_eq!((out.source_width, out.source_height), (800, 600));
    assert_eq!((out.width, out.height), (400, 300));
    let back = image::load_from_memory_with_format(&out.bytes, ImageFormat::Jpeg).unwrap();
    assert_eq!((back.width(), back.height()), (400, 300));
}

#[test]
fn jpeg_to_webp_scenario_decodes_as_webp() {
    let input = encoded(noisy(640, 480), ImageFormat::Jpeg);
    let out = compress_image(&input, "webp").unwrap();
    let back = image::load_from_memory_with_format(&out.bytes, ImageFormat::WebP).unwrap();
    assert!(back.width() <= 400 && back.height() <= 400);
    assert_eq!((back.width(), back.height()), (400, 300));
}

#[test]
fn every_format_decodes_as_itself() {
    let input = encoded(noisy(123, 77), ImageFormat::Png);
    for (name, format) in [
        ("jpeg", ImageFormat::Jpeg),
        ("png", ImageFormat::Png),
        ("webp", ImageFormat::WebP),
    ] {
        let out = compress_image(&input, name).unwrap();
        let back = image::load_from_memory_with_format(&out.bytes, format).unwrap();
        assert_eq!((back.width(), back.height()), (out.width, out.height));
    }
}

#[test]
fn wide_image_keeps_aspect_ratio() {
    let input = encoded(solid(1000, 250), ImageFormat::Png);
    let out = compress_image(&input, "png").unwrap();
    assert_eq!((out.width, out.height), (400, 100));
}

#[test]
fn tall_image_keeps_aspect_ratio() {
    let input = encoded(solid(300, 900), ImageFormat::Png);
    let out = compress_image(&input, "png").unwrap();
    assert_eq!((out.width, out.height), (133, 400));
}

#[test]
fn small_image_is_scaled_up_to_the_box() {
    let input = encoded(solid(100, 50), ImageFormat::Png);
    let out = compress_image(&input, "png").unwrap();
    assert_eq!((out.width, out.height), (MAX_SIDE, 200));
}

#[test]
fn thin_image_keeps_at_least_one_pixel() {
    let input = encoded(solid(2000, 1), ImageFormat::Png);
    let out = compress_image(&input, "png").unwrap();
    assert_eq!((out.width, out.height), (400, 1));
}

#[test]
fn format_name_is_case_insensitive() {
    let input = encoded(solid(20, 10), ImageFormat::Png);
    let out = compress_image(&input, "WebP").unwrap();
    assert_eq!(out.format, OutputFormat::WebP);
    assert_eq!(image::guess_format(&out.bytes).unwrap(), ImageFormat::WebP);
}

#[test]
fn unknown_format_is_refused_before_decoding() {
    let input = encoded(solid(20, 10), ImageFormat::Png);
    assert!(matches!(compress_image(&input, "bmp"), Err(CompressError::UnsupportedFormat)));
    assert!(matches!(compress_image(b"not an image", "gif"), Err(CompressError::UnsupportedFormat)));
}

#[test]
fn corrupt_input_is_a_decode_error() {
    let r = compress_image(b"not an image at all", "png");
    assert!(matches!(r, Err(CompressError::Decode(_))));
    let mut truncated = encoded(noisy(64, 64), ImageFormat::Png);
    truncated.truncate(40);
    assert!(matches!(compress_image(&truncated, "jpeg"), Err(CompressError::Decode(_))));
}

#[test]
fn compressing_twice_gives_identical_bytes() {
    let input = encoded(noisy(500, 300), ImageFormat::Png);
    for name in ["jpeg", "png", "webp"] {
        let a = compress_image(&input, name).unwrap();
        let b = compress_image(&input, name).unwrap();
        assert_eq!(a.bytes, b.bytes);
    }
}

#[test]
fn report_counts_input_and_output_bytes() {
    let input = encoded(noisy(300, 200), ImageFormat::Png);
    let out = compress_image(&input, "jpeg").unwrap();
    let report = out.report();
    assert_eq!(report.original_bytes, input.len() as u64);
    assert_eq!(report.compressed_bytes, out.bytes.len() as u64);
    assert_eq!(out.original_bytes, input.len() as u64);
}

#[test]
fn reduction_is_signed() {
    assert_eq!(SizeReport::new(50_000, 12_000).reduction(), 38_000);
    assert_eq!(SizeReport::new(1_000, 1_500).reduction(), -500);
    assert_eq!(SizeReport::new(u64::MAX, 0).reduction(), u64::MAX as i128);
    assert_eq!(SizeReport::new(0, u64::MAX).reduction(), -(u64::MAX as i128));
}

#[test]
fn assemble_keeps_the_encoded_bytes_and_dimensions() {
    let c = assemble(Ok(vec![1, 2, 3]), OutputFormat::Png, 800, 600, 400, 300, 5000).unwrap();
    assert_eq!(c.bytes, vec![1, 2, 3]);
    assert_eq!(c.format, OutputFormat::Png);
    assert_eq!((c.source_width, c.source_height, c.width, c.height), (800, 600, 400, 300));
    assert_eq!(c.original_bytes, 5000);
    assert_eq!(c.report(), SizeReport::new(5000, 3));
}

#[test]
fn assemble_reports_an_encoder_failure() {
    let failure = image::ImageError::IoError(std::io::Error::new(std::io::ErrorKind::Other, "disk full"));
    let r = assemble(Err(failure), OutputFormat::Jpeg, 10, 10, 400, 400, 10);
    match r {
        Err(CompressError::Encode(text)) => assert!(text.contains("disk full")),
        _ => panic!("expected an encoding error"),
    }
}

#[test]
fn outputs_start_with_the_format_signature() {
    let input = encoded(noisy(90, 60), ImageFormat::Png);
    let jpeg = compress_image(&input, "jpeg").unwrap().bytes;
    assert_eq!(&jpeg[..2], &[0xFF, 0xD8]);
    let png = compress_image(&input, "png").unwrap().bytes;
    assert_eq!(&png[..8], &[137, 80, 78, 71, 13, 10, 26, 10]);
    let webp = compress_image(&input, "webp").unwrap().bytes;
    assert_eq!(&webp[..4], b"RIFF");
    assert_eq!(&webp[8..12], b"WEBP");
}

#[test]
fn source_size_is_that_of_the_decoded_input() {
    let input = encoded(noisy(37, 91), ImageFormat::Jpeg);
    let out = compress_image(&input, "png").unwrap();
    assert_eq!((out.source_width, out.source_height), (37, 91));
    assert_eq!((out.width, out.height), (163, 400));
}

#[test]
fn output_decodes_to_the_reported_size() {
    let input = encoded(noisy(800, 600), ImageFormat::Png);
    for name in ["jpeg", "png", "webp"] {
        let out = compress_image(&input, name).unwrap();
        let back = image::load_from_memory(&out.bytes).unwrap();
        assert_eq!((back.width(), back.height()), (out.width, out.height));
        assert_eq!((out.width, out.height), (400, 300));
    }
}
