use mathseek::image_processor::ImageProcessor;
use mathseek::{InputType, MathSeekError};
use std::io::Cursor;

use image::{DynamicImage, ImageBuffer, ImageFormat, RgbaImage};

use base64::prelude::{Engine as _, BASE64_STANDARD};

#[test]
fn test_validate_image_empty_data() {
    assert!(!ImageProcessor::validate_image(&[]));
}

#[test]
fn test_validate_image_invalid_data() {
    let invalid_data = vec![0, 1, 2, 3, 4, 5];
    assert!(!ImageProcessor::validate_image(&invalid_data));
}

#[test]
fn test_base64_conversion() {
    // Create a simple 1x1 PNG image
    let img: RgbaImage = ImageBuffer::new(1, 1);
    let mut buffer = Vec::new();
    let mut cursor = Cursor::new(&mut buffer);

    DynamicImage::ImageRgba8(img)
        .write_to(&mut cursor, ImageFormat::Png)
        .unwrap();

    // Test conversion to base64 and back
    let base64_str = ImageProcessor::image_to_base64(&buffer).unwrap();
    assert!(base64_str.starts_with("data:image/png;base64,"));

    let decoded = ImageProcessor::base64_to_image(&base64_str).unwrap();
    assert_eq!(buffer, decoded);
}

#[test]
fn test_image_suitability() {
    // Create a test image
    let img: RgbaImage = ImageBuffer::new(100, 100);
    let mut buffer = Vec::new();
    let mut cursor = Cursor::new(&mut buffer);

    DynamicImage::ImageRgba8(img)
        .write_to(&mut cursor, ImageFormat::Png)
        .unwrap();

    assert!(ImageProcessor::is_image_suitable_for_processing(&buffer).unwrap());
}

fn png_of(img: DynamicImage) -> Vec<u8> {
    let mut buffer = Vec::new();
    let mut cursor = Cursor::new(&mut buffer);
    img.write_to(&mut cursor, ImageFormat::Png).unwrap();
    buffer
}

#[test]
fn test_image_suitability_bounds() {
    let small = png_of(DynamicImage::ImageRgba8(ImageBuffer::new(10, 100)));
    assert!(!ImageProcessor::is_image_suitable_for_processing(&small).unwrap());

    let wide = png_of(DynamicImage::ImageRgba8(ImageBuffer::new(5000, 100)));
    assert!(!ImageProcessor::is_image_suitable_for_processing(&wide).unwrap());

    match ImageProcessor::is_image_suitable_for_processing(&[1, 2, 3]).unwrap_err() {
        MathSeekError::ImageError(m) => assert!(m.starts_with("Failed to load image: ")),
        _ => panic!("expected an image error"),
    }
}

#[test]
fn test_get_image_dimensions() {
    let buffer = png_of(DynamicImage::ImageRgba8(ImageBuffer::new(120, 80)));
    assert_eq!(ImageProcessor::get_image_dimensions(&buffer).unwrap(), (120, 80));
}

#[test]
fn test_base64_decode_known_value() {
    // "TWFu" is the classic base64 encoding of "Man"
    let decoded = ImageProcessor::base64_to_image("TWFu").unwrap();
    assert_eq!(decoded, b"Man");

    match ImageProcessor::base64_to_image("not base64 at all!!").unwrap_err() {
        MathSeekError::ImageError(m) => assert!(m.starts_with("Failed to decode base64: ")),
        _ => panic!("expected an image error"),
    }
}

#[test]
fn test_base64_data_url_prefix_stripped() {
    let payload = BASE64_STANDARD.encode(b"hello");
    let url = format!("data:image/png;base64,{}", payload);
    assert_eq!(ImageProcessor::base64_to_image(&url).unwrap(), b"hello");
}

#[test]
fn test_preprocess_reencodes_as_png() {
    // feed a JPEG; the preprocessed bytes must come back as PNG, so the
    // wrapper cannot have returned its input unchanged
    let img = DynamicImage::ImageRgb8(ImageBuffer::from_pixel(64, 64, image::Rgb([200, 10, 10])));
    let mut jpeg = Vec::new();
    let mut cursor = Cursor::new(&mut jpeg);
    img.write_to(&mut cursor, ImageFormat::Jpeg).unwrap();

    let processed = ImageProcessor::preprocess_image(&jpeg).unwrap();
    assert_ne!(jpeg, processed);
    assert!(processed.starts_with(&[0x89, b'P', b'N', b'G']));
    assert_eq!(ImageProcessor::get_image_dimensions(&processed).unwrap(), (64, 64));

    match ImageProcessor::preprocess_image(&[9, 9, 9]).unwrap_err() {
        MathSeekError::ImageError(_) => {}
        _ => panic!("expected an image error"),
    }
}

#[test]
fn test_layout_analysis_dark_image_is_formula_dense() {
    // an all-black 60x60 image: blocks at (0,0),(50,0),(0,50),(50,50) all
    // have mean 0, so all four are formula regions
    let img = DynamicImage::ImageRgb8(ImageBuffer::from_pixel(60, 60, image::Rgb([0, 0, 0])));
    let buffer = png_of(img);

    let layout = ImageProcessor::analyze_image_layout(&buffer).unwrap();
    assert_eq!(layout.formula_regions.len(), 4);
    assert!(layout.text_regions.is_empty());
    assert!(layout.has_multiple_formulas);
    assert!(!layout.has_text_content);
    assert_eq!(layout.formula_regions[0], mathseek::Region { x: 0, y: 0, width: 50, height: 50 });
    assert_eq!(layout.formula_regions[1], mathseek::Region { x: 50, y: 0, width: 10, height: 50 });
    assert_eq!(layout.formula_regions[2], mathseek::Region { x: 0, y: 50, width: 50, height: 10 });
    assert_eq!(layout.formula_regions[3], mathseek::Region { x: 50, y: 50, width: 10, height: 10 });
}

#[test]
fn test_layout_analysis_white_image_is_empty() {
    let img = DynamicImage::ImageRgb8(ImageBuffer::from_pixel(
        60,
        60,
        image::Rgb([255, 255, 255]),
    ));
    let buffer = png_of(img);

    let layout = ImageProcessor::analyze_image_layout(&buffer).unwrap();
    assert!(layout.formula_regions.is_empty());
    assert!(layout.text_regions.is_empty());
    assert!(!layout.has_multiple_formulas);
    assert!(!layout.has_text_content);
}

#[test]
fn test_layout_analysis_mid_gray_is_text() {
    // mean luminance 220 sits between the formula threshold (200) and the
    // content threshold (240): a text-like block
    let img = DynamicImage::ImageRgb8(ImageBuffer::from_pixel(
        40,
        40,
        image::Rgb([220, 220, 220]),
    ));
    let buffer = png_of(img);

    let layout = ImageProcessor::analyze_image_layout(&buffer).unwrap();
    assert!(layout.formula_regions.is_empty());
    assert_eq!(layout.text_regions.len(), 1);
    assert!(layout.has_text_content);
}

#[test]
fn test_detect_input_type() {
    // formula-dense, multiple regions: a document
    let dark = png_of(DynamicImage::ImageRgb8(ImageBuffer::from_pixel(
        60,
        60,
        image::Rgb([0, 0, 0]),
    )));
    assert_eq!(ImageProcessor::detect_input_type(&dark).unwrap(), InputType::Document);

    // blank: a single formula
    let white = png_of(DynamicImage::ImageRgb8(ImageBuffer::from_pixel(
        60,
        60,
        image::Rgb([255, 255, 255]),
    )));
    assert_eq!(
        ImageProcessor::detect_input_type(&white).unwrap(),
        InputType::SingleFormula
    );

    // one dark block only: still a single formula
    let single = png_of(DynamicImage::ImageRgb8(ImageBuffer::from_pixel(
        40,
        40,
        image::Rgb([0, 0, 0]),
    )));
    assert_eq!(
        ImageProcessor::detect_input_type(&single).unwrap(),
        InputType::SingleFormula
    );
}

#[test]
fn test_image_to_base64_rejects_invalid() {
    match ImageProcessor::image_to_base64(&[1, 2, 3]).unwrap_err() {
        MathSeekError::ImageError(m) => assert_eq!(m, "Invalid image data"),
        _ => panic!("expected an image error"),
    }
}
