use mathseek::api_client::{AttemptOutcome, ContentPayload, RecognitionResponse};
use mathseek::recognition_engine::{RecognitionConfig, RecognitionEngine};
use mathseek::{
    AppConfig, DocumentContent, DocumentSection, FormulaBlock, FormulaResult, InputType,
    MathSeekError, ResultContent,
};

fn engine() -> RecognitionEngine {
    RecognitionEngine::new(&AppConfig::default()).unwrap()
}

#[test]
fn test_recognition_config_default() {
    let config = RecognitionConfig::default();
    assert_eq!(config.confidence_threshold, 500);
    assert!(config.preprocessing_enabled);
    assert!(config.auto_type_detection);
    assert!(config.validation_enabled);
}

#[test]
fn test_latex_syntax_validation() {
    let app_config = AppConfig::default();
    let engine = RecognitionEngine::new(&app_config).unwrap();

    // Valid LaTeX
    assert!(engine.is_valid_latex_syntax("x^2 + y^2 = r^2"));
    assert!(engine.is_valid_latex_syntax("\\frac{a}{b}"));
    assert!(engine.is_valid_latex_syntax("$x + y$"));

    // Invalid LaTeX
    assert!(!engine.is_valid_latex_syntax("x^2 + y^2 = r^2}")); // Unbalanced brace
    assert!(!engine.is_valid_latex_syntax("{x^2 + y^2 = r^2")); // Unbalanced brace
    assert!(!engine.is_valid_latex_syntax("$x + y")); // Unclosed math mode
}

#[test]
fn test_brace_balance_scenarios() {
    let e = engine();
    assert!(e.is_valid_latex_syntax("x^2"));
    assert!(!e.is_valid_latex_syntax("x^2}")); // goes negative
    assert!(!e.is_valid_latex_syntax("{x^2")); // ends non-zero
    assert!(e.is_valid_latex_syntax("$x+y$"));
    assert!(!e.is_valid_latex_syntax("$x+y")); // math mode left open
}

#[test]
fn test_recognition_stats() {
    let app_config = AppConfig::default();
    let engine = RecognitionEngine::new(&app_config).unwrap();

    let stats = engine.get_recognition_stats();
    assert_eq!(stats.confidence_threshold, 500);
    assert!(stats.preprocessing_enabled);
}

#[test]
fn test_confidence_gate_boundary() {
    // c < threshold is rejected, c >= threshold is accepted, and the
    // boundary passes
    let e = engine();
    let at_threshold = FormulaResult::new_single_formula("x".to_string(), 500);
    assert!(e.apply_confidence_gate(at_threshold).is_ok());

    let above = FormulaResult::new_single_formula("x".to_string(), 501);
    assert!(e.apply_confidence_gate(above).is_ok());

    let below = FormulaResult::new_single_formula("x".to_string(), 499);
    match e.apply_confidence_gate(below).unwrap_err() {
        MathSeekError::ApiError(m) => {
            assert_eq!(m, "Recognition confidence (0.499) below threshold (0.500)");
        }
        _ => panic!("expected an api error"),
    }
}

#[test]
fn test_post_validation_clamps_confidence() {
    // confidence outside [0,1] entering post-validation comes out clamped
    let e = engine();

    let mut high = FormulaResult::new_single_formula("E = mc^2".to_string(), 1500);
    assert!(e.validate_recognition_result(&mut high).is_ok());
    assert_eq!(high.confidence, 1000);

    let mut low = FormulaResult::new_single_formula("E = mc^2".to_string(), -100);
    assert!(e.validate_recognition_result(&mut low).is_ok());
    assert_eq!(low.confidence, 0);

    let mut in_range = FormulaResult::new_single_formula("E = mc^2".to_string(), 730);
    assert!(e.validate_recognition_result(&mut in_range).is_ok());
    assert_eq!(in_range.confidence, 730);
}

#[test]
fn test_post_validation_rejects_bad_syntax() {
    let e = engine();
    let mut bad = FormulaResult::new_single_formula("{x".to_string(), 800);
    match e.validate_recognition_result(&mut bad).unwrap_err() {
        MathSeekError::ApiError(m) => assert_eq!(m, "Invalid LaTeX syntax detected"),
        _ => panic!("expected an api error"),
    }

    let mut empty = FormulaResult::new_single_formula("   ".to_string(), 800);
    match e.validate_recognition_result(&mut empty).unwrap_err() {
        MathSeekError::ApiError(m) => assert_eq!(m, "Empty formula content"),
        _ => panic!("expected an api error"),
    }
}

#[test]
fn test_validate_document_content_names_offender() {
    let e = engine();
    let mut section = DocumentSection::new(None, "body".to_string());
    section.add_formula(FormulaBlock::new("a{b".to_string(), 0, true));
    let mut doc = DocumentContent::new(None);
    doc.add_section(section);
    match e.validate_document_content(&doc).unwrap_err() {
        MathSeekError::ApiError(m) => {
            assert_eq!(m, "Invalid LaTeX syntax in formula: a{b");
        }
        _ => panic!("expected an api error"),
    }
}

#[test]
fn test_extract_single_formula_from_document() {
    let e = engine();

    // first explicit fragment wins
    let mut s1 = DocumentSection::new(None, "text".to_string());
    s1.add_formula(FormulaBlock::new("a=b".to_string(), 0, true));
    let mut doc = DocumentContent::new(None);
    doc.add_section(s1);
    assert_eq!(e.extract_single_formula_from_document(&doc).unwrap(), "a=b");

    // a body text that looks like a formula is used verbatim
    let s2 = DocumentSection::new(None, "  $x+1$".to_string());
    let mut doc2 = DocumentContent::new(None);
    doc2.add_section(s2);
    assert_eq!(e.extract_single_formula_from_document(&doc2).unwrap(), "  $x+1$");

    // otherwise the extraction fails
    let s3 = DocumentSection::new(None, "prose only".to_string());
    let mut doc3 = DocumentContent::new(None);
    doc3.add_section(s3);
    match e.extract_single_formula_from_document(&doc3).unwrap_err() {
        MathSeekError::ApiError(m) => assert_eq!(m, "No formula found in document"),
        _ => panic!("expected an api error"),
    }
}

#[test]
fn test_enhance_document_with_layout() {
    let e = engine();
    let layout = mathseek::ImageLayout {
        has_multiple_formulas: true,
        has_text_content: false,
        formula_regions: vec![
            mathseek::Region { x: 0, y: 0, width: 50, height: 50 },
            mathseek::Region { x: 50, y: 0, width: 50, height: 50 },
        ],
        text_regions: vec![],
    };

    // no sections: a placeholder section carrying the summary is created
    let mut empty_doc = DocumentContent::new(None);
    e.enhance_document_with_layout(&mut empty_doc, &layout).unwrap();
    assert_eq!(empty_doc.sections.len(), 1);
    assert_eq!(empty_doc.sections[0].text, "Detected 2 formula regions and 0 text regions");
    assert_eq!(empty_doc.sections[0].heading, None);
    assert!(empty_doc.sections[0].formulas.is_empty());

    // an empty first body text receives the region summary
    let mut doc = DocumentContent::new(None);
    doc.add_section(DocumentSection::new(Some("H".to_string()), "".to_string()));
    e.enhance_document_with_layout(&mut doc, &layout).unwrap();
    assert_eq!(doc.sections[0].text, "Detected 2 formula regions and 0 text regions");
    assert_eq!(doc.sections[0].heading, Some("H".to_string()));

    // a non-empty first body text is untouched
    let mut doc2 = DocumentContent::new(None);
    doc2.add_section(DocumentSection::new(None, "kept".to_string()));
    e.enhance_document_with_layout(&mut doc2, &layout).unwrap();
    assert_eq!(doc2.sections[0].text, "kept");
}

#[test]
fn test_recognize_content_rejects_invalid_image() {
    let e = engine();
    let mut outcomes: Vec<AttemptOutcome<RecognitionResponse>> = Vec::new();
    match e.recognize_content(&[], None, &mut outcomes).unwrap_err() {
        MathSeekError::ImageError(m) => assert_eq!(m, "Invalid image data provided"),
        _ => panic!("expected an image error"),
    }

    let mut outcomes2: Vec<AttemptOutcome<RecognitionResponse>> = Vec::new();
    match e
        .recognize_content(&[0, 1, 2, 3], None, &mut outcomes2)
        .unwrap_err()
    {
        MathSeekError::ImageError(m) => assert_eq!(m, "Invalid image data provided"),
        _ => panic!("expected an image error"),
    }
}

fn tiny_png(width: u32, height: u32) -> Vec<u8> {
    let img: image::RgbaImage = image::ImageBuffer::new(width, height);
    let mut buffer = Vec::new();
    let mut cursor = std::io::Cursor::new(&mut buffer);
    image::DynamicImage::ImageRgba8(img)
        .write_to(&mut cursor, image::ImageFormat::Png)
        .unwrap();
    buffer
}

#[test]
fn test_recognize_content_rejects_unsuitable_image() {
    let e = engine();
    let small = tiny_png(10, 10);
    let mut outcomes: Vec<AttemptOutcome<RecognitionResponse>> = Vec::new();
    match e.recognize_content(&small, None, &mut outcomes).unwrap_err() {
        MathSeekError::ImageError(m) => {
            assert_eq!(
                m,
                "Image is not suitable for processing (too small, too large, or poor quality)"
            );
        }
        _ => panic!("expected an image error"),
    }
}

fn good_envelope(latex: &str, confidence: i32) -> RecognitionResponse {
    RecognitionResponse {
        success: true,
        latex: Some(latex.to_string()),
        confidence: Some(confidence),
        content: ContentPayload::Absent,
        error: None,
    }
}

#[test]
fn test_recognize_content_single_formula_end_to_end() {
    let e = engine();
    let img = tiny_png(100, 100);
    let mut outcomes = vec![AttemptOutcome::Envelope(good_envelope("E = mc^2", 950))];
    let result = e
        .recognize_content(&img, Some(InputType::SingleFormula), &mut outcomes)
        .unwrap();
    assert_eq!(result.latex, "E = mc^2");
    assert_eq!(result.confidence, 950);
    assert_eq!(result.input_type, InputType::SingleFormula);
    match result.content {
        ResultContent::SingleFormula(f) => assert_eq!(f, "E = mc^2"),
        _ => panic!("expected single-formula content"),
    }
}

#[test]
fn test_recognize_content_below_threshold_is_rejected() {
    let e = engine();
    let img = tiny_png(100, 100);
    let mut outcomes = vec![AttemptOutcome::Envelope(good_envelope("E = mc^2", 300))];
    match e
        .recognize_content(&img, Some(InputType::SingleFormula), &mut outcomes)
        .unwrap_err()
    {
        MathSeekError::ApiError(m) => {
            assert_eq!(m, "Recognition confidence (0.300) below threshold (0.500)");
        }
        _ => panic!("expected an api error"),
    }
}

#[test]
fn test_recognize_document_gets_fallback_section() {
    // a document request whose envelope has no structured content is
    // wrapped in a one-section fallback document
    let e = engine();
    let img = tiny_png(100, 100);
    let mut outcomes = vec![AttemptOutcome::Envelope(good_envelope("a+b", 800))];
    let result = e
        .recognize_content(&img, Some(InputType::Document), &mut outcomes)
        .unwrap();
    assert_eq!(result.input_type, InputType::Document);
    match result.content {
        ResultContent::Document(d) => {
            assert_eq!(d.sections.len(), 1);
            assert_eq!(d.sections[0].text, "a+b");
        }
        _ => panic!("expected document content"),
    }
}

#[test]
fn test_re_recognize_with_type() {
    let e = engine();
    let img = tiny_png(100, 100);
    let mut outcomes = vec![AttemptOutcome::Envelope(good_envelope("x", 900))];
    let result = e
        .re_recognize_with_type(&img, InputType::SingleFormula, &mut outcomes)
        .unwrap();
    assert_eq!(result.input_type, InputType::SingleFormula);
}

#[test]
fn test_update_config_replaces_tunables() {
    let mut e = engine();
    let new_config = RecognitionConfig {
        confidence_threshold: 800,
        preprocessing_enabled: false,
        auto_type_detection: false,
        validation_enabled: false,
    };
    e.update_config(new_config);
    let stats = e.get_recognition_stats();
    assert_eq!(stats.confidence_threshold, 800);
    assert!(!stats.preprocessing_enabled);
    assert!(!stats.auto_type_detection);
    assert!(!stats.validation_enabled);
}

#[test]
fn test_detection_confidence_calculation() {
    let layout_plain = mathseek::ImageLayout {
        has_multiple_formulas: false,
        has_text_content: false,
        formula_regions: vec![],
        text_regions: vec![],
    };
    assert_eq!(mathseek::calculate_detection_confidence(&layout_plain), 500);

    let layout_rich = mathseek::ImageLayout {
        has_multiple_formulas: true,
        has_text_content: true,
        formula_regions: vec![
            mathseek::Region { x: 0, y: 0, width: 50, height: 50 },
            mathseek::Region { x: 50, y: 0, width: 50, height: 50 },
        ],
        text_regions: vec![
            mathseek::Region { x: 0, y: 50, width: 50, height: 50 },
            mathseek::Region { x: 50, y: 50, width: 50, height: 50 },
        ],
    };
    // 500 + 300 + 200 + 100 caps at 1000
    assert_eq!(mathseek::calculate_detection_confidence(&layout_rich), 1000);
}
