use mathseek::{
    AppConfig, BlockFormat, DocumentContent, DocumentSection, ExportFormat, FormulaBlock,
    FormulaResult, InlineFormat, InputType, RenderEngine, ResultContent,
};

#[test]
fn test_app_config_default() {
    let config = AppConfig::default();

    assert!(config.api_endpoint.is_empty());
    assert!(config.api_key.is_empty());
    assert_eq!(config.render_engine, RenderEngine::MathJax);
    assert_eq!(config.markdown_formula_format.inline, InlineFormat::Dollar);
    assert_eq!(config.markdown_formula_format.block, BlockFormat::DoubleDollar);

    assert_eq!(
        config.default_export_format.get(&InputType::SingleFormula),
        Some(ExportFormat::LaTeX)
    );
    assert_eq!(
        config.default_export_format.get(&InputType::Document),
        Some(ExportFormat::Markdown)
    );
}

#[test]
fn test_formula_result_creation() {
    let latex = "E = mc^2".to_string();
    let confidence = 950;

    let result = FormulaResult::new_single_formula(latex.clone(), confidence);

    assert_eq!(result.latex, latex);
    assert_eq!(result.confidence, confidence);
    assert_eq!(result.input_type, InputType::SingleFormula);

    match result.content {
        ResultContent::SingleFormula(formula) => assert_eq!(formula, latex),
        _ => panic!("Expected SingleFormula content"),
    }
}

#[test]
fn test_document_content_creation() {
    let mut document = DocumentContent::new(Some("Test Document".to_string()));

    let mut section = DocumentSection::new(
        Some("Introduction".to_string()),
        "This is a test.".to_string(),
    );
    section.add_formula(FormulaBlock::new("x = y + z".to_string(), 15, true));

    document.add_section(section);

    assert_eq!(document.title, Some("Test Document".to_string()));
    assert_eq!(document.sections.len(), 1);
    assert_eq!(document.sections[0].heading, Some("Introduction".to_string()));
    assert_eq!(document.sections[0].formulas.len(), 1);
    assert_eq!(document.sections[0].formulas[0].latex, "x = y + z");
    assert!(document.sections[0].formulas[0].is_inline);
}

#[test]
fn test_app_config_validation() {
    let mut config = AppConfig::default();

    // Should fail with empty endpoint and key
    assert!(config.validate().is_err());

    // Set endpoint but not key
    config.api_endpoint = "https://api.example.com".to_string();
    assert!(config.validate().is_err());

    // Set key but invalid endpoint
    config.api_key = "test-key".to_string();
    config.api_endpoint = "invalid-url".to_string();
    assert!(config.validate().is_err());

    // Valid configuration
    config.api_endpoint = "https://api.example.com".to_string();
    assert!(config.validate().is_ok());
}

#[test]
fn test_formula_result_validation() {
    let mut result = FormulaResult::new_single_formula("E = mc^2".to_string(), 950);

    // Valid result
    assert!(result.validate().is_ok());

    // Invalid confidence
    result.confidence = 1500;
    assert!(result.validate().is_err());

    result.confidence = -100;
    assert!(result.validate().is_err());

    // Empty latex
    result.confidence = 950;
    result.latex = "".to_string();
    assert!(result.validate().is_err());
}

#[test]
fn test_document_validation() {
    let mut document = DocumentContent::new(None);

    // Empty document should fail
    assert!(document.validate().is_err());

    // Add empty section
    let empty_section = DocumentSection::new(None, "".to_string());
    document.add_section(empty_section);
    assert!(document.validate().is_err());

    // Add valid section
    document.sections.clear();
    let valid_section = DocumentSection::new(Some("Title".to_string()), "Content".to_string());
    document.add_section(valid_section);
    assert!(document.validate().is_ok());
}

#[test]
fn test_string_conversions() {
    // InputType conversions
    let input_type = InputType::SingleFormula;
    let input_string: String = input_type.as_string();
    assert_eq!(input_string, "SingleFormula");

    let parsed_input: InputType = InputType::try_from_string(&input_string).unwrap();
    assert_eq!(parsed_input, InputType::SingleFormula);

    // ExportFormat conversions
    let export_format = ExportFormat::LaTeX;
    let format_string: String = export_format.as_string();
    assert_eq!(format_string, "LaTeX");

    let parsed_format: ExportFormat = ExportFormat::try_from_string(&format_string).unwrap();
    assert_eq!(parsed_format, ExportFormat::LaTeX);

    // Invalid conversions
    let invalid_input = InputType::try_from_string("InvalidType");
    assert!(invalid_input.is_err());

    let invalid_format = ExportFormat::try_from_string("InvalidFormat");
    assert!(invalid_format.is_err());
}

#[test]
fn test_input_type_round_trip_names() {
    for t in [InputType::SingleFormula, InputType::Document] {
        let s = t.as_string();
        assert_eq!(InputType::try_from_string(&s).unwrap(), t);
    }
    let err = InputType::try_from_string("singleformula").unwrap_err();
    match err {
        mathseek::MathSeekError::SerializationError(m) => {
            assert_eq!(m, "Invalid InputType: singleformula");
        }
        _ => panic!("expected a serialization error"),
    }
}

#[test]
fn test_export_format_names_complete() {
    let all = [
        ExportFormat::LaTeX,
        ExportFormat::LaTeXInline,
        ExportFormat::LaTeXBlock,
        ExportFormat::Markdown,
        ExportFormat::MarkdownInline,
        ExportFormat::MarkdownBlock,
        ExportFormat::DOCX,
        ExportFormat::HTML,
        ExportFormat::PlainText,
    ];
    for f in all {
        let s = f.as_string();
        assert_eq!(ExportFormat::try_from_string(&s).unwrap(), f);
    }
}

#[test]
fn test_error_display_labels() {
    let e = mathseek::MathSeekError::ConfigError("API key cannot be empty".to_string());
    assert_eq!(e.to_display_string(), "配置错误: API key cannot be empty");
    assert_eq!(e.message(), "API key cannot be empty");
}

#[test]
fn test_section_validation_rejects_out_of_range_offset() {
    // a fragment offset past the end of the body text violates the model
    // invariant and is rejected
    let mut section = DocumentSection::new(None, "abc".to_string());
    section.add_formula(FormulaBlock::new("x".to_string(), 4, true));
    match section.validate().unwrap_err() {
        mathseek::MathSeekError::ApiError(m) => {
            assert_eq!(m, "Formula position exceeds section text length");
        }
        _ => panic!("expected an api error"),
    }

    let mut doc = DocumentContent::new(None);
    doc.add_section(section);
    assert!(doc.validate().is_err());

    // the boundary offset (end of text) is allowed
    let mut ok_section = DocumentSection::new(None, "abc".to_string());
    ok_section.add_formula(FormulaBlock::new("x".to_string(), 3, true));
    assert!(ok_section.validate().is_ok());
}
