use mathseek::export_manager::{ExportConfig, ExportManager};
use mathseek::{
    AppConfig, BlockFormat, DocumentContent, DocumentSection, ExportFormat, FormulaBlock,
    FormulaResult, InlineFormat, InputType,
};

fn create_test_config() -> AppConfig {
    AppConfig::default()
}

fn create_test_single_formula() -> FormulaResult {
    FormulaResult::new_single_formula("x^2 + y^2 = r^2".to_string(), 950)
}

#[test]
fn test_export_single_formula_to_latex() {
    let config = create_test_config();
    let manager = ExportManager::new(config);
    let formula = create_test_single_formula();
    let export_config = ExportConfig::default();

    let result = manager.export_formula_result(&formula, &export_config).unwrap();
    assert_eq!(result.content, "x^2 + y^2 = r^2");
    assert_eq!(result.format, ExportFormat::LaTeX);
}

#[test]
fn test_export_single_formula_to_markdown() {
    let config = create_test_config();
    let manager = ExportManager::new(config);
    let formula = create_test_single_formula();
    let export_config = ExportConfig {
        format: ExportFormat::Markdown,
        ..Default::default()
    };

    let result = manager.export_formula_result(&formula, &export_config).unwrap();
    assert!(result.content.contains("x^2 + y^2 = r^2"));
}

#[test]
fn test_get_available_formats() {
    let config = create_test_config();
    let manager = ExportManager::new(config);

    let single_formats = manager.get_available_formats(&InputType::SingleFormula);
    assert!(single_formats.contains(&ExportFormat::LaTeX));
    assert!(single_formats.contains(&ExportFormat::Markdown));

    let doc_formats = manager.get_available_formats(&InputType::Document);
    assert!(doc_formats.contains(&ExportFormat::LaTeX));
    assert!(doc_formats.contains(&ExportFormat::HTML));
}

#[test]
fn test_single_formula_markdown_uses_inline_style() {
    // a single formula at confidence 0.95 exports to Markdown with the
    // default inline delimiters, and to plain text verbatim
    let manager = ExportManager::new(AppConfig::default());
    let formula = FormulaResult::new_single_formula("E = mc^2".to_string(), 950);

    let md = manager
        .export_formula_result(
            &formula,
            &ExportConfig { format: ExportFormat::Markdown, ..Default::default() },
        )
        .unwrap();
    assert_eq!(md.content, "$E = mc^2$");

    let plain = manager
        .export_formula_result(
            &formula,
            &ExportConfig { format: ExportFormat::PlainText, ..Default::default() },
        )
        .unwrap();
    assert_eq!(plain.content, "E = mc^2");
}

fn intro_document() -> FormulaResult {
    let mut section = DocumentSection::new(Some("Intro".to_string()), "See x=y below.".to_string());
    section.add_formula(FormulaBlock::new("x=y".to_string(), 4, true));
    let mut doc = DocumentContent::new(None);
    doc.add_section(section);
    FormulaResult::new_document("See x=y below.".to_string(), 900, doc)
}

#[test]
fn test_document_latex_splices_at_offset() {
    // heading "Intro", body "See x=y below.", inline fragment "x=y" at
    // offset 4: the LaTeX export splices "$x=y$" at character 4 under
    // \section{Intro}
    let manager = ExportManager::new(AppConfig::default());
    let result = manager
        .export_formula_result(
            &intro_document(),
            &ExportConfig { format: ExportFormat::LaTeX, ..Default::default() },
        )
        .unwrap();
    // the markup is inserted at character 4 of the body text
    assert!(result.content.contains("\\section{Intro}\n\nSee $x=y$x=y below.\n\n"));
    assert!(result.content.starts_with("\\documentclass{article}\n"));
    assert!(result.content.ends_with("\\end{document}"));
    assert_eq!(result.metadata.formula_count, 1);
    assert_eq!(result.metadata.original_input_type, InputType::Document);
}

#[test]
fn test_splicing_descending_order_is_input_order_independent() {
    // two fragments at distinct offsets: whatever order the fragment list
    // arrives in, the output is the descending-offset application; the
    // naive ascending application corrupts the second offset
    let body = "abcdefghij".to_string();
    let f_low = FormulaBlock::new("L".to_string(), 2, true);
    let f_high = FormulaBlock::new("H".to_string(), 5, true);

    let build = |formulas: Vec<FormulaBlock>| {
        let mut section = DocumentSection::new(None, body.clone());
        for f in formulas {
            section.add_formula(f);
        }
        let mut doc = DocumentContent::new(None);
        doc.add_section(section);
        FormulaResult::new_document(body.clone(), 900, doc)
    };
    let manager = ExportManager::new(AppConfig::default());
    let cfg = ExportConfig { format: ExportFormat::Markdown, ..Default::default() };

    let ascending_input = manager
        .export_formula_result(&build(vec![f_low.clone(), f_high.clone()]), &cfg)
        .unwrap();
    let descending_input = manager
        .export_formula_result(&build(vec![f_high.clone(), f_low.clone()]), &cfg)
        .unwrap();
    assert_eq!(ascending_input.content, descending_input.content);

    // the correct descending-offset application
    assert_eq!(ascending_input.content, "ab$L$cde$H$fghij\n\n");

    // the naive ascending application shifts the second offset
    let mut naive = body.clone();
    naive.insert_str(2, "$L$");
    naive.insert_str(5, "$H$");
    let mut naive_out = naive.clone();
    naive_out.push_str("\n\n");
    assert_ne!(ascending_input.content, naive_out);
}

#[test]
fn test_latex_export_round_trip_recovers_formula() {
    // exporting to a LaTeX variant and stripping the delimiters recovers
    // the formula exactly
    let manager = ExportManager::new(AppConfig::default());
    let formula = FormulaResult::new_single_formula("E = mc^2".to_string(), 950);

    let plain = manager
        .export_formula_result(
            &formula,
            &ExportConfig { format: ExportFormat::LaTeX, ..Default::default() },
        )
        .unwrap();
    assert_eq!(plain.content.trim_matches('$'), "E = mc^2");

    let inline = manager
        .export_formula_result(
            &formula,
            &ExportConfig { format: ExportFormat::LaTeXInline, ..Default::default() },
        )
        .unwrap();
    assert_eq!(inline.content, "$E = mc^2$");
    assert_eq!(inline.content.trim_matches('$'), "E = mc^2");

    let block = manager
        .export_formula_result(
            &formula,
            &ExportConfig { format: ExportFormat::LaTeXBlock, ..Default::default() },
        )
        .unwrap();
    assert_eq!(block.content, "$$E = mc^2$$");
    assert_eq!(block.content.trim_matches('$'), "E = mc^2");
}

#[test]
fn test_markdown_delimiter_styles() {
    let mut config = AppConfig::default();
    config.markdown_formula_format.inline = InlineFormat::Parentheses;
    config.markdown_formula_format.block = BlockFormat::Brackets;
    let manager = ExportManager::new(config);

    let inline = manager.format_formula_for_markdown(
        "a+b",
        true,
        &mathseek::MarkdownFormulaFormat {
            inline: InlineFormat::Parentheses,
            block: BlockFormat::Brackets,
        },
    );
    assert_eq!(inline, "\\(a+b\\)");

    let block = manager.format_formula_for_markdown(
        "$a+b$",
        false,
        &mathseek::MarkdownFormulaFormat {
            inline: InlineFormat::Dollar,
            block: BlockFormat::Brackets,
        },
    );
    assert_eq!(block, "\\[a+b\\]");
}

#[test]
fn test_document_plain_text_numbers_formulas() {
    let mut section = DocumentSection::new(Some("S".to_string()), "Body".to_string());
    section.add_formula(FormulaBlock::new("a=b".to_string(), 0, true));
    section.add_formula(FormulaBlock::new("c=d".to_string(), 2, false));
    let mut doc = DocumentContent::new(Some("T".to_string()));
    doc.add_section(section);
    let result = FormulaResult::new_document("Body".to_string(), 800, doc);

    let manager = ExportManager::new(AppConfig::default());
    let out = manager
        .export_formula_result(
            &result,
            &ExportConfig { format: ExportFormat::PlainText, ..Default::default() },
        )
        .unwrap();
    assert_eq!(
        out.content,
        "T\n=\n\nS\n-\n\nBody\n\nFormulas:\n1. a=b (inline)\n2. c=d (block)\n\n"
    );
    assert_eq!(out.metadata.formula_count, 2);
}

#[test]
fn test_document_docx_placeholder_layout() {
    let mut section = DocumentSection::new(Some("H".to_string()), "Text here".to_string());
    section.add_formula(FormulaBlock::new("x".to_string(), 0, false));
    let mut doc = DocumentContent::new(Some("Title X".to_string()));
    doc.add_section(section);
    let result = FormulaResult::new_document("x".to_string(), 800, doc);

    let manager = ExportManager::new(AppConfig::default());
    let out = manager
        .export_formula_result(
            &result,
            &ExportConfig { format: ExportFormat::DOCX, ..Default::default() },
        )
        .unwrap();
    assert_eq!(
        out.content,
        "DOCX Export:\n\nTitle: Title X\n\nSection 1:\nHeading: H\nText: Text here\nFormula 1: x (block)\n\n"
    );
}

#[test]
fn test_html_export_wraps_formula_and_metadata() {
    let manager = ExportManager::new(AppConfig::default());
    let formula = FormulaResult::new_single_formula("e^x".to_string(), 750);

    let with_meta = manager
        .export_formula_result(
            &formula,
            &ExportConfig { format: ExportFormat::HTML, ..Default::default() },
        )
        .unwrap();
    assert!(with_meta.content.starts_with("<!DOCTYPE html>"));
    assert!(with_meta.content.contains("<div class=\"formula\">\n$$e^x$$\n</div>\n"));
    assert!(with_meta.content.contains("Input Type: SingleFormula<br>"));
    assert!(with_meta.content.contains("Confidence: 0.750<br>"));
    assert!(with_meta.content.ends_with("</body>\n</html>"));

    let without_meta = manager
        .export_formula_result(
            &formula,
            &ExportConfig {
                format: ExportFormat::HTML,
                include_metadata: false,
                ..Default::default()
            },
        )
        .unwrap();
    assert!(!without_meta.content.contains("Confidence:"));
}

#[test]
fn test_html_document_paragraphs() {
    let section = DocumentSection::new(None, "first para\n\nsecond para\n\n   ".to_string());
    let mut doc = DocumentContent::new(None);
    doc.add_section(section);
    let result = FormulaResult::new_document("d".to_string(), 800, doc);

    let manager = ExportManager::new(AppConfig::default());
    let out = manager
        .export_formula_result(
            &result,
            &ExportConfig {
                format: ExportFormat::HTML,
                include_metadata: false,
                ..Default::default()
            },
        )
        .unwrap();
    assert!(out.content.contains("<p>first para</p>\n<p>second para</p>\n"));
}

#[test]
fn test_get_default_format_fallbacks() {
    let mut config = AppConfig::default();
    config.default_export_format = mathseek::ExportFormatMap::new();
    let manager = ExportManager::new(config);
    assert_eq!(manager.get_default_format(&InputType::SingleFormula), ExportFormat::LaTeX);
    assert_eq!(manager.get_default_format(&InputType::Document), ExportFormat::Markdown);

    let mut config2 = AppConfig::default();
    config2.default_export_format.insert(InputType::Document, ExportFormat::HTML);
    let manager2 = ExportManager::new(config2);
    assert_eq!(manager2.get_default_format(&InputType::Document), ExportFormat::HTML);
}

#[test]
fn test_export_metadata_counts() {
    let manager = ExportManager::new(AppConfig::default());
    let formula = FormulaResult::new_single_formula("ab".to_string(), 950);
    let out = manager
        .export_formula_result(&formula, &ExportConfig::default())
        .unwrap();
    assert_eq!(out.metadata.character_count, 2);
    assert_eq!(out.metadata.formula_count, 1);
    assert_eq!(out.metadata.export_format, ExportFormat::LaTeX);
}

#[test]
fn test_is_spliceable_checks_offsets() {
    let mut bad_section = DocumentSection::new(None, "ab".to_string());
    bad_section.add_formula(FormulaBlock::new("x".to_string(), 5, true));
    let mut bad_doc = DocumentContent::new(None);
    bad_doc.add_section(bad_section);
    let bad = FormulaResult::new_document("x".to_string(), 900, bad_doc);
    assert!(!mathseek::export_manager::is_spliceable(&bad));

    let good = FormulaResult::new_single_formula("x".to_string(), 900);
    assert!(mathseek::export_manager::is_spliceable(&good));
}
