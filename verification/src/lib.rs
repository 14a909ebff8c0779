//! Recognition and export of mathematical content.
//!
//! The library validates and classifies raw image bytes, models the bounded
//! retry policy of the remote recognition service, post-validates recognized
//! results with confidence gating, and renders recognized content into the
//! supported textual output formats with offset-safe formula splicing.
//!
//! Confidence scores are held in thousandths: the unit interval `[0.0, 1.0]`
//! is represented by the integers `0 ..= 1000` (see [`CONFIDENCE_UNIT`]).
use vstd::prelude::*;

pub mod api_client;
pub mod config_manager;
mod clock;
pub mod encoding;
pub mod error;
pub mod export_manager;
pub mod image_processor;
pub mod recognition_engine;
pub mod text;

pub use error::{MathSeekError, MathSeekResult};

use text::{starts_with_spec, str_starts_with, str_eq};

verus! {

/// One whole unit of confidence: confidence values are thousandths, so `1000`
/// stands for a confidence of exactly 1.
pub const CONFIDENCE_UNIT: i32 = 1000;

/// Whether recognized content is a single formula or a multi-section document.
#[derive(Debug, Clone, Copy, PartialEq, Eq, Hash, Structural)]
pub enum InputType {
    SingleFormula,
    Document,
}

/// A target output format for exporting recognized content.
#[derive(Debug, Clone, Copy, PartialEq, Eq, Structural)]
pub enum ExportFormat {
    LaTeX,
    LaTeXInline,
    LaTeXBlock,
    Markdown,
    MarkdownInline,
    MarkdownBlock,
    DOCX,
    HTML,
    PlainText,
}

/// The client-side math renderer the user prefers.
#[derive(Debug, Clone, Copy, PartialEq, Eq, Structural)]
pub enum RenderEngine {
    MathJax,
    KaTeX,
}

/// The delimiter style used for inline formulas in Markdown.
#[derive(Debug, Clone, Copy, PartialEq, Eq, Structural)]
pub enum InlineFormat {
    /// `$...$`
    Dollar,
    /// `\(...\)`
    Parentheses,
}

/// The delimiter style used for block formulas in Markdown.
#[derive(Debug, Clone, Copy, PartialEq, Eq, Structural)]
pub enum BlockFormat {
    /// `$$...$$`
    DoubleDollar,
    /// `\[...\]`
    Brackets,
}

/// The pair of Markdown formula delimiter styles.
#[derive(Debug, Clone, Copy, PartialEq, Eq, Structural)]
pub struct MarkdownFormulaFormat {
    pub inline: InlineFormat,
    pub block: BlockFormat,
}

/// The default export format chosen for each input type. This replaces a
/// string-keyed hash map with one explicit slot per input type.
#[derive(Debug, Clone, Copy, PartialEq, Eq, Structural)]
pub struct ExportFormatMap {
    pub single_formula: Option<ExportFormat>,
    pub document: Option<ExportFormat>,
}

impl ExportFormatMap {
    /// An empty map: no default chosen for either input type.
    pub fn new() -> (r: Self)
        ensures
            r.single_formula is None,
            r.document is None,
    {
        ExportFormatMap { single_formula: None, document: None }
    }

    /// Sets the default format for one input type.
    pub fn insert(&mut self, input_type: InputType, format: ExportFormat)
        ensures
            input_type is SingleFormula ==> *final(self) == (ExportFormatMap {
                single_formula: Some(format),
                ..*old(self)
            }),
            input_type is Document ==> *final(self) == (ExportFormatMap {
                document: Some(format),
                ..*old(self)
            }),
    {
        match input_type {
            InputType::SingleFormula => self.single_formula = Some(format),
            InputType::Document => self.document = Some(format),
        }
    }

    /// The default format recorded for `input_type`, if any.
    pub fn get(&self, input_type: &InputType) -> (r: Option<ExportFormat>)
        ensures
            input_type is SingleFormula ==> r == self.single_formula,
            input_type is Document ==> r == self.document,
    {
        match input_type {
            InputType::SingleFormula => self.single_formula,
            InputType::Document => self.document,
        }
    }
}

/// The application configuration handed in by the caller.
#[derive(Debug, Clone)]
pub struct AppConfig {
    pub api_endpoint: String,
    pub api_key: String,
    pub default_export_format: ExportFormatMap,
    pub render_engine: RenderEngine,
    pub markdown_formula_format: MarkdownFormulaFormat,
}

/// A recognized result: content, confidence (thousandths), classification,
/// creation timestamp, and the top-level best LaTeX guess.
#[derive(Debug, Clone)]
pub struct FormulaResult {
    pub latex: String,
    pub confidence: i32,
    pub timestamp: u64,
    pub input_type: InputType,
    pub content: ResultContent,
}

/// The recognized content itself: one formula, or a structured document.
#[derive(Debug, Clone)]
pub enum ResultContent {
    SingleFormula(String),
    Document(DocumentContent),
}

/// A multi-section document of recognized content.
#[derive(Debug, Clone)]
pub struct DocumentContent {
    pub title: Option<String>,
    pub sections: Vec<DocumentSection>,
}

/// One section: optional heading, free-form body text, and the formulas to be
/// spliced into the body text.
#[derive(Debug, Clone)]
pub struct DocumentSection {
    pub heading: Option<String>,
    pub text: String,
    pub formulas: Vec<FormulaBlock>,
}

/// A formula occurrence: its source text, the character offset in the owning
/// section's body text where it is spliced, and its inline/block flag.
#[derive(Debug, Clone)]
pub struct FormulaBlock {
    pub latex: String,
    pub position: usize,
    pub is_inline: bool,
}

/// Semantic classification of a formula returned by the analysis call.
#[derive(Debug, Clone)]
pub struct AnalysisResult {
    pub formula_type: String,
    pub description: String,
    pub usage: String,
    pub examples: Vec<String>,
}

/// The coarse structural layout detected in an image.
#[derive(Debug, Clone)]
pub struct ImageLayout {
    pub has_multiple_formulas: bool,
    pub has_text_content: bool,
    pub formula_regions: Vec<Region>,
    pub text_regions: Vec<Region>,
}

/// A rectangular region of an image, in pixels.
#[derive(Debug, Clone, Copy, PartialEq, Eq, Structural)]
pub struct Region {
    pub x: u32,
    pub y: u32,
    pub width: u32,
    pub height: u32,
}

/// Availability of the collaborating subsystems.
#[derive(Debug, Clone, Copy, PartialEq, Eq, Structural)]
pub struct SystemStatus {
    pub clipboard_available: bool,
    pub screenshot_available: bool,
    pub api_configured: bool,
    pub render_engine_ready: bool,
}

impl InputType {
    /// The wire name of this input type.
    pub fn as_string(&self) -> (r: String)
        ensures
            self is SingleFormula ==> r@ == "SingleFormula"@,
            self is Document ==> r@ == "Document"@,
    {
        match self {
            InputType::SingleFormula => String::from_str("SingleFormula"),
            InputType::Document => String::from_str("Document"),
        }
    }

    /// The input type a wire name denotes, if any.
    pub open spec fn spec_of_name(s: Seq<char>) -> Option<InputType> {
        if s == "SingleFormula"@ {
            Some(InputType::SingleFormula)
        } else if s == "Document"@ {
            Some(InputType::Document)
        } else {
            None
        }
    }

    /// Parses a wire name back into an input type; any other string is a
    /// serialization error naming the offending value.
    pub fn try_from_string(s: &str) -> (r: Result<InputType, MathSeekError>)
        ensures
            Self::spec_of_name(s@) matches Some(t) ==> r == Ok::<InputType, MathSeekError>(t),
            Self::spec_of_name(s@) is None ==> (r matches Err(
                MathSeekError::SerializationError(m),
            ) && m@ == "Invalid InputType: "@ + s@),
    {
        if str_eq(s, "SingleFormula") {
            Ok(InputType::SingleFormula)
        } else if str_eq(s, "Document") {
            Ok(InputType::Document)
        } else {
            Err(MathSeekError::SerializationError(
                String::from_str("Invalid InputType: ").concat(s),
            ))
        }
    }
}

impl ExportFormat {
    /// The wire name of this format.
    pub fn as_string(&self) -> (r: String)
        ensures
            r@ == self.spec_name(),
    {
        match self {
            ExportFormat::LaTeX => String::from_str("LaTeX"),
            ExportFormat::LaTeXInline => String::from_str("LaTeXInline"),
            ExportFormat::LaTeXBlock => String::from_str("LaTeXBlock"),
            ExportFormat::Markdown => String::from_str("Markdown"),
            ExportFormat::MarkdownInline => String::from_str("MarkdownInline"),
            ExportFormat::MarkdownBlock => String::from_str("MarkdownBlock"),
            ExportFormat::DOCX => String::from_str("DOCX"),
            ExportFormat::HTML => String::from_str("HTML"),
            ExportFormat::PlainText => String::from_str("PlainText"),
        }
    }

    /// The wire name of each format.
    pub open spec fn spec_name(&self) -> Seq<char> {
        match self {
            ExportFormat::LaTeX => "LaTeX"@,
            ExportFormat::LaTeXInline => "LaTeXInline"@,
            ExportFormat::LaTeXBlock => "LaTeXBlock"@,
            ExportFormat::Markdown => "Markdown"@,
            ExportFormat::MarkdownInline => "MarkdownInline"@,
            ExportFormat::MarkdownBlock => "MarkdownBlock"@,
            ExportFormat::DOCX => "DOCX"@,
            ExportFormat::HTML => "HTML"@,
            ExportFormat::PlainText => "PlainText"@,
        }
    }

    /// The format a wire name denotes, if any.
    pub open spec fn spec_of_name(s: Seq<char>) -> Option<ExportFormat> {
        if s == "LaTeX"@ {
            Some(ExportFormat::LaTeX)
        } else if s == "LaTeXInline"@ {
            Some(ExportFormat::LaTeXInline)
        } else if s == "LaTeXBlock"@ {
            Some(ExportFormat::LaTeXBlock)
        } else if s == "Markdown"@ {
            Some(ExportFormat::Markdown)
        } else if s == "MarkdownInline"@ {
            Some(ExportFormat::MarkdownInline)
        } else if s == "MarkdownBlock"@ {
            Some(ExportFormat::MarkdownBlock)
        } else if s == "DOCX"@ {
            Some(ExportFormat::DOCX)
        } else if s == "HTML"@ {
            Some(ExportFormat::HTML)
        } else if s == "PlainText"@ {
            Some(ExportFormat::PlainText)
        } else {
            None
        }
    }

    /// Parses a wire name back into a format; any other string is a
    /// serialization error naming the offending value.
    pub fn try_from_string(s: &str) -> (r: Result<ExportFormat, MathSeekError>)
        ensures
            Self::spec_of_name(s@) matches Some(f) ==> r == Ok::<ExportFormat, MathSeekError>(f),
            Self::spec_of_name(s@) is None ==> (r matches Err(
                MathSeekError::SerializationError(m),
            ) && m@ == "Invalid ExportFormat: "@ + s@),
    {
        if str_eq(s, "LaTeX") {
            Ok(ExportFormat::LaTeX)
        } else if str_eq(s, "LaTeXInline") {
            Ok(ExportFormat::LaTeXInline)
        } else if str_eq(s, "LaTeXBlock") {
            Ok(ExportFormat::LaTeXBlock)
        } else if str_eq(s, "Markdown") {
            Ok(ExportFormat::Markdown)
        } else if str_eq(s, "MarkdownInline") {
            Ok(ExportFormat::MarkdownInline)
        } else if str_eq(s, "MarkdownBlock") {
            Ok(ExportFormat::MarkdownBlock)
        } else if str_eq(s, "DOCX") {
            Ok(ExportFormat::DOCX)
        } else if str_eq(s, "HTML") {
            Ok(ExportFormat::HTML)
        } else if str_eq(s, "PlainText") {
            Ok(ExportFormat::PlainText)
        } else {
            Err(MathSeekError::SerializationError(
                String::from_str("Invalid ExportFormat: ").concat(s),
            ))
        }
    }
}

impl Default for MarkdownFormulaFormat {
    /// Dollars inline, double dollars for blocks.
    fn default() -> (r: Self)
        ensures
            r.inline is Dollar,
            r.block is DoubleDollar,
    {
        MarkdownFormulaFormat { inline: InlineFormat::Dollar, block: BlockFormat::DoubleDollar }
    }
}

impl Default for AppConfig {
    /// Empty endpoint and key, LaTeX for single formulas, Markdown for
    /// documents, MathJax rendering, default Markdown delimiters.
    fn default() -> (r: Self)
        ensures
            r.api_endpoint@.len() == 0,
            r.api_key@.len() == 0,
            r.default_export_format.single_formula == Some(ExportFormat::LaTeX),
            r.default_export_format.document == Some(ExportFormat::Markdown),
            r.render_engine is MathJax,
            r.markdown_formula_format.inline is Dollar,
            r.markdown_formula_format.block is DoubleDollar,
    {
        let mut default_formats = ExportFormatMap::new();
        default_formats.insert(InputType::SingleFormula, ExportFormat::LaTeX);
        default_formats.insert(InputType::Document, ExportFormat::Markdown);
        AppConfig {
            api_endpoint: String::new(),
            api_key: String::new(),
            default_export_format: default_formats,
            render_engine: RenderEngine::MathJax,
            markdown_formula_format: MarkdownFormulaFormat::default(),
        }
    }
}

/// Whether a confidence value (in thousandths) lies in the unit interval.
pub open spec fn confidence_in_range(c: int) -> bool {
    0 <= c <= CONFIDENCE_UNIT
}

/// Whether an application configuration is complete: endpoint and key set,
/// endpoint an http(s) URL.
pub open spec fn app_config_valid(c: AppConfig) -> bool {
    &&& c.api_endpoint@.len() > 0
    &&& c.api_key@.len() > 0
    &&& (starts_with_spec(c.api_endpoint@, "http://"@) || starts_with_spec(
        c.api_endpoint@,
        "https://"@,
    ))
}

impl AppConfig {
    /// Rejects a configuration with an empty endpoint, an empty key, or an
    /// endpoint that is not an http(s) URL.
    pub fn validate(&self) -> (r: MathSeekResult<()>)
        ensures
            r is Ok <==> app_config_valid(*self),
            self.api_endpoint@.len() == 0 ==> (r matches Err(MathSeekError::ConfigError(m))
                && m@ == "API endpoint cannot be empty"@),
            self.api_endpoint@.len() > 0 && self.api_key@.len() == 0 ==> (r matches Err(
                MathSeekError::ConfigError(m),
            ) && m@ == "API key cannot be empty"@),
            self.api_endpoint@.len() > 0 && self.api_key@.len() > 0 && !app_config_valid(*self)
                ==> (r matches Err(MathSeekError::ConfigError(m))
                && m@ == "API endpoint must be a valid URL"@),
    {
        if self.api_endpoint.as_str().unicode_len() == 0 {
            return Err(MathSeekError::ConfigError(
                String::from_str("API endpoint cannot be empty"),
            ));
        }
        if self.api_key.as_str().unicode_len() == 0 {
            return Err(MathSeekError::ConfigError(String::from_str("API key cannot be empty")));
        }
        if !str_starts_with(self.api_endpoint.as_str(), "http://") && !str_starts_with(
            self.api_endpoint.as_str(),
            "https://",
        ) {
            return Err(MathSeekError::ConfigError(
                String::from_str("API endpoint must be a valid URL"),
            ));
        }
        Ok(())
    }
}

impl FormulaResult {
    /// A freshly recognized single formula: the top-level guess and the
    /// content both hold `latex`, and the timestamp is the time of creation.
    pub fn new_single_formula(latex: String, confidence: i32) -> (r: Self)
        ensures
            r.latex == latex,
            r.confidence == confidence,
            r.input_type is SingleFormula,
            r.content matches ResultContent::SingleFormula(f) && f == latex,
    {
        FormulaResult {
            latex: latex.clone(),
            confidence,
            timestamp: clock::now_unix_secs(),
            input_type: InputType::SingleFormula,
            content: ResultContent::SingleFormula(latex),
        }
    }

    /// A freshly recognized document with the given top-level guess.
    pub fn new_document(latex: String, confidence: i32, document: DocumentContent) -> (r: Self)
        ensures
            r.latex == latex,
            r.confidence == confidence,
            r.input_type is Document,
            r.content matches ResultContent::Document(d) && d == document,
    {
        FormulaResult {
            latex,
            confidence,
            timestamp: clock::now_unix_secs(),
            input_type: InputType::Document,
            content: ResultContent::Document(document),
        }
    }

    /// Structural validity: non-empty top-level guess, confidence in range.
    pub open spec fn spec_valid(&self) -> bool {
        self.latex@.len() > 0 && confidence_in_range(self.confidence as int)
    }

    /// Rejects an empty top-level guess or a confidence outside the unit
    /// interval.
    pub fn validate(&self) -> (r: MathSeekResult<()>)
        ensures
            r is Ok <==> self.spec_valid(),
            self.latex@.len() == 0 ==> (r matches Err(MathSeekError::ApiError(m))
                && m@ == "LaTeX content cannot be empty"@),
            self.latex@.len() > 0 && !confidence_in_range(self.confidence as int) ==> (r matches Err(
                MathSeekError::ApiError(m),
            ) && m@ == "Confidence must be between 0.0 and 1.0"@),
    {
        if self.latex.as_str().unicode_len() == 0 {
            return Err(MathSeekError::ApiError(String::from_str("LaTeX content cannot be empty")));
        }
        if self.confidence < 0 || self.confidence > CONFIDENCE_UNIT {
            return Err(MathSeekError::ApiError(
                String::from_str("Confidence must be between 0.0 and 1.0"),
            ));
        }
        Ok(())
    }
}

/// Structural validity of one section: it must have body text or at least one
/// formula.
pub open spec fn section_valid(s: DocumentSection) -> bool {
    s.text@.len() > 0 || s.formulas@.len() > 0
}

/// Every formula's offset fits in the owning section's body text, so splicing
/// is defined.
pub open spec fn section_spliceable(s: DocumentSection) -> bool {
    forall|i: int| 0 <= i < s.formulas@.len() ==> #[trigger] s.formulas@[i].position <= s.text@.len()
}

/// Structural validity of a document: at least one section, each valid.
pub open spec fn document_valid(d: DocumentContent) -> bool {
    &&& d.sections@.len() > 0
    &&& forall|i: int| 0 <= i < d.sections@.len() ==> section_valid(#[trigger] d.sections@[i])
}

/// Splicing is defined for every section of the document.
pub open spec fn document_spliceable(d: DocumentContent) -> bool {
    forall|i: int| 0 <= i < d.sections@.len() ==> section_spliceable(#[trigger] d.sections@[i])
}

impl DocumentContent {
    /// An empty document with the given title.
    pub fn new(title: Option<String>) -> (r: Self)
        ensures
            r.title == title,
            r.sections@.len() == 0,
    {
        DocumentContent { title, sections: Vec::new() }
    }

    /// Appends a section.
    pub fn add_section(&mut self, section: DocumentSection)
        ensures
            final(self).title == old(self).title,
            final(self).sections@ == old(self).sections@.push(section),
    {
        self.sections.push(section);
    }

    /// Rejects a document with no sections, with an invalid section, or
    /// with a fragment whose offset falls outside its section's body text.
    pub fn validate(&self) -> (r: MathSeekResult<()>)
        ensures
            r is Ok <==> (document_valid(*self) && document_spliceable(*self)),
            self.sections@.len() == 0 ==> (r matches Err(MathSeekError::ApiError(m))
                && m@ == "Document must have at least one section"@),
            self.sections@.len() > 0 && !(document_valid(*self) && document_spliceable(*self))
                ==> (r matches Err(MathSeekError::ApiError(_))),
    {
        if self.sections.len() == 0 {
            return Err(MathSeekError::ApiError(
                String::from_str("Document must have at least one section"),
            ));
        }
        let mut i: usize = 0;
        while i < self.sections.len()
            invariant
                0 <= i <= self.sections@.len(),
                forall|k: int|
                    0 <= k < i ==> section_valid(#[trigger] self.sections@[k])
                        && section_spliceable(self.sections@[k]),
            decreases self.sections@.len() - i,
        {
            match self.sections[i].validate() {
                Ok(()) => {},
                Err(e) => {
                    return Err(e);
                },
            }
            i = i + 1;
        }
        Ok(())
    }
}

impl DocumentSection {
    /// A section with no formulas yet.
    pub fn new(heading: Option<String>, text: String) -> (r: Self)
        ensures
            r.heading == heading,
            r.text == text,
            r.formulas@.len() == 0,
    {
        DocumentSection { heading, text, formulas: Vec::new() }
    }

    /// Appends a formula.
    pub fn add_formula(&mut self, formula: FormulaBlock)
        ensures
            final(self).heading == old(self).heading,
            final(self).text == old(self).text,
            final(self).formulas@ == old(self).formulas@.push(formula),
    {
        self.formulas.push(formula);
    }

    /// Rejects a section with neither text nor formulas, or with a fragment
    /// whose offset falls outside the body text.
    pub fn validate(&self) -> (r: MathSeekResult<()>)
        ensures
            r is Ok <==> (section_valid(*self) && section_spliceable(*self)),
            !section_valid(*self) ==> (r matches Err(MathSeekError::ApiError(m))
                && m@ == "Section must have either text or formulas"@),
            section_valid(*self) && !section_spliceable(*self) ==> (r matches Err(
                MathSeekError::ApiError(m),
            ) && m@ == "Formula position exceeds section text length"@),
    {
        let text_len: usize = self.text.as_str().unicode_len();
        if text_len == 0 && self.formulas.len() == 0 {
            return Err(MathSeekError::ApiError(
                String::from_str("Section must have either text or formulas"),
            ));
        }
        let mut j: usize = 0;
        while j < self.formulas.len()
            invariant
                0 <= j <= self.formulas@.len(),
                text_len == self.text@.len(),
                forall|k: int|
                    0 <= k < j ==> #[trigger] self.formulas@[k].position <= self.text@.len(),
            decreases self.formulas@.len() - j,
        {
            if self.formulas[j].position > text_len {
                return Err(MathSeekError::ApiError(
                    String::from_str("Formula position exceeds section text length"),
                ));
            }
            j = j + 1;
        }
        Ok(())
    }
}

impl FormulaBlock {
    /// An equal copy of this formula block.
    pub fn duplicate(&self) -> (r: Self)
        ensures
            r == *self,
    {
        FormulaBlock {
            latex: self.latex.clone(),
            position: self.position,
            is_inline: self.is_inline,
        }
    }

    /// A formula at the given character offset.
    pub fn new(latex: String, position: usize, is_inline: bool) -> (r: Self)
        ensures
            r.latex == latex,
            r.position == position,
            r.is_inline == is_inline,
    {
        FormulaBlock { latex, position, is_inline }
    }
}

/// The detection confidence derived from a layout: a base of one half, raised
/// by the layout's document indicators and capped at one.
pub open spec fn detection_confidence_spec(l: ImageLayout) -> int {
    let raw = 500 + (if l.has_multiple_formulas {
        300int
    } else {
        0int
    }) + (if l.has_text_content {
        200int
    } else {
        0int
    }) + (if l.formula_regions@.len() + l.text_regions@.len() > 3 {
        100int
    } else {
        0int
    });
    if raw > CONFIDENCE_UNIT {
        CONFIDENCE_UNIT as int
    } else {
        raw
    }
}

/// How confidently the layout analysis classified the image, in thousandths.
pub fn calculate_detection_confidence(layout: &ImageLayout) -> (r: i32)
    ensures
        r == detection_confidence_spec(*layout),
        confidence_in_range(r as int),
{
    let mut confidence: i32 = 500;
    if layout.has_multiple_formulas {
        confidence = confidence + 300;
    }
    if layout.has_text_content {
        confidence = confidence + 200;
    }
    let total_regions: u128 = layout.formula_regions.len() as u128
        + layout.text_regions.len() as u128;
    if total_regions > 3 {
        confidence = confidence + 100;
    }
    if confidence > CONFIDENCE_UNIT {
        confidence = CONFIDENCE_UNIT;
    }
    confidence
}

} // verus!
