//! The recognition orchestrator: validates and preconditions raw image
//! bytes, classifies the input, interprets the remote service's outcomes,
//! post-validates the recognized result (balanced braces, closed math mode,
//! confidence clamping), and applies the confidence gate.
use vstd::prelude::*;

use crate::api_client::{
    ApiClient, AttemptOutcome, RecognitionResponse, attempts_used, attempt_error_rel,
    parse_recognition_rel,
};
use crate::image_processor::{
    ImageProcessor, detected_type_spec, image_dims, luma_pixels, preprocessed_png, suitable_spec,
};
use crate::text::{
    dec_digits, starts_with_spec, thousandths_spec, thousandths_to_string, trim_ws, trim_ws_spec,
    usize_to_string,
};
use crate::{
    AppConfig, CONFIDENCE_UNIT, DocumentContent, DocumentSection, FormulaResult, ImageLayout,
    InputType, MathSeekError, MathSeekResult, ResultContent, confidence_in_range, document_valid,
    section_spliceable, section_valid,
};

verus! {

/// The orchestrator's tunables: the acceptance threshold (thousandths) and
/// the three optional stages.
#[derive(Debug, Clone, Copy, PartialEq, Eq, Structural)]
pub struct RecognitionConfig {
    pub confidence_threshold: i32,
    pub preprocessing_enabled: bool,
    pub auto_type_detection: bool,
    pub validation_enabled: bool,
}

impl Default for RecognitionConfig {
    /// Threshold one half; every optional stage enabled.
    fn default() -> (r: Self)
        ensures
            r.confidence_threshold == 500,
            r.preprocessing_enabled,
            r.auto_type_detection,
            r.validation_enabled,
    {
        RecognitionConfig {
            confidence_threshold: 500,
            preprocessing_enabled: true,
            auto_type_detection: true,
            validation_enabled: true,
        }
    }
}

/// The orchestrator's configuration, as reported to callers.
#[derive(Debug, Clone, Copy, PartialEq, Eq, Structural)]
pub struct RecognitionStats {
    pub confidence_threshold: i32,
    pub preprocessing_enabled: bool,
    pub auto_type_detection: bool,
    pub validation_enabled: bool,
}

// ---------------------------------------------------------------------------
// LaTeX syntax scanning
// ---------------------------------------------------------------------------

/// The scan state after the first `i` characters: the brace depth and
/// whether an inline-math `$` is open.
pub open spec fn scan_state(s: Seq<char>, i: int) -> (int, bool)
    decreases i,
{
    if i <= 0 {
        (0, false)
    } else {
        let prev = scan_state(s, i - 1);
        let c = s[i - 1];
        if c == '{' {
            (prev.0 + 1, prev.1)
        } else if c == '}' {
            (prev.0 - 1, prev.1)
        } else if c == '$' {
            (prev.0, !prev.1)
        } else {
            prev
        }
    }
}

/// Basic LaTeX well-formedness: the brace depth never goes negative, ends at
/// zero, and no inline-math `$` is left open.
pub open spec fn latex_syntax_valid(s: Seq<char>) -> bool {
    &&& forall|i: int| 0 <= i <= s.len() ==> #[trigger] scan_state(s, i).0 >= 0
    &&& scan_state(s, s.len() as int).0 == 0
    &&& !scan_state(s, s.len() as int).1
}

/// The index of the first fragment of the section failing the syntax scan,
/// from position `j` on.
pub open spec fn first_bad_in_section(fs: Seq<crate::FormulaBlock>, j: int) -> Option<int>
    decreases fs.len() - j,
{
    if j < 0 || j >= fs.len() {
        None
    } else if !latex_syntax_valid(fs[j].latex@) {
        Some(j)
    } else {
        first_bad_in_section(fs, j + 1)
    }
}

/// The first fragment of the document failing the syntax scan, in scan
/// order, from section `i` on: the section index and the fragment index.
pub open spec fn first_bad_formula(ss: Seq<DocumentSection>, i: int) -> Option<(int, int)>
    decreases ss.len() - i,
{
    if i < 0 || i >= ss.len() {
        None
    } else {
        match first_bad_in_section(ss[i].formulas@, 0) {
            Some(j) => Some((i, j)),
            None => first_bad_formula(ss, i + 1),
        }
    }
}

/// Whether every fragment of the document passes the syntax scan.
pub open spec fn document_formulas_valid(d: DocumentContent) -> bool {
    forall|i: int, j: int|
        0 <= i < d.sections@.len() && 0 <= j < d.sections@[i].formulas@.len()
            ==> latex_syntax_valid(#[trigger] d.sections@[i].formulas@[j].latex@)
}

/// A confidence clamped into the unit interval.
pub open spec fn clamped(c: int) -> int {
    if c < 0 {
        0
    } else if c > CONFIDENCE_UNIT {
        CONFIDENCE_UNIT as int
    } else {
        c
    }
}

/// The first formula text a single-formula repackaging extracts from the
/// document's sections, scanning from section `i`: the first explicit
/// fragment; else the first body text that looks like a formula (after
/// trimming, it starts with `$` or `\[`); else nothing.
pub open spec fn extract_from(ss: Seq<DocumentSection>, i: int) -> Option<Seq<char>>
    decreases ss.len() - i,
{
    if i < 0 || i >= ss.len() {
        None
    } else if ss[i].formulas@.len() > 0 {
        Some(ss[i].formulas@[0].latex@)
    } else if starts_with_spec(trim_ws_spec(ss[i].text@), seq!['$']) || starts_with_spec(
        trim_ws_spec(ss[i].text@),
        "\\["@,
    ) {
        Some(ss[i].text@)
    } else {
        extract_from(ss, i + 1)
    }
}

/// The layout summary written into an empty leading section.
pub open spec fn region_info_of(fcount: nat, tcount: nat) -> Seq<char> {
    "Detected "@ + dec_digits(fcount) + " formula regions and "@ + dec_digits(tcount)
        + " text regions"@
}

/// The layout summary for a detected layout.
pub open spec fn region_info_spec(layout: ImageLayout) -> Seq<char> {
    region_info_of(layout.formula_regions@.len(), layout.text_regions@.len())
}

/// The recognition orchestrator.
pub struct RecognitionEngine {
    pub api_client: ApiClient,
    pub config: RecognitionConfig,
}

impl RecognitionEngine {
    /// An orchestrator over the application configuration, with the default
    /// tunables.
    pub fn new(app_config: &AppConfig) -> (r: MathSeekResult<RecognitionEngine>)
        ensures
            r matches Ok(e) && e.api_client.config.endpoint == app_config.api_endpoint
                && e.api_client.config.api_key == app_config.api_key
                && e.api_client.config.max_retries == 3 && e.api_client.config.retry_delay_ms
                == 1000 && e.config.confidence_threshold == 500 && e.config.preprocessing_enabled
                && e.config.auto_type_detection && e.config.validation_enabled,
    {
        let api_client = match ApiClient::from_app_config(app_config) {
            Ok(c) => c,
            Err(e) => {
                return Err(e);
            },
        };
        Ok(RecognitionEngine { api_client, config: RecognitionConfig::default() })
    }

    /// An orchestrator with caller-chosen tunables.
    pub fn with_config(app_config: &AppConfig, recognition_config: RecognitionConfig) -> (r:
        MathSeekResult<RecognitionEngine>)
        ensures
            r matches Ok(e) && e.api_client.config.endpoint == app_config.api_endpoint
                && e.api_client.config.api_key == app_config.api_key && e.config
                == recognition_config,
    {
        let api_client = match ApiClient::from_app_config(app_config) {
            Ok(c) => c,
            Err(e) => {
                return Err(e);
            },
        };
        Ok(RecognitionEngine { api_client, config: recognition_config })
    }

    /// Scans a formula: braces must never close below zero and must end
    /// balanced, and `$` toggles a math mode that must end closed.
    pub fn is_valid_latex_syntax(&self, latex: &str) -> (b: bool)
        ensures
            b == latex_syntax_valid(latex@),
    {
        let n: usize = latex.unicode_len();
        let mut braces: i128 = 0;
        let mut in_math_mode: bool = false;
        let mut i: usize = 0;
        while i < n
            invariant
                0 <= i <= n,
                n == latex@.len(),
                braces == scan_state(latex@, i as int).0,
                in_math_mode == scan_state(latex@, i as int).1,
                -(i as int) <= braces <= i as int,
                forall|k: int| 0 <= k <= i ==> #[trigger] scan_state(latex@, k).0 >= 0,
            decreases n - i,
        {
            let c = latex.get_char(i);
            if c == '{' {
                braces = braces + 1;
            } else if c == '}' {
                braces = braces - 1;
                if braces < 0 {
                    proof {
                        assert(scan_state(latex@, i as int + 1).0 < 0);
                        assert(!latex_syntax_valid(latex@));
                    }
                    return false;
                }
            } else if c == '$' {
                in_math_mode = !in_math_mode;
            }
            i = i + 1;
        }
        braces == 0 && !in_math_mode
    }

    /// Rejects an all-whitespace formula or one that fails the syntax scan.
    pub fn validate_single_formula(&self, latex: &str) -> (r: MathSeekResult<()>)
        ensures
            trim_ws_spec(latex@).len() == 0 ==> (r matches Err(MathSeekError::ApiError(m)) && m@
                == "Empty formula content"@),
            trim_ws_spec(latex@).len() > 0 && !latex_syntax_valid(latex@) ==> (r matches Err(
                MathSeekError::ApiError(m),
            ) && m@ == "Invalid LaTeX syntax detected"@),
            r is Ok <==> (trim_ws_spec(latex@).len() > 0 && latex_syntax_valid(latex@)),
    {
        let trimmed = trim_ws(latex);
        if trimmed.as_str().unicode_len() == 0 {
            return Err(MathSeekError::ApiError(String::from_str("Empty formula content")));
        }
        if !self.is_valid_latex_syntax(latex) {
            return Err(MathSeekError::ApiError(String::from_str("Invalid LaTeX syntax detected")));
        }
        Ok(())
    }

    /// Rejects a structurally invalid document or one with a fragment that
    /// fails the syntax scan; the error names the first offending formula in
    /// scan order.
    pub fn validate_document_content(&self, doc: &DocumentContent) -> (r: MathSeekResult<()>)
        ensures
            r is Ok <==> (document_valid(*doc) && crate::document_spliceable(*doc)
                && document_formulas_valid(*doc)),
            r matches Err(e2) ==> e2 is ApiError,
            !(document_valid(*doc) && crate::document_spliceable(*doc)) ==> (r matches Err(
                MathSeekError::ApiError(_),
            )),
            document_valid(*doc) && crate::document_spliceable(*doc) ==> (first_bad_formula(
                doc.sections@,
                0,
            ) matches Some(bad) ==> (
            r matches Err(MathSeekError::ApiError(m)) && m@
                == "Invalid LaTeX syntax in formula: "@
                + doc.sections@[bad.0].formulas@[bad.1].latex@)),
    {
        match doc.validate() {
            Ok(()) => {},
            Err(e) => {
                return Err(e);
            },
        }
        let ghost ss = doc.sections@;
        let mut i: usize = 0;
        while i < doc.sections.len()
            invariant
                0 <= i <= ss.len(),
                ss == doc.sections@,
                forall|a: int, b: int|
                    0 <= a < i && 0 <= b < ss[a].formulas@.len() ==> latex_syntax_valid(
                        #[trigger] ss[a].formulas@[b].latex@,
                    ),
                first_bad_formula(ss, 0) == first_bad_formula(ss, i as int),
            decreases ss.len() - i,
        {
            let section = &doc.sections[i];
            let mut j: usize = 0;
            while j < section.formulas.len()
                invariant
                    0 <= j <= section.formulas@.len(),
                    section == &ss[i as int],
                    0 <= i < ss.len(),
                    ss == doc.sections@,
                    forall|b: int|
                        0 <= b < j ==> latex_syntax_valid(
                            #[trigger] section.formulas@[b].latex@,
                        ),
                    first_bad_in_section(section.formulas@, 0) == first_bad_in_section(
                        section.formulas@,
                        j as int,
                    ),
                    first_bad_formula(ss, 0) == first_bad_formula(ss, i as int),
                decreases section.formulas@.len() - j,
            {
                if !self.is_valid_latex_syntax(section.formulas[j].latex.as_str()) {
                    proof {
                        assert(first_bad_in_section(section.formulas@, j as int) == Some(
                            j as int,
                        ));
                        assert(first_bad_formula(ss, i as int) == Some((i as int, j as int)));
                    }
                    let mut m = String::from_str("Invalid LaTeX syntax in formula: ");
                    m.append(section.formulas[j].latex.as_str());
                    proof {
                        assert(m@ == "Invalid LaTeX syntax in formula: "@ + ss[
                            i as int
                        ].formulas@[j as int].latex@);
                    }
                    return Err(MathSeekError::ApiError(m));
                }
                j = j + 1;
            }
            proof {
                assert(first_bad_in_section(section.formulas@, j as int) is None);
                assert(first_bad_formula(ss, i as int) == first_bad_formula(ss, i as int + 1));
            }
            i = i + 1;
        }
        Ok(())
    }

    /// Post-validates a recognized result in place: the confidence is
    /// clamped into the unit interval (never rejected for being out of
    /// range), then the structure and every formula's syntax are checked.
    pub fn validate_recognition_result(&self, result: &mut FormulaResult) -> (r: MathSeekResult<
        (),
    >)
        ensures
            final(result).confidence as int == clamped(old(result).confidence as int),
            final(result).latex == old(result).latex,
            final(result).content == old(result).content,
            final(result).input_type == old(result).input_type,
            final(result).timestamp == old(result).timestamp,
            r is Ok <==> (old(result).latex@.len() > 0 && (match old(result).content {
                ResultContent::SingleFormula(l) => trim_ws_spec(l@).len() > 0
                    && latex_syntax_valid(l@),
                ResultContent::Document(d) => document_valid(d) && crate::document_spliceable(d)
                    && document_formulas_valid(d),
            })),
            r matches Err(e2) ==> e2 is ApiError,
            old(result).latex@.len() == 0 ==> (r matches Err(MathSeekError::ApiError(m)) && m@
                == "LaTeX content cannot be empty"@),
            old(result).latex@.len() > 0 ==> (match old(result).content {
                ResultContent::SingleFormula(l) => (trim_ws_spec(l@).len() == 0 ==> (r matches Err(
                    MathSeekError::ApiError(m),
                ) && m@ == "Empty formula content"@)) && (trim_ws_spec(l@).len() > 0
                    && !latex_syntax_valid(l@) ==> (r matches Err(MathSeekError::ApiError(m)) && m@
                    == "Invalid LaTeX syntax detected"@)),
                ResultContent::Document(d) => document_valid(d) && crate::document_spliceable(d)
                    ==> (first_bad_formula(d.sections@, 0) matches Some(bad) ==> (r matches Err(
                    MathSeekError::ApiError(m),
                ) && m@ == "Invalid LaTeX syntax in formula: "@
                    + d.sections@[bad.0].formulas@[bad.1].latex@)),
            }),
    {
        if result.confidence > CONFIDENCE_UNIT {
            result.confidence = CONFIDENCE_UNIT;
        } else if result.confidence < 0 {
            result.confidence = 0;
        }
        match result.validate() {
            Ok(()) => {},
            Err(e) => {
                return Err(e);
            },
        }
        match &result.content {
            ResultContent::SingleFormula(latex) => {
                match self.validate_single_formula(latex.as_str()) {
                    Ok(()) => {},
                    Err(e) => {
                        return Err(e);
                    },
                }
            },
            ResultContent::Document(doc) => {
                match self.validate_document_content(doc) {
                    Ok(()) => {},
                    Err(e) => {
                        return Err(e);
                    },
                }
            },
        }
        Ok(())
    }

    /// Extracts a single formula from a document shape: the first explicit
    /// fragment, else a body text that itself looks like a formula.
    pub fn extract_single_formula_from_document(&self, doc: &DocumentContent) -> (r:
        MathSeekResult<String>)
        ensures
            extract_from(doc.sections@, 0) matches Some(s) ==> (r matches Ok(t) && t@ == s),
            extract_from(doc.sections@, 0) is None ==> (r matches Err(MathSeekError::ApiError(m))
                && m@ == "No formula found in document"@),
    {
        let mut i: usize = 0;
        while i < doc.sections.len()
            invariant
                0 <= i <= doc.sections@.len(),
                extract_from(doc.sections@, 0) == extract_from(doc.sections@, i as int),
            decreases doc.sections@.len() - i,
        {
            let section = &doc.sections[i];
            if section.formulas.len() > 0 {
                return Ok(section.formulas[0].latex.clone());
            }
            let trimmed = trim_ws(section.text.as_str());
            proof {
                reveal_strlit("$");
                assert("$"@ =~= seq!['$']);
            }
            if crate::text::str_starts_with(trimmed.as_str(), "$") || crate::text::str_starts_with(
                trimmed.as_str(),
                "\\[",
            ) {
                return Ok(section.text.clone());
            }
            proof {
                assert(extract_from(doc.sections@, i as int) == extract_from(
                    doc.sections@,
                    i as int + 1,
                ));
            }
            i = i + 1;
        }
        Err(MathSeekError::ApiError(String::from_str("No formula found in document")))
    }

    /// Enriches a recognized document with the layout analysis: a document
    /// with no sections gains a placeholder section carrying the region
    /// summary, and a first section with empty body text receives that
    /// summary as its text.
    pub fn enhance_document_with_layout(
        &self,
        doc: &mut DocumentContent,
        layout: &ImageLayout,
    ) -> (r: MathSeekResult<()>)
        ensures
            r is Ok,
            final(doc).title == old(doc).title,
            old(doc).sections@.len() == 0 ==> (final(doc).sections@.len() == 1 && final(doc).sections@[0].heading is None && final(doc).sections@[0].text@
                == region_info_spec(*layout) && final(doc).sections@[0].formulas@.len() == 0),
            old(doc).sections@.len() > 0 && old(doc).sections@[0].text@.len() == 0 ==> (final(doc).sections@ =~= old(doc).sections@.update(
                0,
                (DocumentSection {
                    heading: old(doc).sections@[0].heading,
                    text: final(doc).sections@[0].text,
                    formulas: old(doc).sections@[0].formulas,
                }),
            ) && final(doc).sections@[0].text@ == region_info_spec(*layout)),
            old(doc).sections@.len() > 0 && old(doc).sections@[0].text@.len() > 0 ==> final(doc).sections@ == old(doc).sections@,
    {
        let mut region_info = String::from_str("Detected ");
        let fcount = usize_to_string(doc_region_count(&layout.formula_regions));
        region_info.append(fcount.as_str());
        region_info.append(" formula regions and ");
        let tcount = usize_to_string(doc_region_count(&layout.text_regions));
        region_info.append(tcount.as_str());
        region_info.append(" text regions");
        proof {
            assert(region_info@ =~= region_info_spec(*layout));
        }
        if doc.sections.len() == 0 {
            doc.sections.push(DocumentSection::new(None, region_info));
            return Ok(());
        }
        let first_empty = doc.sections[0].text.as_str().unicode_len() == 0;
        if first_empty {
            let old_first = doc.sections.remove(0);
            let new_first = DocumentSection {
                heading: old_first.heading,
                text: region_info,
                formulas: old_first.formulas,
            };
            doc.sections.insert(0, new_first);
            proof {
                assert(final(doc).sections@ =~= old(doc).sections@.update(
                    0,
                    (DocumentSection {
                        heading: old(doc).sections@[0].heading,
                        text: final(doc).sections@[0].text,
                        formulas: old(doc).sections@[0].formulas,
                    }),
                ));
            }
        }
        Ok(())
    }

    /// Applies the confidence gate: a result strictly below the threshold is
    /// rejected, reporting both values; one at or above it passes unchanged.
    pub fn apply_confidence_gate(&self, result: FormulaResult) -> (r: MathSeekResult<
        FormulaResult,
    >)
        ensures
            r is Ok <==> result.confidence >= self.config.confidence_threshold,
            result.confidence >= self.config.confidence_threshold ==> r == Ok::<
                FormulaResult,
                MathSeekError,
            >(result),
            result.confidence < self.config.confidence_threshold ==> (r matches Err(
                MathSeekError::ApiError(m),
            ) && m@ == "Recognition confidence ("@ + thousandths_spec(result.confidence as int)
                + ") below threshold ("@ + thousandths_spec(self.config.confidence_threshold as int)
                + ")"@),
    {
        if result.confidence < self.config.confidence_threshold {
            let mut m = String::from_str("Recognition confidence (");
            let c = thousandths_to_string(result.confidence);
            m.append(c.as_str());
            m.append(") below threshold (");
            let t = thousandths_to_string(self.config.confidence_threshold);
            m.append(t.as_str());
            m.append(")");
            proof {
                assert(m@ =~= "Recognition confidence ("@ + thousandths_spec(
                    result.confidence as int,
                ) + ") below threshold ("@ + thousandths_spec(
                    self.config.confidence_threshold as int,
                ) + ")"@);
            }
            return Err(MathSeekError::ApiError(m));
        }
        Ok(result)
    }

    /// The orchestrator's configuration, for callers.
    pub fn get_recognition_stats(&self) -> (r: RecognitionStats)
        ensures
            r.confidence_threshold == self.config.confidence_threshold,
            r.preprocessing_enabled == self.config.preprocessing_enabled,
            r.auto_type_detection == self.config.auto_type_detection,
            r.validation_enabled == self.config.validation_enabled,
    {
        RecognitionStats {
            confidence_threshold: self.config.confidence_threshold,
            preprocessing_enabled: self.config.preprocessing_enabled,
            auto_type_detection: self.config.auto_type_detection,
            validation_enabled: self.config.validation_enabled,
        }
    }

    /// Replaces the tunables.
    pub fn update_config(&mut self, new_config: RecognitionConfig)
        ensures
            final(self).config == new_config,
            final(self).api_client == old(self).api_client,
    {
        self.config = new_config;
    }
}

/// The length of a region list, for the layout summary.
fn doc_region_count(regions: &Vec<crate::Region>) -> (r: usize)
    ensures
        r == regions@.len(),
{
    regions.len()
}

/// How layout enrichment rewrites a recognized document, given the detected
/// region counts.
pub open spec fn enhanced_doc_rel(
    old_doc: DocumentContent,
    new_doc: DocumentContent,
    fcount: nat,
    tcount: nat,
) -> bool {
    &&& new_doc.title == old_doc.title
    &&& old_doc.sections@.len() == 0 ==> (new_doc.sections@.len() == 1
        && new_doc.sections@[0].heading is None && new_doc.sections@[0].text@ == region_info_of(
        fcount,
        tcount,
    ) && new_doc.sections@[0].formulas@.len() == 0)
    &&& old_doc.sections@.len() > 0 && old_doc.sections@[0].text@.len() == 0 ==> (
    new_doc.sections@.len() == old_doc.sections@.len() && new_doc.sections@[0].heading
        == old_doc.sections@[0].heading && new_doc.sections@[0].formulas
        == old_doc.sections@[0].formulas && new_doc.sections@[0].text@ == region_info_of(
        fcount,
        tcount,
    ) && (forall|i: int|
        1 <= i < old_doc.sections@.len() ==> #[trigger] new_doc.sections@[i]
            == old_doc.sections@[i]))
    &&& old_doc.sections@.len() > 0 && old_doc.sections@[0].text@.len() > 0
        ==> new_doc.sections@ == old_doc.sections@
}

/// How a document recognition's result relates to its envelope and the
/// detected region counts: the response mapping, with the decoded (or
/// fallback) document enriched by the layout.
pub open spec fn document_result_rel(
    env: RecognitionResponse,
    fcount: nat,
    tcount: nat,
    r: MathSeekResult<FormulaResult>,
) -> bool {
    &&& env.latex is None ==> (r matches Err(MathSeekError::ApiError(m)) && m@
        == "No LaTeX content in response"@)
    &&& env.latex matches Some(l) ==> (if l@.len() == 0 {
        r matches Err(MathSeekError::ApiError(m)) && m@ == "LaTeX content cannot be empty"@
    } else if !confidence_in_range(crate::api_client::response_confidence(env)) {
        r matches Err(MathSeekError::ApiError(m)) && m@
            == "Confidence must be between 0.0 and 1.0"@
    } else {
        r matches Ok(fr) && fr.latex == l && fr.confidence as int
            == crate::api_client::response_confidence(env) && fr.input_type is Document && (
        match env.content {
            crate::api_client::ContentPayload::Document(doc) => fr.content matches
                ResultContent::Document(d2) && enhanced_doc_rel(doc, d2, fcount, tcount),
            _ => crate::api_client::fallback_document_ok(l, fr.content),
        })
    })
}

/// The message the confidence gate reports, over the compared values.
pub open spec fn gate_message_spec(conf: int, threshold: int) -> Seq<char> {
    "Recognition confidence ("@ + thousandths_spec(conf) + ") below threshold ("@
        + thousandths_spec(threshold) + ")"@
}

/// Whether the enriched document of a parsed document envelope passes the
/// post-validation content checks: every section valid and spliceable after
/// the layout summary is written in, and every fragment scanning clean. A
/// fallback single-section document always passes.
pub open spec fn enhanced_document_checks_ok(
    content: crate::api_client::ContentPayload,
    fcount: nat,
    tcount: nat,
) -> bool {
    match content {
        crate::api_client::ContentPayload::Document(doc) => {
            let ss = doc.sections@;
            if ss.len() == 0 {
                true
            } else {
                &&& (forall|i: int|
                    1 <= i < ss.len() ==> section_valid(#[trigger] ss[i]) && section_spliceable(
                        ss[i],
                    ))
                &&& (if ss[0].text@.len() == 0 {
                    forall|k: int|
                        0 <= k < ss[0].formulas@.len() ==> #[trigger] ss[0].formulas@[k].position
                            <= region_info_of(fcount, tcount).len()
                } else {
                    section_valid(ss[0]) && section_spliceable(ss[0])
                })
                &&& document_formulas_valid(doc)
            }
        },
        _ => true,
    }
}

/// What the pipeline returns for the decisive envelope of a single-formula
/// recognition: the response mapping's outcome, run through the optional
/// syntax post-validation and the confidence gate.
pub open spec fn single_envelope_rel(
    cfg: RecognitionConfig,
    env: RecognitionResponse,
    r: MathSeekResult<FormulaResult>,
) -> bool {
    &&& env.latex is None ==> (r matches Err(MathSeekError::ApiError(m)) && m@
        == "No LaTeX content in response"@)
    &&& env.latex matches Some(l) ==> (if l@.len() == 0 {
        r matches Err(MathSeekError::ApiError(m)) && m@ == "LaTeX content cannot be empty"@
    } else if !confidence_in_range(crate::api_client::response_confidence(env)) {
        r matches Err(MathSeekError::ApiError(m)) && m@
            == "Confidence must be between 0.0 and 1.0"@
    } else if cfg.validation_enabled && trim_ws_spec(l@).len() == 0 {
        r matches Err(MathSeekError::ApiError(m)) && m@ == "Empty formula content"@
    } else if cfg.validation_enabled && !latex_syntax_valid(l@) {
        r matches Err(MathSeekError::ApiError(m)) && m@ == "Invalid LaTeX syntax detected"@
    } else if crate::api_client::response_confidence(env) < cfg.confidence_threshold {
        r matches Err(MathSeekError::ApiError(m)) && m@ == gate_message_spec(
            crate::api_client::response_confidence(env),
            cfg.confidence_threshold as int,
        )
    } else {
        r matches Ok(fr) && fr.latex == l && fr.confidence as int
            == crate::api_client::response_confidence(env) && fr.input_type is SingleFormula && (
        fr.content matches ResultContent::SingleFormula(f) && f == l)
    })
}

/// What the pipeline returns for the decisive envelope of a document
/// recognition: the response mapping with layout enrichment, run through
/// the optional content post-validation and the confidence gate.
pub open spec fn document_envelope_rel(
    cfg: RecognitionConfig,
    env: RecognitionResponse,
    fcount: nat,
    tcount: nat,
    r: MathSeekResult<FormulaResult>,
) -> bool {
    &&& env.latex is None ==> (r matches Err(MathSeekError::ApiError(m)) && m@
        == "No LaTeX content in response"@)
    &&& env.latex matches Some(l) ==> (if l@.len() == 0 {
        r matches Err(MathSeekError::ApiError(m)) && m@ == "LaTeX content cannot be empty"@
    } else if !confidence_in_range(crate::api_client::response_confidence(env)) {
        r matches Err(MathSeekError::ApiError(m)) && m@
            == "Confidence must be between 0.0 and 1.0"@
    } else if cfg.validation_enabled && !enhanced_document_checks_ok(env.content, fcount, tcount) {
        r matches Err(e) && e is ApiError
    } else if crate::api_client::response_confidence(env) < cfg.confidence_threshold {
        r matches Err(MathSeekError::ApiError(m)) && m@ == gate_message_spec(
            crate::api_client::response_confidence(env),
            cfg.confidence_threshold as int,
        )
    } else {
        r matches Ok(fr) && fr.latex == l && fr.confidence as int
            == crate::api_client::response_confidence(env) && fr.input_type is Document && (
        match env.content {
            crate::api_client::ContentPayload::Document(doc) => fr.content matches
                ResultContent::Document(d2) && enhanced_doc_rel(doc, d2, fcount, tcount),
            _ => crate::api_client::fallback_document_ok(l, fr.content),
        })
    })
}

/// How a single-formula recognition's result follows from the transport's
/// outcome record: no attempt made, a failed decisive attempt, or the
/// decisive envelope run through the pipeline's remaining stages.
pub open spec fn single_outcomes_rel(
    cfg: RecognitionConfig,
    outs: Seq<AttemptOutcome<RecognitionResponse>>,
    max: int,
    r: MathSeekResult<FormulaResult>,
) -> bool {
    let n = attempts_used(outs, max);
    &&& n == 0 ==> (r matches Err(MathSeekError::NetworkError(m)) && m@
        == "Max retries exceeded"@)
    &&& n > 0 && !(outs[n - 1] is Envelope) ==> (r matches Err(e) && attempt_error_rel(
        outs[n - 1],
        e,
    ))
    &&& n > 0 ==> (outs[n - 1] matches AttemptOutcome::Envelope(env) ==> single_envelope_rel(
        cfg,
        env,
        r,
    ))
}

/// How a document recognition's result follows from the bytes it analyzes
/// and the transport's outcome record.
pub open spec fn document_outcomes_rel(
    cfg: RecognitionConfig,
    processed: Seq<u8>,
    outs: Seq<AttemptOutcome<RecognitionResponse>>,
    max: int,
    r: MathSeekResult<FormulaResult>,
) -> bool {
    &&& image_dims(processed) is None ==> (r matches Err(MathSeekError::ImageError(m))
        && starts_with_spec(m@, "Failed to load image for analysis: "@))
    &&& image_dims(processed) matches Some(d) ==> ({
        let n = attempts_used(outs, max);
        let fcount = crate::image_processor::formula_regions_spec(
            luma_pixels(processed),
            d.0 as int,
            d.1 as int,
        ).len();
        let tcount = crate::image_processor::text_regions_spec(
            luma_pixels(processed),
            d.0 as int,
            d.1 as int,
        ).len();
        &&& n == 0 ==> (r matches Err(MathSeekError::NetworkError(m)) && m@
            == "Max retries exceeded"@)
        &&& n > 0 && !(outs[n - 1] is Envelope) ==> (r matches Err(e) && attempt_error_rel(
            outs[n - 1],
            e,
        ))
        &&& n > 0 ==> (outs[n - 1] matches AttemptOutcome::Envelope(env)
            ==> document_envelope_rel(cfg, env, fcount, tcount, r))
    })
}

/// The post-validation checks of an enriched document are exactly the
/// structural, spliceability and syntax conditions of the document it
/// became.
broadcast proof fn lemma_enhanced_checks(
    doc: DocumentContent,
    d2: DocumentContent,
    fcount: nat,
    tcount: nat,
)
    requires
        #[trigger] enhanced_doc_rel(doc, d2, fcount, tcount),
    ensures
        (document_valid(d2) && crate::document_spliceable(d2) && document_formulas_valid(d2))
            == enhanced_document_checks_ok(
            crate::api_client::ContentPayload::Document(doc),
            fcount,
            tcount,
        ),
{
    reveal_strlit("Detected ");
    reveal_strlit(" formula regions and ");
    reveal_strlit(" text regions");
    assert(region_info_of(fcount, tcount).len() > 0);
    let ss = doc.sections@;
    let ts = d2.sections@;
    if ss.len() == 0 {
        assert(section_valid(ts[0]));
        assert(section_spliceable(ts[0]));
        assert(document_valid(d2));
        assert(crate::document_spliceable(d2));
        assert(document_formulas_valid(d2));
    } else if ss[0].text@.len() == 0 {
        assert(ts.len() == ss.len());
        assert forall|i: int, j: int|
            0 <= i < ts.len() && 0 <= j < ts[i].formulas@.len() implies (latex_syntax_valid(
            #[trigger] ts[i].formulas@[j].latex@,
        ) == latex_syntax_valid(ss[i].formulas@[j].latex@)) by {
            if i == 0 {
                assert(ts[0].formulas == ss[0].formulas);
            } else {
                assert(ts[i] == ss[i]);
            }
        }
        assert(document_formulas_valid(d2) == document_formulas_valid(doc)) by {
            if document_formulas_valid(d2) {
                assert forall|i: int, j: int|
                    0 <= i < ss.len() && 0 <= j < ss[i].formulas@.len() implies latex_syntax_valid(
                    #[trigger] ss[i].formulas@[j].latex@,
                ) by {
                    if i == 0 {
                        assert(ts[0].formulas == ss[0].formulas);
                        assert(latex_syntax_valid(ts[0].formulas@[j].latex@));
                    } else {
                        assert(ts[i] == ss[i]);
                        assert(latex_syntax_valid(ts[i].formulas@[j].latex@));
                    }
                }
            }
            if document_formulas_valid(doc) {
                assert forall|i: int, j: int|
                    0 <= i < ts.len() && 0 <= j < ts[i].formulas@.len() implies latex_syntax_valid(
                    #[trigger] ts[i].formulas@[j].latex@,
                ) by {
                    if i == 0 {
                        assert(ts[0].formulas == ss[0].formulas);
                        assert(latex_syntax_valid(ss[0].formulas@[j].latex@));
                    } else {
                        assert(ts[i] == ss[i]);
                        assert(latex_syntax_valid(ss[i].formulas@[j].latex@));
                    }
                }
            }
        }
        assert(section_valid(ts[0]));
        assert(section_spliceable(ts[0]) == (forall|k: int|
            0 <= k < ss[0].formulas@.len() ==> #[trigger] ss[0].formulas@[k].position
                <= region_info_of(fcount, tcount).len())) by {
            assert(ts[0].formulas == ss[0].formulas);
            assert(ts[0].text@.len() == region_info_of(fcount, tcount).len());
        }
        assert((document_valid(d2) && crate::document_spliceable(d2)) == ((forall|i: int|
            1 <= i < ss.len() ==> section_valid(#[trigger] ss[i]) && section_spliceable(ss[i]))
            && section_spliceable(ts[0]))) by {
            assert forall|i: int| 1 <= i < ss.len() implies ts[i] == ss[i] by {}
            if (forall|i: int|
                1 <= i < ss.len() ==> section_valid(#[trigger] ss[i]) && section_spliceable(
                    ss[i],
                )) && section_spliceable(ts[0]) {
                assert forall|i: int| 0 <= i < ts.len() implies section_valid(
                    #[trigger] ts[i],
                ) && section_spliceable(ts[i]) by {
                    if i >= 1 {
                        assert(ts[i] == ss[i]);
                    }
                }
            }
        }
    } else {
        assert(ts == ss);
        assert(document_formulas_valid(d2) == document_formulas_valid(doc));
        assert((document_valid(d2) && crate::document_spliceable(d2)) == ((forall|i: int|
            1 <= i < ss.len() ==> section_valid(#[trigger] ss[i]) && section_spliceable(ss[i]))
            && section_valid(ss[0]) && section_spliceable(ss[0]))) by {
            if (forall|i: int|
                1 <= i < ss.len() ==> section_valid(#[trigger] ss[i]) && section_spliceable(
                    ss[i],
                )) && section_valid(ss[0]) && section_spliceable(ss[0]) {
                assert forall|i: int| 0 <= i < ss.len() implies section_valid(
                    #[trigger] ss[i],
                ) && section_spliceable(ss[i]) by {}
            }
        }
    }
}

impl RecognitionEngine {
    /// Recognizes a single formula from the transport's outcomes: the
    /// decisive envelope is mapped as a single-formula result. A document
    /// shape cannot come back from that mapping, so the result is exactly
    /// the mapped envelope.
    pub fn recognize_single_formula(
        &self,
        outcomes: &mut Vec<AttemptOutcome<RecognitionResponse>>,
    ) -> (r: MathSeekResult<FormulaResult>)
        requires
            self.api_client.config.retry_config_ok(),
        ensures
            ({
                let n = attempts_used(old(outcomes)@, self.api_client.config.max_retries as int);
                &&& n == 0 ==> (r matches Err(MathSeekError::NetworkError(m)) && m@
                    == "Max retries exceeded"@)
                &&& n > 0 && !(old(outcomes)@[n - 1] is Envelope) ==> (r matches Err(e)
                    && attempt_error_rel(old(outcomes)@[n - 1], e))
                &&& n > 0 ==> (old(outcomes)@[n - 1] matches AttemptOutcome::Envelope(env)
                    ==> parse_recognition_rel(env, InputType::SingleFormula, r))
                &&& r matches Ok(fr) ==> fr.input_type is SingleFormula && fr.latex@.len() > 0
                    && confidence_in_range(fr.confidence as int)
            }),
    {
        let result = match self.api_client.recognize_image(InputType::SingleFormula, outcomes) {
            Ok(res) => res,
            Err(e) => {
                return Err(e);
            },
        };
        match result.content {
            ResultContent::SingleFormula(_) => Ok(result),
            ResultContent::Document(doc) => {
                // the single-formula mapping never yields a document shape,
                // but a repackaging is kept for one that slips through
                let latex = match self.extract_single_formula_from_document(&doc) {
                    Ok(l) => l,
                    Err(e) => {
                        return Err(e);
                    },
                };
                Ok(FormulaResult::new_single_formula(latex, result.confidence))
            },
        }
    }

    /// Recognizes a document from the transport's outcomes: the layout is
    /// analyzed independently, the decisive envelope is mapped as a document
    /// result, and the document is enriched with the layout summary.
    pub fn recognize_document(
        &self,
        image_data: &[u8],
        outcomes: &mut Vec<AttemptOutcome<RecognitionResponse>>,
    ) -> (r: MathSeekResult<FormulaResult>)
        requires
            self.api_client.config.retry_config_ok(),
        ensures
            image_dims(image_data@) is None ==> (r matches Err(MathSeekError::ImageError(m))
                && starts_with_spec(m@, "Failed to load image for analysis: "@)),
            image_dims(image_data@) matches Some(d) ==> ({
                let n = attempts_used(old(outcomes)@, self.api_client.config.max_retries as int);
                let fcount = crate::image_processor::formula_regions_spec(
                    luma_pixels(image_data@),
                    d.0 as int,
                    d.1 as int,
                ).len();
                let tcount = crate::image_processor::text_regions_spec(
                    luma_pixels(image_data@),
                    d.0 as int,
                    d.1 as int,
                ).len();
                &&& n == 0 ==> (r matches Err(MathSeekError::NetworkError(m)) && m@
                    == "Max retries exceeded"@)
                &&& n > 0 && !(old(outcomes)@[n - 1] is Envelope) ==> (r matches Err(e)
                    && attempt_error_rel(old(outcomes)@[n - 1], e))
                &&& n > 0 ==> (old(outcomes)@[n - 1] matches AttemptOutcome::Envelope(env)
                    ==> document_result_rel(env, fcount, tcount, r))
            }),
            r matches Ok(fr) ==> fr.input_type is Document && fr.latex@.len() > 0
                && confidence_in_range(fr.confidence as int),
    {
        let layout = match ImageProcessor::analyze_image_layout(image_data) {
            Ok(l) => l,
            Err(e) => {
                return Err(e);
            },
        };
        let result = match self.api_client.recognize_image(InputType::Document, outcomes) {
            Ok(res) => res,
            Err(e) => {
                return Err(e);
            },
        };
        let FormulaResult { latex, confidence, timestamp, input_type, content } = result;
        match content {
            ResultContent::Document(mut doc) => {
                match self.enhance_document_with_layout(&mut doc, &layout) {
                    Ok(()) => {},
                    Err(e) => {
                        return Err(e);
                    },
                }
                Ok(FormulaResult {
                    latex,
                    confidence,
                    timestamp,
                    input_type,
                    content: ResultContent::Document(doc),
                })
            },
            other => Ok(FormulaResult { latex, confidence, timestamp, input_type, content: other }),
        }
    }

    /// Runs the whole pipeline: validates and preconditions the bytes,
    /// classifies the input (the caller's hint wins; otherwise detection
    /// when enabled, else single formula), interprets the transport's
    /// outcomes, post-validates when enabled, and applies the confidence
    /// gate. A result is returned only at or above the threshold; with
    /// validation enabled its confidence is clamped into the unit interval
    /// and its content passes the syntax scan.
    pub fn recognize_content(
        &self,
        image_data: &[u8],
        input_type: Option<InputType>,
        outcomes: &mut Vec<AttemptOutcome<RecognitionResponse>>,
    ) -> (r: MathSeekResult<FormulaResult>)
        requires
            self.api_client.config.retry_config_ok(),
        ensures
            !(image_data@.len() > 0 && image_dims(image_data@) is Some) ==> (r matches Err(
                MathSeekError::ImageError(m),
            ) && m@ == "Invalid image data provided"@),
            image_data@.len() > 0 ==> (image_dims(image_data@) matches Some(d) ==> (
            !suitable_spec(d.0 as int, d.1 as int, image_data@.len() as int) ==> (r matches Err(
                MathSeekError::ImageError(m),
            ) && m@
                == "Image is not suitable for processing (too small, too large, or poor quality)"@))),
            r matches Ok(fr) ==> fr.confidence >= self.config.confidence_threshold
                && fr.latex@.len() > 0,
            self.config.validation_enabled ==> (r matches Ok(fr) ==> (confidence_in_range(
                fr.confidence as int,
            ) && (match fr.content {
                ResultContent::SingleFormula(l) => trim_ws_spec(l@).len() > 0
                    && latex_syntax_valid(l@),
                ResultContent::Document(d) => document_valid(d) && crate::document_spliceable(d)
                    && document_formulas_valid(d),
            }))),
            input_type matches Some(t) ==> (r matches Ok(fr) ==> fr.input_type == t),
            image_data@.len() > 0 ==> (image_dims(image_data@) matches Some(d) ==> (suitable_spec(
                d.0 as int,
                d.1 as int,
                image_data@.len() as int,
            ) ==> ({
                let max = self.api_client.config.max_retries as int;
                let processed = if self.config.preprocessing_enabled {
                    preprocessed_png(image_data@)
                } else {
                    image_data@
                };
                &&& input_type == Some(InputType::SingleFormula) ==> ((
                self.config.preprocessing_enabled && (r matches Err(e) && e is ImageError))
                    || single_outcomes_rel(self.config, old(outcomes)@, max, r))
                &&& input_type == Some(InputType::Document) ==> ((self.config.preprocessing_enabled
                    && (r matches Err(e) && e is ImageError)) || document_outcomes_rel(
                    self.config,
                    processed,
                    old(outcomes)@,
                    max,
                    r,
                ))
            }))),
            input_type is None && !self.config.auto_type_detection ==> (r matches Ok(fr)
                ==> fr.input_type is SingleFormula),
            input_type is None && self.config.auto_type_detection ==> (r matches Ok(fr) ==> ({
                let processed = if self.config.preprocessing_enabled {
                    preprocessed_png(image_data@)
                } else {
                    image_data@
                };
                image_dims(processed) matches Some(pd) ==> fr.input_type == detected_type_spec(
                    luma_pixels(processed),
                    pd.0 as int,
                    pd.1 as int,
                )
            })),
    {
        if !ImageProcessor::validate_image(image_data) {
            return Err(MathSeekError::ImageError(
                String::from_str("Invalid image data provided"),
            ));
        }
        let suitable = match ImageProcessor::is_image_suitable_for_processing(image_data) {
            Ok(b) => b,
            Err(e) => {
                return Err(e);
            },
        };
        if !suitable {
            return Err(MathSeekError::ImageError(
                String::from_str(
                    "Image is not suitable for processing (too small, too large, or poor quality)",
                ),
            ));
        }
        let processed_image: Vec<u8> = if self.config.preprocessing_enabled {
            match ImageProcessor::preprocess_image(image_data) {
                Ok(v) => v,
                Err(e) => {
                    return Err(e);
                },
            }
        } else {
            vstd::slice::slice_to_vec(image_data)
        };
        let detected_type: InputType = match input_type {
            Some(t) => t,
            None => {
                if self.config.auto_type_detection {
                    match ImageProcessor::detect_input_type(processed_image.as_slice()) {
                        Ok(t) => t,
                        Err(e) => {
                            return Err(e);
                        },
                    }
                } else {
                    InputType::SingleFormula
                }
            },
        };
        let mut result = match detected_type {
            InputType::SingleFormula => {
                match self.recognize_single_formula(outcomes) {
                    Ok(res) => res,
                    Err(e) => {
                        return Err(e);
                    },
                }
            },
            InputType::Document => {
                match self.recognize_document(processed_image.as_slice(), outcomes) {
                    Ok(res) => res,
                    Err(e) => {
                        return Err(e);
                    },
                }
            },
        };
        let ghost fr0 = result;
        if self.config.validation_enabled {
            match self.validate_recognition_result(&mut result) {
                Ok(()) => {},
                Err(e) => {
                    return Err(e);
                },
            }
        }
        proof {
            broadcast use lemma_enhanced_checks;

            assert(confidence_in_range(fr0.confidence as int));
            assert(result.confidence == fr0.confidence);
            assert(result.latex == fr0.latex && result.content == fr0.content
                && result.input_type == fr0.input_type);
        }
        self.apply_confidence_gate(result)
    }

    /// Re-runs recognition with the caller's forced classification: a pure
    /// delegation to the pipeline with the forced type as the hint, under
    /// the pipeline's own contract.
    pub fn re_recognize_with_type(
        &self,
        image_data: &[u8],
        forced_type: InputType,
        outcomes: &mut Vec<AttemptOutcome<RecognitionResponse>>,
    ) -> (r: MathSeekResult<FormulaResult>)
        requires
            self.api_client.config.retry_config_ok(),
        ensures
            !(image_data@.len() > 0 && image_dims(image_data@) is Some) ==> (r matches Err(
                MathSeekError::ImageError(m),
            ) && m@ == "Invalid image data provided"@),
            image_data@.len() > 0 ==> (image_dims(image_data@) matches Some(d) ==> (
            !suitable_spec(d.0 as int, d.1 as int, image_data@.len() as int) ==> (r matches Err(
                MathSeekError::ImageError(m),
            ) && m@
                == "Image is not suitable for processing (too small, too large, or poor quality)"@))),
            r matches Ok(fr) ==> fr.confidence >= self.config.confidence_threshold
                && fr.latex@.len() > 0,
            self.config.validation_enabled ==> (r matches Ok(fr) ==> (confidence_in_range(
                fr.confidence as int,
            ) && (match fr.content {
                ResultContent::SingleFormula(l) => trim_ws_spec(l@).len() > 0
                    && latex_syntax_valid(l@),
                ResultContent::Document(d) => document_valid(d) && crate::document_spliceable(d)
                    && document_formulas_valid(d),
            }))),
            r matches Ok(fr) ==> fr.input_type == forced_type,
            image_data@.len() > 0 ==> (image_dims(image_data@) matches Some(d) ==> (suitable_spec(
                d.0 as int,
                d.1 as int,
                image_data@.len() as int,
            ) ==> ({
                let max = self.api_client.config.max_retries as int;
                let processed = if self.config.preprocessing_enabled {
                    preprocessed_png(image_data@)
                } else {
                    image_data@
                };
                &&& forced_type is SingleFormula ==> ((self.config.preprocessing_enabled && (
                r matches Err(e) && e is ImageError)) || single_outcomes_rel(
                    self.config,
                    old(outcomes)@,
                    max,
                    r,
                ))
                &&& forced_type is Document ==> ((self.config.preprocessing_enabled && (
                r matches Err(e) && e is ImageError)) || document_outcomes_rel(
                    self.config,
                    processed,
                    old(outcomes)@,
                    max,
                    r,
                ))
            }))),
    {
        self.recognize_content(image_data, Some(forced_type), outcomes)
    }
}

} // verus!
