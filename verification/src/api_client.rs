//! The remote recognition client's decision logic: request building, the
//! bounded-retry policy with linear backoff, and response mapping.
//!
//! The transport itself (HTTP, timeouts, sleeping) is a collaborator: each
//! attempt's observable outcome enters as an [`AttemptOutcome`], and every
//! decision taken on those outcomes — what to retry, how long to wait, what
//! to surface — is verified here.
use vstd::prelude::*;

use crate::clock;
use crate::encoding::{b64_encode, b64_of};
use crate::text::{dec_digits, u64_to_string};
use crate::{
    AnalysisResult, AppConfig, DocumentContent, FormulaResult, InputType, MathSeekError,
    MathSeekResult, ResultContent, confidence_in_range,
};

verus! {

/// Connection settings of the remote recognition service.
#[derive(Debug, Clone)]
pub struct ApiConfig {
    pub endpoint: String,
    pub api_key: String,
    pub timeout_seconds: u64,
    pub max_retries: u32,
    pub retry_delay_ms: u64,
}

impl Default for ApiConfig {
    /// No endpoint or key yet; 30 s timeout, 3 retries, 1000 ms backoff base.
    fn default() -> (r: Self)
        ensures
            r.endpoint@.len() == 0,
            r.api_key@.len() == 0,
            r.timeout_seconds == 30,
            r.max_retries == 3,
            r.retry_delay_ms == 1000,
    {
        ApiConfig {
            endpoint: String::new(),
            api_key: String::new(),
            timeout_seconds: 30,
            max_retries: 3,
            retry_delay_ms: 1000,
        }
    }
}

impl ApiConfig {
    /// Connection settings taken from the application configuration, with
    /// the default timeout and retry policy.
    pub fn from_app_config(app_config: &AppConfig) -> (r: Self)
        ensures
            r.endpoint == app_config.api_endpoint,
            r.api_key == app_config.api_key,
            r.timeout_seconds == 30,
            r.max_retries == 3,
            r.retry_delay_ms == 1000,
    {
        ApiConfig {
            endpoint: app_config.api_endpoint.clone(),
            api_key: app_config.api_key.clone(),
            timeout_seconds: 30,
            max_retries: 3,
            retry_delay_ms: 1000,
        }
    }

    /// The backoff product stays within `u64`, so delays can be computed.
    pub open spec fn retry_config_ok(&self) -> bool {
        self.retry_delay_ms * self.max_retries <= u64::MAX
    }
}

/// The payload submitted for recognition.
#[derive(Debug, Clone)]
pub struct RecognitionRequest {
    pub image_data: String,
    pub input_type: String,
    pub options: RecognitionOptions,
}

/// Fixed recognition options: requested output format and the
/// minimum-confidence hint, in thousandths.
#[derive(Debug, Clone)]
pub struct RecognitionOptions {
    pub output_format: String,
    pub confidence_threshold: i32,
}

/// The payload submitted for formula analysis.
#[derive(Debug, Clone)]
pub struct AnalysisRequest {
    pub formula: String,
    pub analysis_type: String,
}

/// The structured content a recognition envelope may carry.
#[derive(Debug, Clone)]
pub enum ContentPayload {
    /// The envelope carried no content field.
    Absent,
    /// The content field decoded into the document shape.
    Document(DocumentContent),
    /// The content field was present but did not decode.
    Malformed,
}

/// A successful recognition envelope, already decoded from JSON.
#[derive(Debug, Clone)]
pub struct RecognitionResponse {
    pub success: bool,
    pub latex: Option<String>,
    pub confidence: Option<i32>,
    pub content: ContentPayload,
    pub error: Option<String>,
}

/// A decoded analysis envelope.
#[derive(Debug, Clone)]
pub struct AnalysisResponse {
    pub success: bool,
    pub formula_type: Option<String>,
    pub description: Option<String>,
    pub usage: Option<String>,
    pub examples: Option<Vec<String>>,
    pub error: Option<String>,
}

/// What one transport attempt observably produced.
#[derive(Debug, Clone)]
pub enum AttemptOutcome<T> {
    /// 2xx, the body parsed, and the envelope's success flag was set.
    Envelope(T),
    /// 2xx and the body parsed, but the envelope's success flag was false;
    /// carries the server's error text.
    Refused(Option<String>),
    /// A non-2xx HTTP status, with the response body text.
    HttpStatus(u16, String),
    /// The transport failed before a response arrived.
    Transport(String),
    /// The attempt exceeded the per-request timeout.
    TimedOut,
    /// 2xx, but the body did not parse as an envelope.
    BadBody(String),
}

/// Whether a failed attempt may be retried: authentication and bad-request
/// statuses (400, 401, 403) are final, everything else is transient.
pub open spec fn outcome_retryable_spec<T>(o: AttemptOutcome<T>) -> bool {
    !(o matches AttemptOutcome::HttpStatus(c, _) && (c == 400 || c == 401 || c == 403))
}

/// The error a failed attempt surfaces.
pub open spec fn attempt_error_rel<T>(o: AttemptOutcome<T>, e: MathSeekError) -> bool {
    match o {
        AttemptOutcome::Envelope(_) => false,
        AttemptOutcome::Refused(err) => e matches MathSeekError::ApiError(m) && (match err {
            Some(t) => m@ == t@,
            None => m@ == "Unknown API error"@,
        }),
        AttemptOutcome::HttpStatus(code, body) => e matches MathSeekError::ApiError(m) && m@
            == "API request failed with status: "@ + dec_digits(code as nat) + " - "@ + body@,
        AttemptOutcome::Transport(msg) => e matches MathSeekError::NetworkError(m) && m@
            == "Request failed: "@ + msg@,
        AttemptOutcome::TimedOut => e matches MathSeekError::NetworkError(m) && m@
            == "Request timeout"@,
        AttemptOutcome::BadBody(msg) => e matches MathSeekError::SerializationError(m) && m@
            == "Failed to parse response: "@ + msg@,
    }
}

/// Whether a failed attempt may be retried.
pub fn outcome_retryable<T>(o: &AttemptOutcome<T>) -> (r: bool)
    ensures
        r == outcome_retryable_spec(*o),
{
    match o {
        AttemptOutcome::HttpStatus(code, _) => !(*code == 400 || *code == 401 || *code == 403),
        _ => true,
    }
}

/// The error a failed attempt surfaces, rebuilt from the outcome; nothing
/// for a successful envelope.
pub fn attempt_error<T>(o: &AttemptOutcome<T>) -> (r: Option<MathSeekError>)
    ensures
        r is None <==> o is Envelope,
        r matches Some(e) ==> attempt_error_rel(*o, e),
{
    match o {
        AttemptOutcome::Envelope(_) => None,
        AttemptOutcome::Refused(err) => match err {
            Some(t) => Some(MathSeekError::ApiError(t.clone())),
            None => Some(MathSeekError::ApiError(String::from_str("Unknown API error"))),
        },
        AttemptOutcome::HttpStatus(code, body) => {
            let mut m = String::from_str("API request failed with status: ");
            let code_str = u64_to_string(*code as u64);
            m.append(code_str.as_str());
            m.append(" - ");
            m.append(body.as_str());
            proof {
                assert(m@ =~= "API request failed with status: "@ + dec_digits(*code as nat)
                    + " - "@ + body@);
            }
            Some(MathSeekError::ApiError(m))
        },
        AttemptOutcome::Transport(msg) => {
            let mut m = String::from_str("Request failed: ");
            m.append(msg.as_str());
            Some(MathSeekError::NetworkError(m))
        },
        AttemptOutcome::TimedOut => Some(MathSeekError::NetworkError(
            String::from_str("Request timeout"),
        )),
        AttemptOutcome::BadBody(msg) => {
            let mut m = String::from_str("Failed to parse response: ");
            m.append(msg.as_str());
            Some(MathSeekError::SerializationError(m))
        },
    }
}

/// The number of attempts the retry loop performs, counting from attempt
/// `i`: it stops after a success or a non-retryable failure, once `max`
/// attempts are spent, or when the outcomes run out.
pub open spec fn effective_attempts_from<T>(
    outcomes: Seq<AttemptOutcome<T>>,
    max: int,
    i: int,
) -> int
    decreases max - i,
{
    if i >= max || i >= outcomes.len() {
        i
    } else if outcomes[i] is Envelope || !outcome_retryable_spec(outcomes[i]) {
        i + 1
    } else {
        effective_attempts_from(outcomes, max, i + 1)
    }
}

/// The number of attempts the retry loop performs on these outcomes.
pub open spec fn attempts_used<T>(outcomes: Seq<AttemptOutcome<T>>, max: int) -> int {
    effective_attempts_from(outcomes, max, 0)
}

/// What a finished retry run reports: how many attempts were made, the error
/// of the decisive attempt (nothing when it succeeded), and the backoff
/// delay (in milliseconds) slept before each retried attempt, in order.
pub struct RetryRun {
    pub attempts: usize,
    pub failure: Option<MathSeekError>,
    pub delays: Vec<u64>,
}

/// Runs the retry policy over the attempts' outcomes: at most `max_retries`
/// attempts, a linearly growing delay before each retry, immediate stop on
/// success or on a non-retryable failure, the last error surfaced when
/// every attempt fails, and a generic network failure when no attempt could
/// be made at all. The envelope of a successful run sits at index
/// `attempts - 1` of the outcomes.
pub fn run_retry_schedule<T>(config: &ApiConfig, outcomes: &Vec<AttemptOutcome<T>>) -> (r:
    RetryRun)
    requires
        config.retry_config_ok(),
    ensures
        r.attempts as int == attempts_used(outcomes@, config.max_retries as int),
        r.delays@.len() == (if r.attempts <= 1 {
            0int
        } else {
            r.attempts - 1
        }),
        forall|k: int|
            0 <= k < r.delays@.len() ==> #[trigger] r.delays@[k] == config.retry_delay_ms * (k
                + 1),
        r.attempts == 0 ==> (r.failure matches Some(e) && (e matches MathSeekError::NetworkError(
            m,
        ) && m@ == "Max retries exceeded"@)),
        r.attempts > 0 && outcomes@[r.attempts - 1] is Envelope ==> r.failure is None,
        r.attempts > 0 && !(outcomes@[r.attempts - 1] is Envelope) ==> (r.failure matches Some(e)
            && attempt_error_rel(outcomes@[r.attempts - 1], e)),
{
    let ghost outs = outcomes@;
    let ghost max = config.max_retries as int;
    let mut delays: Vec<u64> = Vec::new();
    let mut last_error: Option<MathSeekError> = None;
    if config.max_retries == 0 {
        return RetryRun {
            attempts: 0,
            failure: Some(MathSeekError::NetworkError(String::from_str("Max retries exceeded"))),
            delays,
        };
    }
    let mut attempt: usize = 0;
    while attempt < outcomes.len()
        invariant
            config.retry_config_ok(),
            max == config.max_retries as int,
            max >= 1,
            outs == outcomes@,
            (attempt as int) < max,
            attempt <= outs.len(),
            delays@.len() == (if attempt == 0 {
                0int
            } else {
                attempt - 1
            }),
            forall|k: int|
                0 <= k < delays@.len() ==> #[trigger] delays@[k] == config.retry_delay_ms * (k
                    + 1),
            effective_attempts_from(outs, max, attempt as int) == attempts_used(outs, max),
            attempt > 0 ==> (last_error matches Some(e) && attempt_error_rel(
                outs[attempt as int - 1],
                e,
            )),
            forall|k: int|
                0 <= k < attempt as int ==> !(#[trigger] outs[k] is Envelope)
                    && outcome_retryable_spec(outs[k]),
        decreases outs.len() - attempt,
    {
        if attempt > 0 {
            proof {
                assert(config.retry_delay_ms * attempt as int <= config.retry_delay_ms
                    * config.max_retries as int) by (nonlinear_arith)
                    requires
                        attempt as int <= config.max_retries as int,
                        config.retry_delay_ms >= 0,
                ;
            }
            let delay: u64 = config.retry_delay_ms * (attempt as u64);
            delays.push(delay);
        }
        let o = &outcomes[attempt];
        let retryable = outcome_retryable(o);
        match attempt_error(o) {
            None => {
                proof {
                    assert(outs[attempt as int] is Envelope);
                    assert(effective_attempts_from(outs, max, attempt as int) == attempt as int
                        + 1);
                }
                return RetryRun { attempts: attempt + 1, failure: None, delays };
            },
            Some(e) => {
                if !retryable {
                    proof {
                        assert(effective_attempts_from(outs, max, attempt as int) == attempt as int
                            + 1);
                    }
                    return RetryRun { attempts: attempt + 1, failure: Some(e), delays };
                }
                if (attempt as u64) + 1 >= config.max_retries as u64 {
                    proof {
                        assert(attempt as int + 1 == max);
                        assert(effective_attempts_from(outs, max, attempt as int + 1)
                            == attempt as int + 1);
                        assert(effective_attempts_from(outs, max, attempt as int) == attempt as int
                            + 1);
                    }
                    return RetryRun { attempts: attempt + 1, failure: Some(e), delays };
                }
                last_error = Some(e);
            },
        }
        attempt = attempt + 1;
    }
    proof {
        assert(attempt == outs.len());
        assert(effective_attempts_from(outs, max, attempt as int) == attempt as int);
    }
    if attempt == 0 {
        RetryRun {
            attempts: 0,
            failure: Some(MathSeekError::NetworkError(String::from_str("Max retries exceeded"))),
            delays,
        }
    } else {
        RetryRun { attempts: attempt, failure: last_error, delays }
    }
}

proof fn lemma_attempts_le_len<T>(outcomes: Seq<AttemptOutcome<T>>, max: int, i: int)
    requires
        0 <= i <= outcomes.len(),
    ensures
        effective_attempts_from(outcomes, max, i) <= outcomes.len(),
        effective_attempts_from(outcomes, max, i) >= i,
    decreases max - i,
{
    if i >= max || i >= outcomes.len() {
    } else if outcomes[i] is Envelope || !outcome_retryable_spec(outcomes[i]) {
    } else {
        lemma_attempts_le_len(outcomes, max, i + 1);
    }
}

/// The confidence an envelope carries, in thousandths; absent means zero.
pub open spec fn response_confidence(response: RecognitionResponse) -> int {
    match response.confidence {
        Some(c) => c as int,
        None => 0,
    }
}

/// The fallback content for a document request whose envelope carried no
/// decodable document: one unnamed section whose body is the top-level
/// LaTeX, with no explicit fragments.
pub open spec fn fallback_document_ok(l: String, c: ResultContent) -> bool {
    &&& c matches ResultContent::Document(d)
    &&& d.title is None
    &&& d.sections@.len() == 1
    &&& d.sections@[0].heading is None
    &&& d.sections@[0].text == l
    &&& d.sections@[0].formulas@.len() == 0
}

/// The content a mapped result must hold, for each request type: the latex
/// field for a single formula; the decoded document for a document request,
/// or the fallback single-section document when none decoded.
pub open spec fn parsed_content_ok(
    response: RecognitionResponse,
    input_type: InputType,
    l: String,
    c: ResultContent,
) -> bool {
    match input_type {
        InputType::SingleFormula => c matches ResultContent::SingleFormula(f) && f == l,
        InputType::Document => match response.content {
            ContentPayload::Document(doc) => c matches ResultContent::Document(d) && d == doc,
            _ => fallback_document_ok(l, c),
        },
    }
}

/// How the mapped result relates to the envelope: a missing latex field is
/// an API error; an empty one or an out-of-range confidence is rejected by
/// the model validation; otherwise the result carries the latex, the
/// confidence (zero when absent), the request's classification, and the
/// mapped content.
pub open spec fn parse_recognition_rel(
    response: RecognitionResponse,
    input_type: InputType,
    r: MathSeekResult<FormulaResult>,
) -> bool {
    &&& response.latex is None ==> (r matches Err(MathSeekError::ApiError(m)) && m@
        == "No LaTeX content in response"@)
    &&& response.latex matches Some(l) ==> (if l@.len() == 0 {
        r matches Err(MathSeekError::ApiError(m)) && m@ == "LaTeX content cannot be empty"@
    } else if !confidence_in_range(response_confidence(response)) {
        r matches Err(MathSeekError::ApiError(m)) && m@
            == "Confidence must be between 0.0 and 1.0"@
    } else {
        r matches Ok(fr) && fr.latex == l && fr.confidence as int == response_confidence(response)
            && fr.input_type == input_type && parsed_content_ok(response, input_type, l, fr.content)
    })
}

/// How a mapped analysis result relates to its envelope: a false success
/// flag surfaces the server's error text (or a generic one), and each absent
/// field defaults to its fixed placeholder.
pub open spec fn parse_analysis_rel(response: AnalysisResponse, r: MathSeekResult<
    AnalysisResult,
>) -> bool {
    &&& !response.success ==> (r matches Err(MathSeekError::ApiError(m)) && (match
    response.error {
        Some(t) => m@ == t@,
        None => m@ == "Analysis failed"@,
    }))
    &&& response.success ==> (r matches Ok(a) && (match response.formula_type {
        Some(s) => a.formula_type == s,
        None => a.formula_type@ == "Unknown"@,
    }) && (match response.description {
        Some(s) => a.description == s,
        None => a.description@ == "No description available"@,
    }) && (match response.usage {
        Some(s) => a.usage == s,
        None => a.usage@ == "No usage information available"@,
    }) && (match response.examples {
        Some(v) => a.examples == v,
        None => a.examples@.len() == 0,
    }))
}

/// The connection settings as reported to callers, with the credential
/// reduced to its presence.
#[derive(Debug, Clone)]
pub struct ConfigInfo {
    pub endpoint: String,
    pub timeout_seconds: u64,
    pub max_retries: u32,
    pub retry_delay_ms: u64,
    pub has_api_key: bool,
}

/// The client of the remote recognition service: holds the configuration
/// snapshot and decides what each call submits and returns.
pub struct ApiClient {
    pub config: ApiConfig,
}

impl ApiClient {
    /// A client over the given configuration.
    pub fn new(config: ApiConfig) -> (r: MathSeekResult<ApiClient>)
        ensures
            r matches Ok(c) && c.config == config,
    {
        Ok(ApiClient { config })
    }

    /// A client over the application configuration, with the default timeout
    /// and retry policy.
    pub fn from_app_config(app_config: &AppConfig) -> (r: MathSeekResult<ApiClient>)
        ensures
            r matches Ok(c) && c.config.endpoint == app_config.api_endpoint
                && c.config.api_key == app_config.api_key && c.config.timeout_seconds == 30
                && c.config.max_retries == 3 && c.config.retry_delay_ms == 1000,
    {
        Self::new(ApiConfig::from_app_config(app_config))
    }

    /// The URL of the authenticated health probe; a configuration error when
    /// the endpoint or the key is not set.
    pub fn health_url(&self) -> (r: MathSeekResult<String>)
        ensures
            self.config.endpoint@.len() == 0 || self.config.api_key@.len() == 0 ==> (r matches Err(
                MathSeekError::ConfigError(m),
            ) && m@ == "API endpoint or key not configured"@),
            self.config.endpoint@.len() > 0 && self.config.api_key@.len() > 0 ==> (r matches Ok(u)
                && u@ == self.config.endpoint@ + "/health"@),
    {
        if self.config.endpoint.as_str().unicode_len() == 0 || self.config.api_key.as_str().unicode_len() == 0 {
            return Err(MathSeekError::ConfigError(
                String::from_str("API endpoint or key not configured"),
            ));
        }
        let mut u = self.config.endpoint.clone();
        u.append("/health");
        Ok(u)
    }

    /// The payload one recognition call submits: the base64-encoded image,
    /// the classification's wire name, LaTeX output, and the fixed
    /// minimum-confidence hint of one half.
    pub fn build_recognition_request(&self, image_data: &[u8], input_type: InputType) -> (r:
        RecognitionRequest)
        ensures
            r.image_data@ == b64_of(image_data@),
            input_type is SingleFormula ==> r.input_type@ == "SingleFormula"@,
            input_type is Document ==> r.input_type@ == "Document"@,
            r.options.output_format@ == "latex"@,
            r.options.confidence_threshold == 500,
    {
        RecognitionRequest {
            image_data: b64_encode(image_data),
            input_type: input_type.as_string(),
            options: RecognitionOptions {
                output_format: String::from_str("latex"),
                confidence_threshold: 500,
            },
        }
    }

    /// The payload one analysis call submits: the formula and the fixed
    /// comprehensive analysis type.
    pub fn build_analysis_request(&self, formula: &str) -> (r: AnalysisRequest)
        ensures
            r.formula@ == formula@,
            r.analysis_type@ == "comprehensive"@,
    {
        AnalysisRequest {
            formula: formula.to_owned(),
            analysis_type: String::from_str("comprehensive"),
        }
    }

    /// Maps a recognition envelope into the typed result, rejecting an
    /// envelope without LaTeX content, an empty formula, or an out-of-range
    /// confidence.
    pub fn parse_recognition_response(&self, response: RecognitionResponse, input_type: InputType)
        -> (r: MathSeekResult<FormulaResult>)
        ensures
            parse_recognition_rel(response, input_type, r),
            r matches Ok(fr) ==> fr.input_type == input_type && fr.latex@.len() > 0
                && confidence_in_range(fr.confidence as int) && (input_type is SingleFormula
                ==> fr.content is SingleFormula) && (input_type is Document ==> fr.content
                is Document),
    {
        let latex = match response.latex {
            Some(l) => l,
            None => {
                return Err(MathSeekError::ApiError(
                    String::from_str("No LaTeX content in response"),
                ));
            },
        };
        let confidence: i32 = match response.confidence {
            Some(c) => c,
            None => 0,
        };
        if latex.as_str().unicode_len() == 0 {
            return Err(MathSeekError::ApiError(String::from_str("LaTeX content cannot be empty")));
        }
        if confidence < 0 || confidence > crate::CONFIDENCE_UNIT {
            return Err(MathSeekError::ApiError(
                String::from_str("Confidence must be between 0.0 and 1.0"),
            ));
        }
        let content = match input_type {
            InputType::SingleFormula => ResultContent::SingleFormula(latex.clone()),
            InputType::Document => match response.content {
                ContentPayload::Document(doc) => ResultContent::Document(doc),
                _ => {
                    let mut doc = DocumentContent::new(None);
                    doc.add_section(crate::DocumentSection::new(None, latex.clone()));
                    ResultContent::Document(doc)
                },
            },
        };
        Ok(FormulaResult {
            latex,
            confidence,
            timestamp: clock::now_unix_secs(),
            input_type,
            content,
        })
    }

    /// Maps an analysis envelope into the typed result, filling each absent
    /// field with its fixed placeholder.
    pub fn parse_analysis_response(&self, response: AnalysisResponse) -> (r: MathSeekResult<
        AnalysisResult,
    >)
        ensures
            parse_analysis_rel(response, r),
    {
        if !response.success {
            return Err(MathSeekError::ApiError(match response.error {
                Some(t) => t,
                None => String::from_str("Analysis failed"),
            }));
        }
        Ok(AnalysisResult {
            formula_type: match response.formula_type {
                Some(s) => s,
                None => String::from_str("Unknown"),
            },
            description: match response.description {
                Some(s) => s,
                None => String::from_str("No description available"),
            },
            usage: match response.usage {
                Some(s) => s,
                None => String::from_str("No usage information available"),
            },
            examples: match response.examples {
                Some(v) => v,
                None => Vec::new(),
            },
        })
    }

    /// Recognizes an image given the transport's per-attempt outcomes: runs
    /// the retry policy, and maps the decisive envelope into the typed
    /// result. On success the decisive envelope is removed from the vector;
    /// on failure the vector is unchanged.
    pub fn recognize_image(
        &self,
        input_type: InputType,
        outcomes: &mut Vec<AttemptOutcome<RecognitionResponse>>,
    ) -> (r: MathSeekResult<FormulaResult>)
        requires
            self.config.retry_config_ok(),
        ensures
            ({
                let n = attempts_used(old(outcomes)@, self.config.max_retries as int);
                &&& n == 0 ==> (r matches Err(MathSeekError::NetworkError(m)) && m@
                    == "Max retries exceeded"@)
                &&& n > 0 && !(old(outcomes)@[n - 1] is Envelope) ==> (r matches Err(e)
                    && attempt_error_rel(old(outcomes)@[n - 1], e))
                &&& n > 0 ==> (old(outcomes)@[n - 1] matches AttemptOutcome::Envelope(env)
                    ==> parse_recognition_rel(env, input_type, r))
                &&& r matches Ok(fr) ==> fr.input_type == input_type && fr.latex@.len() > 0
                    && confidence_in_range(fr.confidence as int) && (input_type is SingleFormula
                    ==> fr.content is SingleFormula) && (input_type is Document ==> fr.content
                    is Document)
                &&& n > 0 && old(outcomes)@[n - 1] is Envelope ==> final(outcomes)@ == old(
                    outcomes,
                )@.remove(n - 1)
                &&& !(n > 0 && old(outcomes)@[n - 1] is Envelope) ==> final(outcomes)@ == old(
                    outcomes,
                )@
            }),
    {
        let run = run_retry_schedule(&self.config, outcomes);
        proof {
            lemma_attempts_le_len(outcomes@, self.config.max_retries as int, 0);
        }
        match run.failure {
            Some(e) => Err(e),
            None => {
                let decisive = outcomes.remove(run.attempts - 1);
                match decisive {
                    AttemptOutcome::Envelope(env) => self.parse_recognition_response(
                        env,
                        input_type,
                    ),
                    _ => unreached(),
                }
            },
        }
    }

    /// Analyzes a formula given the transport's per-attempt outcomes: runs
    /// the retry policy, and maps the decisive envelope into the typed
    /// result. On success the decisive envelope is removed from the vector;
    /// on failure the vector is unchanged.
    pub fn analyze_formula(&self, outcomes: &mut Vec<AttemptOutcome<AnalysisResponse>>) -> (r:
        MathSeekResult<AnalysisResult>)
        requires
            self.config.retry_config_ok(),
        ensures
            ({
                let n = attempts_used(old(outcomes)@, self.config.max_retries as int);
                &&& n == 0 ==> (r matches Err(MathSeekError::NetworkError(m)) && m@
                    == "Max retries exceeded"@)
                &&& n > 0 && !(old(outcomes)@[n - 1] is Envelope) ==> (r matches Err(e)
                    && attempt_error_rel(old(outcomes)@[n - 1], e))
                &&& n > 0 ==> (old(outcomes)@[n - 1] matches AttemptOutcome::Envelope(env)
                    ==> parse_analysis_rel(env, r))
                &&& n > 0 && old(outcomes)@[n - 1] is Envelope ==> final(outcomes)@ == old(
                    outcomes,
                )@.remove(n - 1)
                &&& !(n > 0 && old(outcomes)@[n - 1] is Envelope) ==> final(outcomes)@ == old(
                    outcomes,
                )@
            }),
    {
        let run = run_retry_schedule(&self.config, outcomes);
        proof {
            lemma_attempts_le_len(outcomes@, self.config.max_retries as int, 0);
        }
        match run.failure {
            Some(e) => Err(e),
            None => {
                let decisive = outcomes.remove(run.attempts - 1);
                match decisive {
                    AttemptOutcome::Envelope(env) => self.parse_analysis_response(env),
                    _ => unreached(),
                }
            },
        }
    }

    /// The connection settings without the credential itself: only whether
    /// a key is set is reported.
    pub fn get_config_info(&self) -> (r: ConfigInfo)
        ensures
            r.endpoint == self.config.endpoint,
            r.timeout_seconds == self.config.timeout_seconds,
            r.max_retries == self.config.max_retries,
            r.retry_delay_ms == self.config.retry_delay_ms,
            r.has_api_key == (self.config.api_key@.len() > 0),
    {
        ConfigInfo {
            endpoint: self.config.endpoint.clone(),
            timeout_seconds: self.config.timeout_seconds,
            max_retries: self.config.max_retries,
            retry_delay_ms: self.config.retry_delay_ms,
            has_api_key: self.config.api_key.as_str().unicode_len() > 0,
        }
    }

    /// Replaces the configuration, rejecting one with an empty endpoint or
    /// key; on rejection the client is unchanged.
    pub fn update_config(&mut self, config: ApiConfig) -> (r: MathSeekResult<()>)
        ensures
            config.endpoint@.len() == 0 ==> (r matches Err(MathSeekError::ConfigError(m)) && m@
                == "API endpoint cannot be empty"@ && *final(self) == *old(self)),
            config.endpoint@.len() > 0 && config.api_key@.len() == 0 ==> (r matches Err(
                MathSeekError::ConfigError(m),
            ) && m@ == "API key cannot be empty"@ && *final(self) == *old(self)),
            config.endpoint@.len() > 0 && config.api_key@.len() > 0 ==> (r is Ok
                && final(self).config == config),
    {
        if config.endpoint.as_str().unicode_len() == 0 {
            return Err(MathSeekError::ConfigError(
                String::from_str("API endpoint cannot be empty"),
            ));
        }
        if config.api_key.as_str().unicode_len() == 0 {
            return Err(MathSeekError::ConfigError(String::from_str("API key cannot be empty")));
        }
        self.config = config;
        Ok(())
    }
}

/// The delay to sleep before the next attempt, after attempt `attempt`
/// (zero-based) failed with a retryable error: `None` when the
/// `max_retries` attempt budget is spent, else the linear backoff
/// `retry_delay_ms * (attempt + 1)`.
pub fn next_retry_delay(config: &ApiConfig, attempt: u32, retryable: bool) -> (r: Option<u64>)
    requires
        config.retry_config_ok(),
    ensures
        !retryable || attempt as int + 1 >= config.max_retries ==> r is None,
        retryable && attempt as int + 1 < config.max_retries ==> r == Some(
            (config.retry_delay_ms * (attempt + 1)) as u64,
        ),
{
    if !retryable || (attempt as u64) + 1 >= config.max_retries as u64 {
        None
    } else {
        proof {
            assert(config.retry_delay_ms * (attempt as int + 1) <= config.retry_delay_ms
                * config.max_retries as int) by (nonlinear_arith)
                requires
                    attempt as int + 1 <= config.max_retries as int,
                    config.retry_delay_ms >= 0,
            ;
        }
        Some(config.retry_delay_ms * ((attempt + 1) as u64))
    }
}

} // verus!
