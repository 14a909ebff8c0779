use mathseek::api_client::{
    AnalysisResponse, ApiClient, ApiConfig, AttemptOutcome, ContentPayload, RecognitionResponse,
    next_retry_delay, run_retry_schedule,
};
use mathseek::{AppConfig, InputType, MathSeekError, ResultContent};

use base64::prelude::{Engine as _, BASE64_STANDARD};

#[test]
fn test_api_config_creation() {
    let config = ApiConfig::default();
    assert_eq!(config.timeout_seconds, 30);
    assert_eq!(config.max_retries, 3);
    assert_eq!(config.retry_delay_ms, 1000);
}

#[test]
fn test_api_config_from_app_config() {
    let mut app_config = AppConfig::default();
    app_config.api_endpoint = "https://api.example.com".to_string();
    app_config.api_key = "test-key".to_string();

    let api_config = ApiConfig::from_app_config(&app_config);
    assert_eq!(api_config.endpoint, "https://api.example.com");
    assert_eq!(api_config.api_key, "test-key");
}

#[test]
fn test_api_client_creation() {
    let config = ApiConfig {
        endpoint: "https://api.example.com".to_string(),
        api_key: "test-key".to_string(),
        ..Default::default()
    };

    let client = ApiClient::new(config);
    assert!(client.is_ok());
}

fn good_envelope(latex: &str, confidence: i32) -> RecognitionResponse {
    RecognitionResponse {
        success: true,
        latex: Some(latex.to_string()),
        confidence: Some(confidence),
        content: ContentPayload::Absent,
        error: None,
    }
}

#[test]
fn test_retry_succeeds_on_third_attempt_with_linear_backoff() {
    // a transport that fails twice then succeeds: the third attempt wins,
    // having slept 1x base then 2x base
    let config = ApiConfig::default();
    let outcomes: Vec<AttemptOutcome<RecognitionResponse>> = vec![
        AttemptOutcome::Transport("connection reset".to_string()),
        AttemptOutcome::TimedOut,
        AttemptOutcome::Envelope(good_envelope("E = mc^2", 950)),
    ];
    let run = run_retry_schedule(&config, &outcomes);
    assert_eq!(run.attempts, 3);
    assert!(run.failure.is_none());
    assert_eq!(run.delays, vec![1000, 2000]);
}

#[test]
fn test_retry_stops_immediately_on_auth_failure() {
    // an HTTP 401 on the first attempt is not retried
    let config = ApiConfig::default();
    let outcomes: Vec<AttemptOutcome<RecognitionResponse>> = vec![
        AttemptOutcome::HttpStatus(401, "unauthorized".to_string()),
        AttemptOutcome::Envelope(good_envelope("never reached", 950)),
    ];
    let run = run_retry_schedule(&config, &outcomes);
    assert_eq!(run.attempts, 1);
    assert!(run.delays.is_empty());
    match run.failure.unwrap() {
        MathSeekError::ApiError(m) => {
            assert_eq!(m, "API request failed with status: 401 - unauthorized");
        }
        _ => panic!("expected an api error"),
    }
}

#[test]
fn test_retry_exhaustion_surfaces_last_error() {
    // at most max_retries attempts are made; the error of the last one wins
    let config = ApiConfig::default();
    let outcomes: Vec<AttemptOutcome<RecognitionResponse>> = vec![
        AttemptOutcome::TimedOut,
        AttemptOutcome::TimedOut,
        AttemptOutcome::Transport("last straw".to_string()),
        AttemptOutcome::Envelope(good_envelope("never reached", 950)),
    ];
    let run = run_retry_schedule(&config, &outcomes);
    assert_eq!(run.attempts, 3);
    assert_eq!(run.delays, vec![1000, 2000]);
    match run.failure.unwrap() {
        MathSeekError::NetworkError(m) => assert_eq!(m, "Request failed: last straw"),
        _ => panic!("expected a network error"),
    }
}

#[test]
fn test_retry_with_no_outcomes_reports_exhaustion() {
    let config = ApiConfig::default();
    let outcomes: Vec<AttemptOutcome<RecognitionResponse>> = vec![];
    let run = run_retry_schedule(&config, &outcomes);
    assert_eq!(run.attempts, 0);
    match run.failure.unwrap() {
        MathSeekError::NetworkError(m) => assert_eq!(m, "Max retries exceeded"),
        _ => panic!("expected a network error"),
    }
}

#[test]
fn test_next_retry_delay_policy() {
    // attempts are zero-based; with 3 max retries the budget ends after
    // attempt index 2
    let config = ApiConfig::default();
    assert_eq!(next_retry_delay(&config, 0, true), Some(1000));
    assert_eq!(next_retry_delay(&config, 1, true), Some(2000));
    assert_eq!(next_retry_delay(&config, 2, true), None);
    assert_eq!(next_retry_delay(&config, 0, false), None);
}

fn client() -> ApiClient {
    let mut app_config = AppConfig::default();
    app_config.api_endpoint = "https://api.example.com".to_string();
    app_config.api_key = "k".to_string();
    ApiClient::from_app_config(&app_config).unwrap()
}

#[test]
fn test_recognize_image_succeeds_after_transient_failures() {
    let c = client();
    let mut outcomes = vec![
        AttemptOutcome::Transport("flaky".to_string()),
        AttemptOutcome::TimedOut,
        AttemptOutcome::Envelope(good_envelope("E = mc^2", 950)),
    ];
    let result = c
        .recognize_image(InputType::SingleFormula, &mut outcomes)
        .unwrap();
    assert_eq!(result.latex, "E = mc^2");
    assert_eq!(result.confidence, 950);
    match result.content {
        ResultContent::SingleFormula(f) => assert_eq!(f, "E = mc^2"),
        _ => panic!("expected single-formula content"),
    }
}

#[test]
fn test_recognize_image_refused_envelope_surfaces_server_error() {
    let c = client();
    let mut outcomes: Vec<AttemptOutcome<RecognitionResponse>> = vec![
        AttemptOutcome::Refused(Some("no formula seen".to_string())),
        AttemptOutcome::Refused(None),
        AttemptOutcome::Refused(None),
    ];
    match c
        .recognize_image(InputType::SingleFormula, &mut outcomes)
        .unwrap_err()
    {
        MathSeekError::ApiError(m) => assert_eq!(m, "Unknown API error"),
        _ => panic!("expected an api error"),
    }
}

#[test]
fn test_recognize_image_missing_latex_is_api_error() {
    let c = client();
    let envelope = RecognitionResponse {
        success: true,
        latex: None,
        confidence: Some(900),
        content: ContentPayload::Absent,
        error: None,
    };
    let mut outcomes = vec![AttemptOutcome::Envelope(envelope)];
    match c
        .recognize_image(InputType::SingleFormula, &mut outcomes)
        .unwrap_err()
    {
        MathSeekError::ApiError(m) => assert_eq!(m, "No LaTeX content in response"),
        _ => panic!("expected an api error"),
    }
}

#[test]
fn test_recognize_image_out_of_range_confidence_is_rejected() {
    // the mapping rejects an out-of-range confidence rather than clamping:
    // clamping belongs to post-validation
    let c = client();
    let mut outcomes = vec![AttemptOutcome::Envelope(good_envelope("x", 1500))];
    match c
        .recognize_image(InputType::SingleFormula, &mut outcomes)
        .unwrap_err()
    {
        MathSeekError::ApiError(m) => {
            assert_eq!(m, "Confidence must be between 0.0 and 1.0");
        }
        _ => panic!("expected an api error"),
    }
}

#[test]
fn test_recognize_image_absent_confidence_defaults_to_zero() {
    let c = client();
    let envelope = RecognitionResponse {
        success: true,
        latex: Some("x".to_string()),
        confidence: None,
        content: ContentPayload::Absent,
        error: None,
    };
    let mut outcomes = vec![AttemptOutcome::Envelope(envelope)];
    let result = c
        .recognize_image(InputType::SingleFormula, &mut outcomes)
        .unwrap();
    assert_eq!(result.confidence, 0);
}

#[test]
fn test_recognize_image_document_payload_is_kept() {
    let c = client();
    let mut doc = mathseek::DocumentContent::new(Some("T".to_string()));
    doc.add_section(mathseek::DocumentSection::new(None, "body".to_string()));
    let envelope = RecognitionResponse {
        success: true,
        latex: Some("whole".to_string()),
        confidence: Some(700),
        content: ContentPayload::Document(doc),
        error: None,
    };
    let mut outcomes = vec![AttemptOutcome::Envelope(envelope)];
    let result = c.recognize_image(InputType::Document, &mut outcomes).unwrap();
    match result.content {
        ResultContent::Document(d) => {
            assert_eq!(d.title, Some("T".to_string()));
            assert_eq!(d.sections.len(), 1);
        }
        _ => panic!("expected document content"),
    }
}

#[test]
fn test_recognize_image_malformed_content_falls_back() {
    let c = client();
    let envelope = RecognitionResponse {
        success: true,
        latex: Some("fallback body".to_string()),
        confidence: Some(700),
        content: ContentPayload::Malformed,
        error: None,
    };
    let mut outcomes = vec![AttemptOutcome::Envelope(envelope)];
    let result = c.recognize_image(InputType::Document, &mut outcomes).unwrap();
    match result.content {
        ResultContent::Document(d) => {
            assert_eq!(d.title, None);
            assert_eq!(d.sections.len(), 1);
            assert_eq!(d.sections[0].text, "fallback body");
            assert!(d.sections[0].formulas.is_empty());
        }
        _ => panic!("expected document content"),
    }
}

#[test]
fn test_analyze_formula_defaults_placeholders() {
    let c = client();
    let envelope = AnalysisResponse {
        success: true,
        formula_type: None,
        description: None,
        usage: None,
        examples: None,
        error: None,
    };
    let mut outcomes = vec![AttemptOutcome::Envelope(envelope)];
    let analysis = c.analyze_formula(&mut outcomes).unwrap();
    assert_eq!(analysis.formula_type, "Unknown");
    assert_eq!(analysis.description, "No description available");
    assert_eq!(analysis.usage, "No usage information available");
    assert!(analysis.examples.is_empty());
}

#[test]
fn test_analyze_formula_failure_surfaces_error() {
    let c = client();
    let envelope = AnalysisResponse {
        success: false,
        formula_type: None,
        description: None,
        usage: None,
        examples: None,
        error: Some("could not classify".to_string()),
    };
    // an unsuccessful envelope never becomes an AttemptOutcome::Envelope;
    // the transport reports it as refused
    let mut outcomes: Vec<AttemptOutcome<AnalysisResponse>> = vec![
        AttemptOutcome::Refused(envelope.error.clone()),
        AttemptOutcome::Refused(envelope.error.clone()),
        AttemptOutcome::Refused(envelope.error.clone()),
        AttemptOutcome::Refused(envelope.error),
    ];
    match c.analyze_formula(&mut outcomes).unwrap_err() {
        MathSeekError::ApiError(m) => assert_eq!(m, "could not classify"),
        _ => panic!("expected an api error"),
    }
}

#[test]
fn test_build_recognition_request() {
    let c = client();
    let request = c.build_recognition_request(b"img-bytes", InputType::SingleFormula);
    assert_eq!(request.input_type, "SingleFormula");
    assert_eq!(request.options.output_format, "latex");
    assert_eq!(request.options.confidence_threshold, 500);
    // the payload is the standard base64 of the bytes
    assert_eq!(request.image_data, BASE64_STANDARD.encode(b"img-bytes"));
}

#[test]
fn test_build_analysis_request() {
    let c = client();
    let request = c.build_analysis_request("x^2 + y^2 = r^2");
    assert_eq!(request.formula, "x^2 + y^2 = r^2");
    assert_eq!(request.analysis_type, "comprehensive");
}

#[test]
fn test_health_url() {
    let c = client();
    assert_eq!(c.health_url().unwrap(), "https://api.example.com/health");

    let unconfigured = ApiClient::new(ApiConfig::default()).unwrap();
    match unconfigured.health_url().unwrap_err() {
        MathSeekError::ConfigError(m) => assert_eq!(m, "API endpoint or key not configured"),
        _ => panic!("expected a config error"),
    }
}

#[test]
fn test_update_api_config() {
    let mut c = client();
    let bad = ApiConfig::default();
    assert!(c.update_config(bad).is_err());
    assert_eq!(c.config.endpoint, "https://api.example.com");

    let good = ApiConfig {
        endpoint: "https://api.other.com".to_string(),
        api_key: "k2".to_string(),
        timeout_seconds: 10,
        max_retries: 2,
        retry_delay_ms: 500,
    };
    assert!(c.update_config(good).is_ok());
    assert_eq!(c.config.endpoint, "https://api.other.com");
    assert_eq!(c.config.timeout_seconds, 10);
}
