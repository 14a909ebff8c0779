use mathseek::config_manager::validate_config;
use mathseek::{AppConfig, MathSeekError};

fn create_test_config() -> AppConfig {
    let mut config = AppConfig::default();
    config.api_endpoint = "https://api.example.com".to_string();
    config.api_key = "test-api-key".to_string();
    config
}

#[test]
fn test_config_validation() {
    let config = create_test_config();

    // The endpoint cannot actually be reached here; basic validation must
    // still pass with no errors collected.
    let validation = validate_config(
        &config,
        Err(MathSeekError::NetworkError("unreachable".to_string())),
    );
    assert!(validation.errors.is_empty());
    assert!(validation.is_valid);
}

#[test]
fn test_config_validation_invalid_config_collects_error() {
    let config = AppConfig::default();
    let validation = validate_config(&config, Ok(true));
    assert!(!validation.is_valid);
    assert!(!validation.api_connection_ok);
    assert_eq!(validation.errors.len(), 1);
    assert_eq!(validation.errors[0], "配置错误: API endpoint cannot be empty");
    assert!(validation.warnings.is_empty());
}

#[test]
fn test_config_validation_connection_outcomes() {
    let config = create_test_config();

    let ok = validate_config(&config, Ok(true));
    assert!(ok.is_valid);
    assert!(ok.api_connection_ok);
    assert!(ok.warnings.is_empty());

    let refused = validate_config(&config, Ok(false));
    assert!(refused.is_valid);
    assert!(!refused.api_connection_ok);
    assert_eq!(refused.warnings, vec!["API connection test failed".to_string()]);

    let failed = validate_config(
        &config,
        Err(MathSeekError::NetworkError("timed out".to_string())),
    );
    assert!(failed.is_valid);
    assert!(!failed.api_connection_ok);
    assert_eq!(
        failed.warnings,
        vec!["API connection error: 网络错误: timed out".to_string()]
    );
}
