//! Configuration validation: the decisions taken when a configuration is
//! checked and its endpoint probed. Reading, writing and encrypting the
//! on-disk configuration are a collaborator's work; it hands in the
//! connection probe's outcome and receives the finished verdict.
use vstd::prelude::*;

use crate::error::error_display_spec;
use crate::{AppConfig, MathSeekError, MathSeekResult, app_config_valid};

verus! {

/// The message the structural validation reports for an incomplete
/// configuration: the first failing check wins.
pub open spec fn config_validation_message(c: AppConfig) -> Seq<char> {
    if c.api_endpoint@.len() == 0 {
        "API endpoint cannot be empty"@
    } else if c.api_key@.len() == 0 {
        "API key cannot be empty"@
    } else {
        "API endpoint must be a valid URL"@
    }
}

/// The verdict on a configuration: structural validity, whether the
/// endpoint answered the probe, and the collected errors and warnings.
#[derive(Debug, Clone)]
pub struct ConfigValidation {
    pub is_valid: bool,
    pub api_connection_ok: bool,
    pub errors: Vec<String>,
    pub warnings: Vec<String>,
}

/// Judges a configuration: a structurally invalid one is reported with its
/// error and the probe is not consulted; a valid one is judged by the
/// probe's outcome — success, a clean refusal (warned), or a transport
/// error (warned with its display form).
pub fn validate_config(config: &AppConfig, connection: MathSeekResult<bool>) -> (r:
    ConfigValidation)
    ensures
        r.is_valid == app_config_valid(*config),
        !app_config_valid(*config) ==> (!r.api_connection_ok && r.warnings@.len() == 0
            && r.errors@.len() == 1 && r.errors@[0]@ == "配置错误: "@ + config_validation_message(
            *config,
        )),
        app_config_valid(*config) ==> r.errors@.len() == 0,
        app_config_valid(*config) && connection == Ok::<bool, MathSeekError>(true) ==> (
        r.api_connection_ok && r.warnings@.len() == 0),
        app_config_valid(*config) && connection == Ok::<bool, MathSeekError>(false) ==> (
        !r.api_connection_ok && r.warnings@.len() == 1 && r.warnings@[0]@
            == "API connection test failed"@),
        app_config_valid(*config) ==> (connection matches Err(e) ==> (!r.api_connection_ok
            && r.warnings@.len() == 1 && r.warnings@[0]@ == "API connection error: "@
            + error_display_spec(e))),
{
    let mut validation = ConfigValidation {
        is_valid: true,
        api_connection_ok: false,
        errors: Vec::new(),
        warnings: Vec::new(),
    };
    match config.validate() {
        Ok(()) => {},
        Err(e) => {
            validation.is_valid = false;
            validation.errors.push(e.to_display_string());
            return validation;
        },
    }
    match connection {
        Ok(true) => {
            validation.api_connection_ok = true;
        },
        Ok(false) => {
            validation.warnings.push(String::from_str("API connection test failed"));
        },
        Err(e) => {
            let mut w = String::from_str("API connection error: ");
            let d = e.to_display_string();
            w.append(d.as_str());
            validation.warnings.push(w);
        },
    }
    validation
}

} // verus!
