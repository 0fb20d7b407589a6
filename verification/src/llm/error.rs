//! The closed set of LLM client errors.

use vstd::prelude::*;
use crate::num::dec_rep;

verus! {

/// Everything an LLM call can fail with. Each value is terminal for the
/// call that produced it.
#[derive(Debug, Clone, PartialEq, Eq)]
pub enum LlmError {
    /// The transport could not complete the request; carries its report.
    RequestFailed(String),
    /// A response body was not the JSON the call expected.
    JsonParseFailed(String),
    /// A non-2xx status outside the specially handled ones.
    ApiError { status: u16, message: String },
    /// Status 401: the API key is missing or invalid.
    AuthError,
    /// Status 429, with the parsed `retry-after` header when one came.
    RateLimitExceeded { retry_after: Option<u64> },
    /// The client was configured unusably.
    ConfigError(String),
    /// The named model is unknown or unavailable.
    ModelNotFound(String),
    /// The request was rejected before it was sent.
    InvalidRequest(String),
}

/// The rendering of an optional retry delay, in the shape the debug
/// formatter gives an optional number.
pub open spec fn spec_retry_after_text(retry_after: Option<u64>) -> Seq<char> {
    match retry_after {
        Some(n) => "Some("@ + dec_rep(n as nat) + ")"@,
        None => "None"@,
    }
}

/// The one-line description of an LLM error.
pub open spec fn spec_llm_error_message(e: LlmError) -> Seq<char> {
    match e {
        LlmError::RequestFailed(m) => "HTTP request failed: "@ + m@,
        LlmError::JsonParseFailed(m) => "Failed to parse JSON: "@ + m@,
        LlmError::ApiError { status, message } => "API error: "@ + dec_rep(status as nat) + " - "@
            + message@,
        LlmError::AuthError => "Authentication failed: missing or invalid API key"@,
        LlmError::RateLimitExceeded { retry_after } => "Rate limit exceeded. Retry after: "@
            + spec_retry_after_text(retry_after),
        LlmError::ConfigError(m) => "Invalid configuration: "@ + m@,
        LlmError::ModelNotFound(m) => "Model not found or not available: "@ + m@,
        LlmError::InvalidRequest(m) => "Invalid request: "@ + m@,
    }
}

impl LlmError {
    /// Renders the error for display, as [`spec_llm_error_message`]
    /// describes.
    pub fn message(&self) -> (r: String)
        ensures
            r@ == spec_llm_error_message(*self),
    {
        match self {
            LlmError::RequestFailed(m) => {
                let mut s: String = "HTTP request failed: ".to_owned();
                s.append(m.as_str());
                s
            },
            LlmError::JsonParseFailed(m) => {
                let mut s: String = "Failed to parse JSON: ".to_owned();
                s.append(m.as_str());
                s
            },
            LlmError::ApiError { status, message } => {
                let mut s: String = "API error: ".to_owned();
                let code = crate::num::fmt_u16(*status);
                s.append(code.as_str());
                s.append(" - ");
                s.append(message.as_str());
                s
            },
            LlmError::AuthError => {
                "Authentication failed: missing or invalid API key".to_owned()
            },
            LlmError::RateLimitExceeded { retry_after } => {
                let mut s: String = "Rate limit exceeded. Retry after: ".to_owned();
                match retry_after {
                    Some(n) => {
                        s.append("Some(");
                        let num = crate::num::fmt_u64(*n);
                        s.append(num.as_str());
                        s.append(")");
                    },
                    None => {
                        s.append("None");
                    },
                }
                s
            },
            LlmError::ConfigError(m) => {
                let mut s: String = "Invalid configuration: ".to_owned();
                s.append(m.as_str());
                s
            },
            LlmError::ModelNotFound(m) => {
                let mut s: String = "Model not found or not available: ".to_owned();
                s.append(m.as_str());
                s
            },
            LlmError::InvalidRequest(m) => {
                let mut s: String = "Invalid request: ".to_owned();
                s.append(m.as_str());
                s
            },
        }
    }
}

} // verus!
