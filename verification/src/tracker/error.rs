//! The closed set of tracker client errors, classified from HTTP status
//! codes, transport failures, and malformed payloads.

use vstd::prelude::*;
use crate::num::dec_rep;

verus! {

/// Everything a tracker call can fail with. Each value is terminal for
/// the call that produced it; no retry state is tracked.
#[derive(Debug, Clone, PartialEq, Eq)]
pub enum TrackerError {
    /// The transport could not complete the request; carries its report.
    RequestFailed(String),
    /// A response body was not the JSON the call expected.
    JsonParseFailed(String),
    /// A non-2xx status outside the specially handled ones.
    ApiError { status: u16, message: String },
    /// Authentication failed for a stated reason.
    AuthError(String),
    /// Status 401.
    Unauthorized,
    /// Status 403.
    Forbidden,
    /// Status 404; carries the response body as resource context.
    NotFound { resource: String },
    /// The client was configured unusably.
    ConfigError(String),
}

/// The one-line description of a tracker error.
pub open spec fn spec_tracker_error_message(e: TrackerError) -> Seq<char> {
    match e {
        TrackerError::RequestFailed(m) => "HTTP request failed: "@ + m@,
        TrackerError::JsonParseFailed(m) => "Failed to parse JSON: "@ + m@,
        TrackerError::ApiError { status, message } => "API error: "@ + dec_rep(status as nat)
            + " - "@ + message@,
        TrackerError::AuthError(m) => "Authentication failed: "@ + m@,
        TrackerError::Unauthorized => "Unauthorized (401): User is not authenticated. Please check your OAuth token and ensure API access is properly configured."@,
        TrackerError::Forbidden => "Forbidden (403): Insufficient permissions to perform this action. You need the same permissions in the API as you would in the Tracker interface."@,
        TrackerError::NotFound { resource } => "Not Found (404): The requested resource was not found. Please verify the object identifier or key. "@
            + resource@,
        TrackerError::ConfigError(m) => "Invalid configuration: "@ + m@,
    }
}

impl TrackerError {
    /// Renders the error for display, as [`spec_tracker_error_message`]
    /// describes.
    pub fn message(&self) -> (r: String)
        ensures
            r@ == spec_tracker_error_message(*self),
    {
        match self {
            TrackerError::RequestFailed(m) => {
                let mut s: String = "HTTP request failed: ".to_owned();
                s.append(m.as_str());
                s
            },
            TrackerError::JsonParseFailed(m) => {
                let mut s: String = "Failed to parse JSON: ".to_owned();
                s.append(m.as_str());
                s
            },
            TrackerError::ApiError { status, message } => {
                let mut s: String = "API error: ".to_owned();
                let code = crate::num::fmt_u16(*status);
                s.append(code.as_str());
                s.append(" - ");
                s.append(message.as_str());
                s
            },
            TrackerError::AuthError(m) => {
                let mut s: String = "Authentication failed: ".to_owned();
                s.append(m.as_str());
                s
            },
            TrackerError::Unauthorized => {
                "Unauthorized (401): User is not authenticated. Please check your OAuth token and ensure API access is properly configured.".to_owned()
            },
            TrackerError::Forbidden => {
                "Forbidden (403): Insufficient permissions to perform this action. You need the same permissions in the API as you would in the Tracker interface.".to_owned()
            },
            TrackerError::NotFound { resource } => {
                let mut s: String =
                    "Not Found (404): The requested resource was not found. Please verify the object identifier or key. ".to_owned();
                s.append(resource.as_str());
                s
            },
            TrackerError::ConfigError(m) => {
                let mut s: String = "Invalid configuration: ".to_owned();
                s.append(m.as_str());
                s
            },
        }
    }
}

} // verus!
