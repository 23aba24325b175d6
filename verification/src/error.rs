//! The error taxonomy of the client. Every failure an operation can end in
//! is one of these kinds, and each carries its diagnostic payload intact.

use vstd::prelude::*;

use crate::strutil::dec_str;
use crate::strutil::u64_to_string;

verus! {

/// API errors.
#[derive(Debug, Clone, PartialEq, Eq)]
pub enum ApiError {
    /// Credentials are missing or empty; caught before any network activity.
    ConfigurationError(String),
    /// The server rejected the credentials (status 401 or 403).
    AuthenticationError,
    /// The requested resource is absent (status 404); carries the body text.
    NotFoundError(String),
    /// The server is throttling (status 429); the caller must retry.
    RateLimitError,
    /// The local request timeout elapsed.
    TimeoutError,
    /// Any other non-success status, with the raw status and body text.
    ApiError { status: u16, message: String },
    /// A transport failure other than a timeout, with its detail.
    NetworkError(String),
    /// A success response whose body did not match the expected shape.
    ResponseParseError(String),
}

impl ApiError {
    /// The user-facing text of this error.
    pub open spec fn spec_message(self) -> Seq<char> {
        match self {
            ApiError::ConfigurationError(detail) => detail@,
            ApiError::AuthenticationError => {
                "Authentication failed. Check your public and secret keys."@
            },
            ApiError::NotFoundError(detail) => "Resource not found: "@ + detail@,
            ApiError::RateLimitError => "Rate limit exceeded. Please try again later."@,
            ApiError::TimeoutError => "Request timeout"@,
            ApiError::ApiError { status, message } => {
                "API error: "@ + dec_str(status as int) + " - "@ + message@
            },
            ApiError::NetworkError(detail) => "Network error: "@ + detail@,
            ApiError::ResponseParseError(detail) => "Failed to parse response: "@ + detail@,
        }
    }

    /// Renders the user-facing text of this error.
    pub fn message(&self) -> (r: String)
        ensures
            r@ == self.spec_message(),
    {
        match self {
            ApiError::ConfigurationError(detail) => detail.clone(),
            ApiError::AuthenticationError => {
                String::from_str("Authentication failed. Check your public and secret keys.")
            },
            ApiError::NotFoundError(detail) => {
                let mut out = String::from_str("Resource not found: ");
                out.append(detail.as_str());
                out
            },
            ApiError::RateLimitError => {
                String::from_str("Rate limit exceeded. Please try again later.")
            },
            ApiError::TimeoutError => String::from_str("Request timeout"),
            ApiError::ApiError { status, message } => {
                let mut out = String::from_str("API error: ");
                let status_text = u64_to_string(*status as u64);
                out.append(status_text.as_str());
                out.append(" - ");
                out.append(message.as_str());
                out
            },
            ApiError::NetworkError(detail) => {
                let mut out = String::from_str("Network error: ");
                out.append(detail.as_str());
                out
            },
            ApiError::ResponseParseError(detail) => {
                let mut out = String::from_str("Failed to parse response: ");
                out.append(detail.as_str());
                out
            },
        }
    }
}

} // verus!
