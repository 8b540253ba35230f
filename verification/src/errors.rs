//! The errors that operations on the completion API can end in.

use crate::json::error_message;
use crate::json::error_text;
use crate::text::decimal;
use crate::text::decimal_string;
use vstd::prelude::*;
use vstd::std_specs::convert::FromSpecImpl;
use vstd::string::*;

verus! {

/// Error type for completion API operations.
#[derive(Debug, Clone, PartialEq, Eq)]
pub enum GenAiError {
    /// The HTTP request failed.
    HttpError(String),
    /// JSON could not be written or read.
    JsonError(String),
    /// The API answered with an error.
    ApiError { status: u16, message: String },
    /// The response did not have the expected form.
    InvalidResponse(String),
    /// The rate limit was exceeded; `retry_after` is in seconds, where the
    /// API gave one.
    RateLimitExceeded { retry_after: Option<u64> },
    /// The credentials were not accepted.
    AuthenticationError(String),
}

/// A `GenAiError` with its texts as character sequences.
pub enum GenAiErrorView {
    HttpError(Seq<char>),
    JsonError(Seq<char>),
    ApiError { status: u16, message: Seq<char> },
    InvalidResponse(Seq<char>),
    RateLimitExceeded { retry_after: Option<u64> },
    AuthenticationError(Seq<char>),
}

impl View for GenAiError {
    type V = GenAiErrorView;

    open spec fn view(&self) -> GenAiErrorView {
        match *self {
            GenAiError::HttpError(m) => GenAiErrorView::HttpError(m@),
            GenAiError::JsonError(m) => GenAiErrorView::JsonError(m@),
            GenAiError::ApiError { status, message } => GenAiErrorView::ApiError {
                status,
                message: message@,
            },
            GenAiError::InvalidResponse(m) => GenAiErrorView::InvalidResponse(m@),
            GenAiError::RateLimitExceeded { retry_after } => GenAiErrorView::RateLimitExceeded {
                retry_after,
            },
            GenAiError::AuthenticationError(m) => GenAiErrorView::AuthenticationError(m@),
        }
    }
}

impl GenAiErrorView {
    /// The one-line description of the error, for people to read.
    pub open spec fn text(self) -> Seq<char> {
        match self {
            GenAiErrorView::HttpError(m) => "HTTP error: "@ + m,
            GenAiErrorView::JsonError(m) => "JSON error: "@ + m,
            GenAiErrorView::ApiError { status, message } => "API error ("@ + decimal(status as nat)
                + "): "@ + message,
            GenAiErrorView::InvalidResponse(m) => "Invalid response: "@ + m,
            GenAiErrorView::RateLimitExceeded { retry_after: Some(seconds) } =>
                "Rate limit exceeded. Retry after "@ + decimal(seconds as nat) + " seconds"@,
            GenAiErrorView::RateLimitExceeded { retry_after: None } => "Rate limit exceeded"@,
            GenAiErrorView::AuthenticationError(m) => "Authentication error: "@ + m,
        }
    }
}

impl GenAiError {
    /// Describes the error in one line.
    pub fn to_string(&self) -> (r: String)
        ensures
            r@ == self@.text(),
    {
        match self {
            GenAiError::HttpError(m) => "HTTP error: ".to_owned().concat(m.as_str()),
            GenAiError::JsonError(m) => "JSON error: ".to_owned().concat(m.as_str()),
            GenAiError::ApiError { status, message } => {
                let number = decimal_string(*status as u64);
                "API error (".to_owned().concat(number.as_str()).concat("): ").concat(
                    message.as_str(),
                )
            },
            GenAiError::InvalidResponse(m) => "Invalid response: ".to_owned().concat(m.as_str()),
            GenAiError::RateLimitExceeded { retry_after } => {
                match retry_after {
                    Some(seconds) => {
                        let number = decimal_string(*seconds);
                        "Rate limit exceeded. Retry after ".to_owned().concat(
                            number.as_str(),
                        ).concat(" seconds")
                    },
                    None => "Rate limit exceeded".to_owned(),
                }
            },
            GenAiError::AuthenticationError(m) => "Authentication error: ".to_owned().concat(
                m.as_str(),
            ),
        }
    }
}

impl From<serde_json::Error> for GenAiError {
    /// A failure of the JSON parser or printer becomes a `JsonError` that
    /// keeps its diagnostic text.
    fn from(error: serde_json::Error) -> (r: Self) {
        GenAiError::JsonError(error_message(&error))
    }
}

impl FromSpecImpl<serde_json::Error> for GenAiError {
    open spec fn obeys_from_spec() -> bool {
        true
    }

    open spec fn from_spec(error: serde_json::Error) -> Self {
        GenAiError::JsonError(error_text(error))
    }
}

} // verus!
