//! The ways in which a submission or a status query can fail.

use vstd::prelude::*;

verus! {

/// Why an operation failed. Nothing is retried: every failure is handed to the
/// caller, who decides what to do next.
#[derive(Debug, PartialEq)]
pub enum SubmitError {
    /// The target could not be read as a URL; `reason` is the parser's word.
    InvalidUrl { reason: String, url: String },
    /// The target names a scheme other than `http`.
    UnsupportedScheme { scheme: String, url: String },
    /// The target names no scheme.
    MissingScheme { url: String },
    /// The request never got an answer.
    TransportFailure { message: String },
    /// The answer's body is not the JSON document that was expected.
    ProtocolError,
    /// The server could not settle the query within the time it was given.
    ServiceUnavailable,
}

/// What a [`SubmitError`] holds.
pub enum SubmitErrorView {
    InvalidUrl { reason: Seq<char>, url: Seq<char> },
    UnsupportedScheme { scheme: Seq<char>, url: Seq<char> },
    MissingScheme { url: Seq<char> },
    TransportFailure { message: Seq<char> },
    ProtocolError,
    ServiceUnavailable,
}

impl View for SubmitError {
    type V = SubmitErrorView;

    open spec fn view(&self) -> SubmitErrorView {
        match self {
            SubmitError::InvalidUrl { reason, url } => SubmitErrorView::InvalidUrl {
                reason: reason@,
                url: url@,
            },
            SubmitError::UnsupportedScheme { scheme, url } => SubmitErrorView::UnsupportedScheme {
                scheme: scheme@,
                url: url@,
            },
            SubmitError::MissingScheme { url } => SubmitErrorView::MissingScheme { url: url@ },
            SubmitError::TransportFailure { message } => SubmitErrorView::TransportFailure {
                message: message@,
            },
            SubmitError::ProtocolError => SubmitErrorView::ProtocolError,
            SubmitError::ServiceUnavailable => SubmitErrorView::ServiceUnavailable,
        }
    }
}

impl SubmitErrorView {
    /// The sentence shown to the user. A URL failure names the reason and
    /// quotes the URL as the caller gave it.
    pub open spec fn message(self) -> Seq<char> {
        match self {
            SubmitErrorView::InvalidUrl { reason, url } => "Invalid URL: "@ + reason + ": "@ + url,
            SubmitErrorView::UnsupportedScheme { scheme, url } => "Unsupported scheme ("@ + scheme
                + ") in URL: "@ + url,
            SubmitErrorView::MissingScheme { url } => "No scheme in URL: "@ + url,
            SubmitErrorView::TransportFailure { message } => "Request failed: "@ + message,
            SubmitErrorView::ProtocolError => "Response body is not the expected JSON document"@,
            SubmitErrorView::ServiceUnavailable => "Service Unavailable"@,
        }
    }
}

impl SubmitError {
    /// Writes the sentence shown to the user.
    pub fn message(&self) -> (text: String)
        ensures
            text@ == self@.message(),
    {
        match self {
            SubmitError::InvalidUrl { reason, url } => {
                let mut text = String::from_str("Invalid URL: ");
                text.append(reason.as_str());
                text.append(": ");
                text.append(url.as_str());
                text
            },
            SubmitError::UnsupportedScheme { scheme, url } => {
                let mut text = String::from_str("Unsupported scheme (");
                text.append(scheme.as_str());
                text.append(") in URL: ");
                text.append(url.as_str());
                text
            },
            SubmitError::MissingScheme { url } => {
                let mut text = String::from_str("No scheme in URL: ");
                text.append(url.as_str());
                text
            },
            SubmitError::TransportFailure { message } => {
                let mut text = String::from_str("Request failed: ");
                text.append(message.as_str());
                text
            },
            SubmitError::ProtocolError => String::from_str(
                "Response body is not the expected JSON document",
            ),
            SubmitError::ServiceUnavailable => String::from_str("Service Unavailable"),
        }
    }
}

} // verus!
