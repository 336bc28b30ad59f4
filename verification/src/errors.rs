//! Errors surfaced when a transport cannot be constructed.

use vstd::prelude::*;

verus! {

/// Why a transport could not be constructed.
#[derive(Clone, Copy, Debug, PartialEq, Eq, Structural)]
pub enum ErrorKind {
    /// The outbound proxy is not a usable URL.
    InvalidProxy,
    /// The HTTP client rejected the timeout, user agent or proxy settings.
    InvalidClient,
}

/// A construction failure, with a description for the user, advice on how to
/// resolve it, and the underlying cause where there is one.
pub struct ConstructionError {
    pub kind: ErrorKind,
    pub description: String,
    pub advice: String,
    pub internal: Option<reqwest::Error>,
}

impl ErrorKind {
    /// What went wrong, in words.
    pub open spec fn description(self) -> Seq<char> {
        match self {
            ErrorKind::InvalidProxy => "We could not configure Rollbar to use the proxy you provided."@,
            ErrorKind::InvalidClient => "We could not configure Rollbar based on the configuration you have provided."@,
        }
    }

    /// What the user can do about it.
    pub open spec fn advice(self) -> Seq<char> {
        match self {
            ErrorKind::InvalidProxy => "Make sure that you have specified a valid proxy URL in your configuration and try again."@,
            ErrorKind::InvalidClient => "Make sure that you have specified a valid configuration and try again."@,
        }
    }
}

impl ConstructionError {
    /// The error reported for a failure of kind `kind` caused by `cause`.
    pub fn caused_by(kind: ErrorKind, cause: reqwest::Error) -> (e: ConstructionError)
        ensures
            e.kind == kind,
            e.description@ == kind.description(),
            e.advice@ == kind.advice(),
            e.internal == Some(cause),
    {
        let (description, advice) = match kind {
            ErrorKind::InvalidProxy => (
                "We could not configure Rollbar to use the proxy you provided.",
                "Make sure that you have specified a valid proxy URL in your configuration and try again.",
            ),
            ErrorKind::InvalidClient => (
                "We could not configure Rollbar based on the configuration you have provided.",
                "Make sure that you have specified a valid configuration and try again.",
            ),
        };
        ConstructionError { kind, description: description.to_owned(), advice: advice.to_owned(), internal: Some(cause) }
    }
}

} // verus!
