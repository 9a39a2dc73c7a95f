//! The failure taxonomy of recipe extraction.

use vstd::prelude::*;

verus! {

/// A failure of external recipe extraction, as surfaced to the caller.
///
/// Getters only ever fail with [`FetchError`](ExternalRecipeError::FetchError)
/// or [`ParseError`](ExternalRecipeError::ParseError); the two other variants
/// are raised by the dispatcher alone, which is the only component that knows
/// the full registry.
#[derive(Debug)]
pub enum ExternalRecipeError {
    /// The input string is not a well-formed URL; the caller must correct it.
    InvalidUrl,
    /// No registered getter claims the URL.
    ///
    /// Carries the original URL string verbatim, for user-facing diagnostics.
    UrlNotSupported(String),
    /// A network or transport failure (DNS, TLS, connection reset, timeout)
    /// while retrieving a page. Transient: the caller may retry the call.
    FetchError(String),
    /// Retrieved content did not match the structure the getter expected.
    /// Not retryable with the same input.
    ParseError(String),
}

impl ExternalRecipeError {
    /// What [`message`](Self::message) returns, as a sequence of characters.
    pub open spec fn spec_message(&self) -> Seq<char> {
        match self {
            ExternalRecipeError::InvalidUrl => "the input is not a well-formed URL"@,
            ExternalRecipeError::UrlNotSupported(url) => "the URL is not supported: "@ + url@,
            ExternalRecipeError::FetchError(detail) => "could not fetch the page: "@ + detail@,
            ExternalRecipeError::ParseError(detail) => "could not parse the page: "@ + detail@,
        }
    }

    /// A human-readable description of this failure.
    pub fn message(&self) -> (r: String)
        ensures
            r@ == self.spec_message(),
    {
        match self {
            ExternalRecipeError::InvalidUrl => String::from_str("the input is not a well-formed URL"),
            ExternalRecipeError::UrlNotSupported(url) => String::from_str(
                "the URL is not supported: ",
            ).concat(url.as_str()),
            ExternalRecipeError::FetchError(detail) => String::from_str(
                "could not fetch the page: ",
            ).concat(detail.as_str()),
            ExternalRecipeError::ParseError(detail) => String::from_str(
                "could not parse the page: ",
            ).concat(detail.as_str()),
        }
    }
}

} // verus!
