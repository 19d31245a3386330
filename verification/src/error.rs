//! The error type of every fallible operation of the library.

use vstd::prelude::*;

verus! {

/// `reqwest::Error`, carried unchanged inside `YahooError::NetworkError`.
#[verifier::external_type_specification]
#[verifier::external_body]
pub struct ExReqwestError(reqwest::Error);

/// Error type for Yahoo Finance client operations.
#[derive(Debug)]
pub enum YahooError {
    /// Authentication with Yahoo Finance failed.
    AuthFailed(String),
    /// The requested resource was not found.
    NotFound(String),
    /// Rate limit has been exceeded.
    RateLimited,
    /// HTTP error with status code and message.
    HttpError(u16, String),
    /// Failed to parse response data.
    ParseError(String),
    /// Network-level error from reqwest.
    NetworkError(reqwest::Error),
}

/// A parse error whose message is the given text.
pub fn parse_error(message: &str) -> (e: YahooError)
    ensures
        e matches YahooError::ParseError(m) && m@ == message@,
{
    YahooError::ParseError(message.to_owned())
}

} // verus!
