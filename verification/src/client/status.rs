//! How the library reads the status code of an HTTP answer.

use vstd::prelude::*;
use vstd::string::*;
use crate::decimal::{spec_nat_decimal, u64_to_string};
use crate::error::YahooError;

verus! {

/// What `http::StatusCode::canonical_reason` gives for a status code: the
/// reason phrase registered for it, or nothing (also for numbers that are
/// no status code at all).
pub uninterp spec fn spec_canonical_reason(code: u16) -> Option<Seq<char>>;

/// Calls `StatusCode::from_u16(code)` and then `canonical_reason` on it; the
/// result is named by `spec_canonical_reason` and nothing more is claimed.
#[verifier::external_body]
pub(crate) fn canonical_reason(code: u16) -> (r: Option<&'static str>)
    ensures
        match r {
            Some(s) => spec_canonical_reason(code) == Some(s@),
            None => spec_canonical_reason(code) is None,
        },
{
    reqwest::StatusCode::from_u16(code).ok().and_then(|s| s.canonical_reason())
}

/// The status is one of success (`StatusCode::is_success`).
pub open spec fn spec_is_success(code: u16) -> bool {
    200 <= code < 300
}

/// The reason phrase, or `fallback` where there is none.
pub open spec fn reason_or(code: u16, fallback: Seq<char>) -> Seq<char> {
    match spec_canonical_reason(code) {
        Some(r) => r,
        None => fallback,
    }
}

/// How a status code displays: the number, a space and the reason phrase.
pub open spec fn spec_status_display(code: u16) -> Seq<char> {
    spec_nat_decimal(code as nat) + " "@ + reason_or(code, "<unknown status code>"@)
}

/// The message of the error for an unsuccessful status:
/// `HTTP <status>: <reason>`.
pub open spec fn spec_http_error_message(code: u16) -> Seq<char> {
    "HTTP "@ + spec_status_display(code) + ": "@ + reason_or(code, "Unknown"@)
}

/// The error that an unsuccessful status code is reported as.
pub fn http_error(code: u16) -> (e: YahooError)
    ensures
        e matches YahooError::HttpError(c, m) && c == code && m@ == spec_http_error_message(code),
{
    let reason = canonical_reason(code);
    let mut msg = "HTTP ".to_owned();
    let digits = u64_to_string(code as u64);
    msg.append(digits.as_str());
    msg.append(" ");
    match reason {
        Some(r) => msg.append(r),
        None => msg.append("<unknown status code>"),
    }
    msg.append(": ");
    match reason {
        Some(r) => msg.append(r),
        None => msg.append("Unknown"),
    }
    YahooError::HttpError(code, msg)
}

/// The check the plain fetch methods make on a status: success, or the
/// HTTP error for it.
pub fn check_success(code: u16) -> (r: Result<(), YahooError>)
    ensures
        spec_is_success(code) <==> r is Ok,
        !spec_is_success(code) ==> (r matches Err(YahooError::HttpError(c, m)) && c == code
            && m@ == spec_http_error_message(code)),
{
    if 200 <= code && code < 300 {
        Ok(())
    } else {
        Err(http_error(code))
    }
}

/// The check an authenticated API request makes on a status: 401 means
/// the crumb was refused, 404 an unknown symbol, 429 too many requests;
/// any other unsuccessful status is an HTTP error.
pub fn check_api_status(code: u16) -> (r: Result<(), YahooError>)
    ensures
        code == 401 ==> (r matches Err(YahooError::AuthFailed(m)) && m@ == "Yahoo auth failed"@),
        code == 404 ==> (r matches Err(YahooError::NotFound(m)) && m@
            == "Yahoo symbol not found"@),
        code == 429 ==> (r matches Err(YahooError::RateLimited)),
        code != 401 && code != 404 && code != 429 ==> {
            &&& (spec_is_success(code) <==> r is Ok)
            &&& !spec_is_success(code) ==> (r matches Err(YahooError::HttpError(c, m)) && c
                == code && m@ == spec_http_error_message(code))
        },
{
    if code == 401 {
        Err(YahooError::AuthFailed("Yahoo auth failed".to_owned()))
    } else if code == 404 {
        Err(YahooError::NotFound("Yahoo symbol not found".to_owned()))
    } else if code == 429 {
        Err(YahooError::RateLimited)
    } else {
        check_success(code)
    }
}

} // verus!
