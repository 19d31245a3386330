//! Turning the bytes of an answer into text.

use std::io::Read;
use vstd::prelude::*;
use vstd::string::*;
use vstd::utf8::{decode_utf8, valid_utf8};
use crate::decimal::{spec_nat_decimal, u64_to_string};
use crate::error::YahooError;
use crate::text::{contains, spec_contains, spec_to_lowercase, to_lowercase};

verus! {

/// What decompressing `bytes` as gzip and reading the result as UTF-8 text
/// gives with `flate2`: the text, or the message of the I/O error.
pub uninterp spec fn spec_gunzip_text(bytes: Seq<u8>) -> Result<Seq<char>, Seq<char>>;

/// What `Debug` prints for a `std::time::Duration` of `ms` milliseconds.
pub uninterp spec fn spec_duration_debug(ms: u64) -> Seq<char>;

/// Decompresses gzip data into text with `flate2::read::GzDecoder` and
/// `Read::read_to_string`; the result, text or error message, is named by
/// `spec_gunzip_text` and nothing more is claimed.
#[verifier::external_body]
fn gunzip_text(bytes: &[u8]) -> (r: Result<String, String>)
    ensures
        match r {
            Ok(t) => spec_gunzip_text(bytes@) == Ok::<Seq<char>, Seq<char>>(t@),
            Err(m) => spec_gunzip_text(bytes@) == Err::<Seq<char>, Seq<char>>(m@),
        },
{
    let mut decoder = flate2::read::GzDecoder::new(bytes);
    let mut text = String::new();
    match decoder.read_to_string(&mut text) {
        Ok(_) => Ok(text),
        Err(e) => Err(e.to_string()),
    }
}

/// Reads bytes as UTF-8 text with `String::from_utf8`, which succeeds
/// exactly on valid UTF-8 and then holds the decoded characters.
#[verifier::external_body]
fn utf8_text(bytes: &[u8]) -> (r: Option<String>)
    ensures
        r is Some <==> valid_utf8(bytes@),
        r matches Some(t) ==> t@ == decode_utf8(bytes@),
{
    String::from_utf8(bytes.to_vec()).ok()
}

/// Prints a duration of `ms` milliseconds with `Debug`
/// (`format!("{:?}", Duration::from_millis(ms))`); the text is named by
/// `spec_duration_debug` and nothing more is claimed.
#[verifier::external_body]
pub(crate) fn duration_debug(ms: u64) -> (r: String)
    ensures
        r@ == spec_duration_debug(ms),
{
    format!("{:?}", std::time::Duration::from_millis(ms))
}

/// The body of a JSON answer as text, or the message of why it cannot be
/// read.  `encoding` is the `Content-Encoding` header (empty when absent or
/// not readable as text): gzip and deflate are decompressed, brotli is
/// refused, anything else is read as UTF-8, and bytes that are not UTF-8
/// are tried as gzip before giving up.
pub open spec fn spec_json_body(encoding: Seq<char>, bytes: Seq<u8>) -> Result<Seq<char>, Seq<char>> {
    let enc = spec_to_lowercase(encoding);
    if spec_contains(enc, "gzip"@) || spec_contains(enc, "deflate"@) {
        match spec_gunzip_text(bytes) {
            Ok(t) => Ok(t),
            Err(m) => Err("Failed to decompress gzip response: "@ + m),
        }
    } else if spec_contains(enc, "br"@) {
        Err(
            "Brotli compression detected but not automatically decompressed. This should not happen."@,
        )
    } else if valid_utf8(bytes) {
        Ok(decode_utf8(bytes))
    } else {
        match spec_gunzip_text(bytes) {
            Ok(t) => Ok(t),
            Err(_) => Err(
                "Response is not valid UTF-8 and not gzip compressed (length: "@ + spec_nat_decimal(
                    bytes.len(),
                ) + " bytes)"@,
            ),
        }
    }
}

/// Reads the body of a JSON answer (see `spec_json_body`); every failure
/// is a parse error.
pub fn json_body(encoding: &str, bytes: &[u8]) -> (r: Result<String, YahooError>)
    requires
        bytes@.len() <= u64::MAX,
    ensures
        match r {
            Ok(t) => spec_json_body(encoding@, bytes@) == Ok::<Seq<char>, Seq<char>>(t@),
            Err(e) => e matches YahooError::ParseError(m) && spec_json_body(encoding@, bytes@)
                == Err::<Seq<char>, Seq<char>>(m@),
        },
{
    let enc = to_lowercase(encoding);
    if contains(enc.as_str(), "gzip") || contains(enc.as_str(), "deflate") {
        match gunzip_text(bytes) {
            Ok(t) => Ok(t),
            Err(m) => {
                let mut msg = "Failed to decompress gzip response: ".to_owned();
                msg.append(m.as_str());
                Err(YahooError::ParseError(msg))
            },
        }
    } else if contains(enc.as_str(), "br") {
        Err(
            YahooError::ParseError(
                "Brotli compression detected but not automatically decompressed. This should not happen.".to_owned(),
            ),
        )
    } else {
        match utf8_text(bytes) {
            Some(t) => Ok(t),
            None => match gunzip_text(bytes) {
                Ok(t) => Ok(t),
                Err(_) => {
                    let mut msg =
                        "Response is not valid UTF-8 and not gzip compressed (length: ".to_owned();
                    let n = u64_to_string(bytes.len() as u64);
                    msg.append(n.as_str());
                    msg.append(" bytes)");
                    Err(YahooError::ParseError(msg))
                },
            },
        }
    }
}

/// The message of the error for a request that did not finish in time.
pub open spec fn spec_timeout_message(url: Seq<char>, timeout_ms: u64) -> Seq<char> {
    "Request to "@ + url + " timed out after "@ + spec_duration_debug(timeout_ms)
}

/// The error for a request to `url` that did not finish within the
/// timeout; the library reports it as a parse error.
pub fn timeout_error(url: &str, timeout_ms: u64) -> (e: YahooError)
    ensures
        e matches YahooError::ParseError(m) && m@ == spec_timeout_message(url@, timeout_ms),
{
    let mut msg = "Request to ".to_owned();
    msg.append(url);
    msg.append(" timed out after ");
    let d = duration_debug(timeout_ms);
    msg.append(d.as_str());
    YahooError::ParseError(msg)
}

} // verus!
