//! Calendar dates and timestamps, computed by `chrono`.

use vstd::prelude::*;
use crate::decimal::{i64_to_string, spec_int_decimal};
use crate::json::{opt_view, JsonValue, spec_i64_member, i64_member};

verus! {

/// What `chrono` gives as the UTC calendar date (`%Y-%m-%d`) of a Unix
/// timestamp in seconds, or nothing when the timestamp is out of its range.
pub uninterp spec fn spec_utc_date(ts: i64) -> Option<Seq<char>>;

/// What `chrono` gives as the UTC date and minute (`%Y-%m-%d %H:%M`) of a
/// Unix timestamp in seconds, or nothing when it is out of its range.
pub uninterp spec fn spec_utc_date_minute(ts: i64) -> Option<Seq<char>>;

/// What `chrono` gives for a `YYYY-MM-DD` date: the Unix timestamp of its
/// UTC midnight, or the text of the error that `NaiveDate::parse_from_str`
/// reports.
pub uninterp spec fn spec_parse_ymd(s: Seq<char>) -> Result<i64, Seq<char>>;

/// What `chrono` gives for an RFC 3339 date-time: its Unix timestamp in
/// seconds, or nothing when the text is not RFC 3339.
pub uninterp spec fn spec_parse_rfc3339(s: Seq<char>) -> Option<i64>;

/// Formats a timestamp as a UTC date with `chrono`
/// (`DateTime::from_timestamp(ts, 0)` then `format("%Y-%m-%d")`); the result
/// is named by `spec_utc_date` and nothing more is claimed.
#[verifier::external_body]
pub(crate) fn utc_date(ts: i64) -> (r: Option<String>)
    ensures
        opt_view(r) == spec_utc_date(ts),
{
    chrono::DateTime::from_timestamp(ts, 0).map(|dt| dt.format("%Y-%m-%d").to_string())
}

/// Formats a timestamp as a UTC date and minute with `chrono`
/// (`DateTime::from_timestamp(ts, 0)` then `format("%Y-%m-%d %H:%M")`); the
/// result is named by `spec_utc_date_minute` and nothing more is claimed.
#[verifier::external_body]
pub(crate) fn utc_date_minute(ts: i64) -> (r: Option<String>)
    ensures
        opt_view(r) == spec_utc_date_minute(ts),
{
    chrono::DateTime::from_timestamp(ts, 0).map(|dt| dt.format("%Y-%m-%d %H:%M").to_string())
}

/// Reads a `YYYY-MM-DD` date with `chrono::NaiveDate::parse_from_str` and
/// takes the timestamp of its UTC midnight; the result is named by
/// `spec_parse_ymd` (an error carries chrono's message) and nothing more is
/// claimed.
#[verifier::external_body]
pub(crate) fn parse_ymd(s: &str) -> (r: Result<i64, String>)
    ensures
        match r {
            Ok(t) => spec_parse_ymd(s@) == Ok::<i64, Seq<char>>(t),
            Err(m) => spec_parse_ymd(s@) == Err::<i64, Seq<char>>(m@),
        },
{
    match chrono::NaiveDate::parse_from_str(s, "%Y-%m-%d") {
        Ok(d) => Ok(d.and_time(chrono::NaiveTime::MIN).and_utc().timestamp()),
        Err(e) => Err(e.to_string()),
    }
}

/// Reads an RFC 3339 date-time with `chrono::DateTime::parse_from_rfc3339`
/// and takes its Unix timestamp; the result is named by
/// `spec_parse_rfc3339` and nothing more is claimed.
#[verifier::external_body]
pub(crate) fn parse_rfc3339(s: &str) -> (r: Option<i64>)
    ensures
        r == spec_parse_rfc3339(s@),
{
    chrono::DateTime::parse_from_rfc3339(s).ok().map(|dt| dt.timestamp())
}

/// The date of a timestamp, or the timestamp itself in decimal when it
/// has no calendar date.
pub open spec fn spec_timestamp_to_date(ts: i64) -> Seq<char> {
    match spec_utc_date(ts) {
        Some(d) => d,
        None => spec_int_decimal(ts as int),
    }
}

/// Convert a Unix timestamp to a `YYYY-MM-DD` date string, falling back to
/// the timestamp's decimal digits.
pub fn timestamp_to_date(ts: i64) -> (r: String)
    ensures
        r@ == spec_timestamp_to_date(ts),
{
    match utc_date(ts) {
        Some(d) => d,
        None => i64_to_string(ts),
    }
}

/// The date of the integer member `key` of an object, if it has one.
pub open spec fn spec_member_date(item: JsonValue, key: Seq<char>) -> Option<Seq<char>> {
    match spec_i64_member(item, key) {
        Some(ts) => Some(spec_timestamp_to_date(ts)),
        None => None,
    }
}

/// The date of the integer member `key` of an object, if it has one.
pub fn member_date(item: &JsonValue, key: &str) -> (r: Option<String>)
    ensures
        opt_view(r) == spec_member_date(*item, key@),
{
    match i64_member(item, key) {
        Some(ts) => Some(timestamp_to_date(ts)),
        None => None,
    }
}

/// Reads the system clock: the current Unix time in milliseconds
/// (`chrono::Utc::now().timestamp_millis()`).  Nothing is claimed of the
/// result.
#[verifier::external_body]
pub(crate) fn unix_now_millis() -> (now: i64) {
    chrono::Utc::now().timestamp_millis()
}

} // verus!
