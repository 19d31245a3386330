//! Whether a market is open, and its hours.

use vstd::prelude::*;
use crate::dates::{parse_rfc3339, spec_parse_rfc3339};
use crate::decimal::{parse_i32, spec_parse_i32};
use crate::error::YahooError;
use crate::json::opt_view;
use crate::text::{spec_to_lowercase, str_eq, to_lowercase};

verus! {

/// The time zone of a market as the answer gives it.
#[derive(Debug, Clone)]
pub struct TimezoneInfo {
    pub gmtoffset: Option<i32>,
    pub short: Option<String>,
    pub long: Option<String>,
}

/// The state of a market as the answer gives it.
#[derive(Debug, Clone)]
pub struct MarketTime {
    pub status: Option<String>,
    pub open: Option<String>,
    pub close: Option<String>,
    pub timezone: Vec<TimezoneInfo>,
}

/// Market status information; times are Unix times in whole seconds.
#[derive(Debug, Clone)]
pub struct MarketStatus {
    pub market: String,
    /// Current status: "open", "closed", "pre", "post"
    pub status: String,
    pub open_time: Option<i64>,
    pub close_time: Option<i64>,
    pub timezone: Option<String>,
    pub timezone_short: Option<String>,
    pub gmt_offset: Option<i32>,
}

/// The Unix time of an RFC 3339 text, when it is one.
pub open spec fn spec_opt_time(s: Option<Seq<char>>) -> Option<i64> {
    match s {
        Some(t) => spec_parse_rfc3339(t),
        None => None,
    }
}

fn opt_time(s: &Option<String>) -> (r: Option<i64>)
    ensures
        r == spec_opt_time(opt_view(*s)),
{
    match s {
        Some(t) => parse_rfc3339(t.as_str()),
        None => None,
    }
}

fn copy_opt(o: &Option<String>) -> (r: Option<String>)
    ensures
        opt_view(r) == opt_view(*o),
{
    match o {
        Some(s) => Some(s.clone()),
        None => None,
    }
}

/// The first state listed in the first entry of a market-time answer.
pub open spec fn spec_first_market_time(times: Seq<Vec<MarketTime>>) -> Option<MarketTime> {
    if times.len() > 0 && times[0]@.len() > 0 {
        Some(times[0]@[0])
    } else {
        None
    }
}

/// The gmt offset written as text in an answer, read as an `i32`.
pub fn gmt_offset_from_text(s: &str) -> (r: Option<i32>)
    ensures
        r == spec_parse_i32(s@),
{
    parse_i32(s)
}

impl MarketStatus {
    /// The status of a market from the first state of a market-time
    /// answer: an unknown status reads `unknown`, times that are not
    /// RFC 3339 are left out, and the time zone is the first one listed.
    pub fn from_market_times(market: String, times: &Vec<Vec<MarketTime>>) -> (r: Result<
        MarketStatus,
        YahooError,
    >)
        ensures
            match spec_first_market_time(times@) {
                None => r matches Err(YahooError::ParseError(m)) && m@ == "No market time data"@,
                Some(mt) => r matches Ok(s) && {
                    &&& s.market@ == market@
                    &&& s.status@ == match opt_view(mt.status) {
                        Some(st) => st,
                        None => "unknown"@,
                    }
                    &&& s.open_time == spec_opt_time(opt_view(mt.open))
                    &&& s.close_time == spec_opt_time(opt_view(mt.close))
                    &&& if mt.timezone@.len() > 0 {
                        &&& opt_view(s.timezone) == opt_view(mt.timezone@[0].long)
                        &&& opt_view(s.timezone_short) == opt_view(mt.timezone@[0].short)
                        &&& s.gmt_offset == mt.timezone@[0].gmtoffset
                    } else {
                        s.timezone is None && s.timezone_short is None && s.gmt_offset is None
                    }
                },
            },
    {
        if times.len() == 0 || times[0].len() == 0 {
            return Err(YahooError::ParseError("No market time data".to_owned()));
        }
        let mt = &times[0][0];
        let status = match &mt.status {
            Some(s) => s.clone(),
            None => "unknown".to_owned(),
        };
        let (timezone, timezone_short, gmt_offset) = if mt.timezone.len() > 0 {
            let tz = &mt.timezone[0];
            (copy_opt(&tz.long), copy_opt(&tz.short), tz.gmtoffset)
        } else {
            (None, None, None)
        };
        Ok(
            MarketStatus {
                market,
                status,
                open_time: opt_time(&mt.open),
                close_time: opt_time(&mt.close),
                timezone,
                timezone_short,
                gmt_offset,
            },
        )
    }

    /// The status, lowercased, is `word`.
    pub open spec fn status_is(self, word: Seq<char>) -> bool {
        spec_to_lowercase(self.status@) == word
    }

    /// Check if market is currently open.
    pub fn is_open(&self) -> (r: bool)
        ensures
            r == self.status_is("open"@),
    {
        let lower = to_lowercase(self.status.as_str());
        str_eq(lower.as_str(), "open")
    }

    /// Check if market is in pre-market hours.
    pub fn is_pre_market(&self) -> (r: bool)
        ensures
            r == self.status_is("pre"@),
    {
        let lower = to_lowercase(self.status.as_str());
        str_eq(lower.as_str(), "pre")
    }

    /// Check if market is in after-hours.
    pub fn is_after_hours(&self) -> (r: bool)
        ensures
            r == self.status_is("post"@),
    {
        let lower = to_lowercase(self.status.as_str());
        str_eq(lower.as_str(), "post")
    }
}

} // verus!
