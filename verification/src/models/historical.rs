//! Indicators, ranges and intervals of historical price data.

use vstd::prelude::*;
use crate::split::{spec_split, split_char};
use crate::text::{spec_to_lowercase, spec_trim, str_eq, to_lowercase, trim};

verus! {

/// A moving-average indicator.
#[derive(Debug, Clone, Copy, PartialEq, Eq, Hash, Structural)]
pub enum IndicatorType {
    SMA,
    EMA,
}

impl IndicatorType {
    /// The indicator a name stands for, ignoring case.
    pub open spec fn spec_parse(s: Seq<char>) -> Option<IndicatorType> {
        let lower = spec_to_lowercase(s);
        if lower == "sma"@ {
            Some(IndicatorType::SMA)
        } else if lower == "ema"@ {
            Some(IndicatorType::EMA)
        } else {
            None
        }
    }

    /// `t` is named by one of the comma-separated, trimmed names of `s`.
    pub open spec fn spec_listed(s: Seq<char>, t: IndicatorType) -> bool {
        exists|i: int|
            0 <= i < spec_split(s, ',').len() && Self::spec_parse(
                spec_trim(#[trigger] spec_split(s, ',')[i]),
            ) == Some(t)
    }

    /// The indicator a name stands for, ignoring case.
    pub fn parse(s: &str) -> (r: Option<IndicatorType>)
        ensures
            r == Self::spec_parse(s@),
    {
        let lower = to_lowercase(s);
        if str_eq(lower.as_str(), "sma") {
            Some(IndicatorType::SMA)
        } else if str_eq(lower.as_str(), "ema") {
            Some(IndicatorType::EMA)
        } else {
            None
        }
    }

    /// The distinct indicators named in a comma-separated list, in the
    /// order they first appear; names that are no indicator are ignored.
    pub fn parse_list(s: &str) -> (r: Vec<IndicatorType>)
        ensures
            forall|t: IndicatorType| r@.contains(t) <==> Self::spec_listed(s@, t),
            forall|i: int, j: int| 0 <= i < j < r@.len() ==> r@[i] != r@[j],
    {
        let pieces = split_char(s, ',');
        let ghost ps = spec_split(s@, ',');
        assert(pieces@.map_values(|p: &str| p@) == ps);
        let mut out: Vec<IndicatorType> = Vec::new();
        let mut i: usize = 0;
        while i < pieces.len()
            invariant
                i <= pieces@.len(),
                pieces@.len() == ps.len(),
                forall|k: int| 0 <= k < ps.len() ==> #[trigger] ps[k] == pieces@[k]@,
                ps == spec_split(s@, ','),
                forall|t: IndicatorType|
                    out@.contains(t) <==> exists|k: int|
                        0 <= k < i && Self::spec_parse(spec_trim(#[trigger] ps[k])) == Some(t),
                forall|a: int, b: int| 0 <= a < b < out@.len() ==> out@[a] != out@[b],
            decreases pieces@.len() - i,
        {
            assert(ps[i as int] == pieces@[i as int]@);
            let piece = trim(pieces[i]);
            let parsed = Self::parse(piece);
            let ghost before = out@;
            match parsed {
                Some(t) => {
                    let mut present = false;
                    let mut j: usize = 0;
                    while j < out.len()
                        invariant
                            j <= out@.len(),
                            present == exists|k: int| 0 <= k < j && out@[k] == t,
                        decreases out@.len() - j,
                    {
                        if out[j] == t {
                            present = true;
                        }
                        j = j + 1;
                    }
                    if !present {
                        out.push(t);
                        proof {
                            assert forall|u: IndicatorType| out@.contains(u) <==> (before.contains(u)
                                || u == t) by {
                                if out@.contains(u) {
                                    let k = choose|k: int| 0 <= k < out@.len() && out@[k] == u;
                                    if k < before.len() {
                                        assert(before[k] == u);
                                    }
                                }
                                if before.contains(u) {
                                    let k = choose|k: int| 0 <= k < before.len() && before[k] == u;
                                    assert(out@[k] == u);
                                }
                                if u == t {
                                    assert(out@[before.len() as int] == t);
                                }
                            }
                        }
                    } else {
                        proof {
                            let k = choose|k: int| 0 <= k < out@.len() && out@[k] == t;
                            assert(out@.contains(t));
                        }
                    }
                    assert(forall|u: IndicatorType| out@.contains(u) <==> (before.contains(u)
                        || parsed == Some(u)));
                },
                None => {
                    assert(forall|u: IndicatorType| out@.contains(u) <==> (before.contains(u)
                        || parsed == Some(u)));
                },
            }
            proof {
                assert(Self::spec_parse(spec_trim(ps[i as int])) == parsed);
                assert forall|u: IndicatorType| out@.contains(u) <==> exists|k: int|
                    0 <= k < i + 1 && Self::spec_parse(spec_trim(#[trigger] ps[k])) == Some(u) by {
                    if exists|k: int| 0 <= k < i + 1 && Self::spec_parse(spec_trim(#[trigger] ps[k])) == Some(u) {
                        let k = choose|k: int| 0 <= k < i + 1 && Self::spec_parse(spec_trim(#[trigger] ps[k])) == Some(u);
                        if k < i {
                            assert(before.contains(u));
                        }
                    }
                    if before.contains(u) {
                        let k = choose|k: int| 0 <= k < i && Self::spec_parse(spec_trim(#[trigger] ps[k])) == Some(u);
                    }
                    if parsed == Some(u) {
                        assert(Self::spec_parse(spec_trim(ps[i as int])) == Some(u));
                    }
                }
            }
            i = i + 1;
        }
        out
    }
}

/// A named range of history.
#[derive(Debug, Clone, Copy, PartialEq, Eq, Structural)]
pub enum TimeRange {
    Day,
    FiveDays,
    OneMonth,
    ThreeMonths,
    SixMonths,
    Year,
    TwoYears,
    FiveYears,
    TenYears,
    Ytd,
    Max,
}

impl TimeRange {
    /// The name Yahoo Finance knows the range by.
    pub open spec fn spec_name(self) -> Seq<char> {
        match self {
            TimeRange::Day => "1d"@,
            TimeRange::FiveDays => "5d"@,
            TimeRange::OneMonth => "1mo"@,
            TimeRange::ThreeMonths => "3mo"@,
            TimeRange::SixMonths => "6mo"@,
            TimeRange::Year => "1y"@,
            TimeRange::TwoYears => "2y"@,
            TimeRange::FiveYears => "5y"@,
            TimeRange::TenYears => "10y"@,
            TimeRange::Ytd => "ytd"@,
            TimeRange::Max => "max"@,
        }
    }

    /// The name Yahoo Finance knows the range by.
    pub fn as_str(&self) -> (s: &'static str)
        ensures
            s@ == self.spec_name(),
    {
        match self {
            TimeRange::Day => "1d",
            TimeRange::FiveDays => "5d",
            TimeRange::OneMonth => "1mo",
            TimeRange::ThreeMonths => "3mo",
            TimeRange::SixMonths => "6mo",
            TimeRange::Year => "1y",
            TimeRange::TwoYears => "2y",
            TimeRange::FiveYears => "5y",
            TimeRange::TenYears => "10y",
            TimeRange::Ytd => "ytd",
            TimeRange::Max => "max",
        }
    }
}

/// The spacing of price bars.
#[derive(Debug, Clone, Copy, PartialEq, Eq, Structural)]
pub enum Interval {
    OneMinute,
    ThreeMinutes,
    FiveMinutes,
    TenMinutes,
    FifteenMinutes,
    TwentyMinutes,
    ThirtyMinutes,
    SixtyFiveMinutes,
    NinetyFiveMinutes,
    OneHour,
    Daily,
    Weekly,
    Monthly,
}

impl Interval {
    /// The name Yahoo Finance knows the interval by.
    pub open spec fn spec_name(self) -> Seq<char> {
        match self {
            Interval::OneMinute => "1m"@,
            Interval::ThreeMinutes => "3m"@,
            Interval::FiveMinutes => "5m"@,
            Interval::TenMinutes => "10m"@,
            Interval::FifteenMinutes => "15m"@,
            Interval::TwentyMinutes => "20m"@,
            Interval::ThirtyMinutes => "30m"@,
            Interval::SixtyFiveMinutes => "65m"@,
            Interval::NinetyFiveMinutes => "95m"@,
            Interval::OneHour => "1h"@,
            Interval::Daily => "1d"@,
            Interval::Weekly => "1wk"@,
            Interval::Monthly => "1mo"@,
        }
    }

    /// The name Yahoo Finance knows the interval by.
    pub fn as_str(&self) -> (s: &'static str)
        ensures
            s@ == self.spec_name(),
    {
        match self {
            Interval::OneMinute => "1m",
            Interval::ThreeMinutes => "3m",
            Interval::FiveMinutes => "5m",
            Interval::TenMinutes => "10m",
            Interval::FifteenMinutes => "15m",
            Interval::TwentyMinutes => "20m",
            Interval::ThirtyMinutes => "30m",
            Interval::SixtyFiveMinutes => "65m",
            Interval::NinetyFiveMinutes => "95m",
            Interval::OneHour => "1h",
            Interval::Daily => "1d",
            Interval::Weekly => "1wk",
            Interval::Monthly => "1mo",
        }
    }
}

} // verus!
