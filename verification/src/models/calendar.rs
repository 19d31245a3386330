//! Upcoming earnings and dividend dates of a symbol.

use vstd::prelude::*;
use crate::collect::{keep_some, lemma_keep_some_take, lemma_take_all};
use crate::dates::{spec_utc_date, utc_date};
use crate::error::YahooError;

verus! {

/// Calendar events of a symbol, as Unix times in seconds.
#[derive(Debug, Clone)]
pub struct Calendar {
    pub symbol: String,
    pub earnings_date: Option<i64>,
    pub earnings_date_start: Option<i64>,
    pub earnings_date_end: Option<i64>,
    pub dividend_date: Option<i64>,
    pub ex_dividend_date: Option<i64>,
}

/// The calendar events of the first result of an answer.
#[derive(Debug, Clone)]
pub struct CalendarEvents {
    pub earnings_dates: Option<Vec<i64>>,
    pub dividend_date: Option<i64>,
    pub ex_dividend_date: Option<i64>,
}

/// A timestamp that `chrono` can represent, kept; others dropped.
pub open spec fn spec_valid_time(ts: i64) -> Option<i64> {
    if spec_utc_date(ts) is Some {
        Some(ts)
    } else {
        None
    }
}

/// `spec_valid_time` as a function value.
pub open spec fn valid_time_fn() -> spec_fn(i64) -> Option<i64> {
    |ts: i64| spec_valid_time(ts)
}

fn valid_time(ts: i64) -> (r: Option<i64>)
    ensures
        r == spec_valid_time(ts),
{
    if utc_date(ts).is_some() {
        Some(ts)
    } else {
        None
    }
}

fn opt_valid_time(ts: Option<i64>) -> (r: Option<i64>)
    ensures
        r == match ts {
            Some(t) => spec_valid_time(t),
            None => None,
        },
{
    match ts {
        Some(t) => valid_time(t),
        None => None,
    }
}

/// The earnings dates that are representable times, in order.
pub open spec fn spec_valid_dates(dates: Option<Seq<i64>>) -> Seq<i64> {
    match dates {
        Some(d) => keep_some(d.map_values(valid_time_fn())),
        None => Seq::empty(),
    }
}

impl Calendar {
    /// The calendar of a symbol from the events of an answer's first result
    /// (absent when the answer has none): the first earnings date both is
    /// the date and starts the range, which ends at the second (or the
    /// start); times `chrono` cannot represent are dropped.
    pub fn from_calendar_events(symbol: String, events: Option<&CalendarEvents>) -> (r: Result<
        Calendar,
        YahooError,
    >)
        ensures
            match events {
                None => r matches Err(YahooError::ParseError(m)) && m@
                    == "No calendar data in response"@,
                Some(e) => r matches Ok(c) && {
                    let dates = spec_valid_dates(
                        match e.earnings_dates {
                            Some(d) => Some(d@),
                            None => None,
                        },
                    );
                    let start = if dates.len() > 0 {
                        Some(dates[0])
                    } else {
                        None
                    };
                    &&& c.symbol == symbol
                    &&& c.earnings_date == start
                    &&& c.earnings_date_start == start
                    &&& c.earnings_date_end == if dates.len() > 1 {
                        Some(dates[1])
                    } else {
                        start
                    }
                    &&& c.dividend_date == match e.dividend_date {
                        Some(t) => spec_valid_time(t),
                        None => None,
                    }
                    &&& c.ex_dividend_date == match e.ex_dividend_date {
                        Some(t) => spec_valid_time(t),
                        None => None,
                    }
                },
            },
    {
        let e = match events {
            Some(e) => e,
            None => {
                return Err(YahooError::ParseError("No calendar data in response".to_owned()));
            },
        };
        let mut dates: Vec<i64> = Vec::new();
        match &e.earnings_dates {
            Some(d) => {
                let mut i: usize = 0;
                while i < d.len()
                    invariant
                        i <= d@.len(),
                        dates@ == keep_some(d@.take(i as int).map_values(valid_time_fn())),
                    decreases d@.len() - i,
                {
                    proof {
                        lemma_keep_some_take(d@, valid_time_fn(), i as int);
                    }
                    match valid_time(d[i]) {
                        Some(t) => dates.push(t),
                        None => {},
                    }
                    i = i + 1;
                }
                proof {
                    lemma_take_all(d@);
                }
            },
            None => {},
        }
        let start = if dates.len() > 0 {
            Some(dates[0])
        } else {
            None
        };
        let end = if dates.len() > 1 {
            Some(dates[1])
        } else {
            start
        };
        Ok(
            Calendar {
                symbol,
                earnings_date: start,
                earnings_date_start: start,
                earnings_date_end: end,
                dividend_date: opt_valid_time(e.dividend_date),
                ex_dividend_date: opt_valid_time(e.ex_dividend_date),
            },
        )
    }
}

} // verus!
