//! Calendar events of a stock: earnings, dividends and splits, read from
//! `quoteSummary` answers.

use vstd::prelude::*;
use vstd::string::*;
use crate::client::requests::strings_view;
use crate::collect::{keep_some, lemma_keep_some_take, lemma_take_all};
use crate::dates::{member_date, spec_member_date, spec_timestamp_to_date, timestamp_to_date};
use crate::json::{
    deref_opt, opt_view, spec_number_member, spec_str_member, spec_summary_module, number_member,
    str_member, summary_module, JsonValue, Number,
};
use crate::order::{compare_text, lemma_text_le_total, lemma_text_le_transitive, text_le};
use crate::text::str_eq;

verus! {

/// Earnings dates and estimates.
#[derive(Debug, Clone)]
pub struct EarningsEvent {
    pub earnings_date: Option<String>,
    pub earnings_date_start: Option<String>,
    pub earnings_date_end: Option<String>,
    pub earnings_average: Option<Number>,
    pub earnings_low: Option<Number>,
    pub earnings_high: Option<Number>,
    pub revenue_average: Option<Number>,
    pub revenue_low: Option<Number>,
    pub revenue_high: Option<Number>,
}

/// The earnings are announced over a range of dates: both ends are known
/// and differ.
pub open spec fn spec_is_date_range(start: Option<Seq<char>>, end: Option<Seq<char>>) -> bool {
    start is Some && end is Some && start != end
}

/// How the earnings date is shown: the range `start - end`, else the date,
/// else the start, else `TBD`.
pub open spec fn spec_date_display(e: EarningsEvent) -> Seq<char> {
    let start = opt_view(e.earnings_date_start);
    let end = opt_view(e.earnings_date_end);
    if spec_is_date_range(start, end) {
        start->0 + " - "@ + end->0
    } else {
        match opt_view(e.earnings_date) {
            Some(d) => d,
            None => match start {
                Some(s) => s,
                None => "TBD"@,
            },
        }
    }
}

fn opt_eq(a: &Option<String>, b: &Option<String>) -> (r: bool)
    ensures
        r == (opt_view(*a) == opt_view(*b)),
{
    match (a, b) {
        (Some(x), Some(y)) => str_eq(x.as_str(), y.as_str()),
        (None, None) => true,
        _ => false,
    }
}

impl EarningsEvent {
    /// Check if earnings date is a range.
    pub fn is_date_range(&self) -> (r: bool)
        ensures
            r == spec_is_date_range(opt_view(self.earnings_date_start), opt_view(self.earnings_date_end)),
    {
        self.earnings_date_start.is_some() && self.earnings_date_end.is_some() && !opt_eq(
            &self.earnings_date_start,
            &self.earnings_date_end,
        )
    }

    /// Get formatted earnings date string.
    pub fn date_display(&self) -> (r: String)
        ensures
            r@ == spec_date_display(*self),
    {
        if self.is_date_range() {
            match (&self.earnings_date_start, &self.earnings_date_end) {
                (Some(s), Some(e)) => {
                    let mut out = s.clone();
                    out.append(" - ");
                    out.append(e.as_str());
                    out
                },
                _ => "TBD".to_owned(),
            }
        } else {
            match &self.earnings_date {
                Some(d) => d.clone(),
                None => match &self.earnings_date_start {
                    Some(s) => s.clone(),
                    None => "TBD".to_owned(),
                },
            }
        }
    }
}

/// The date of a value that is an integer timestamp.
pub open spec fn spec_value_date(v: JsonValue) -> Option<Seq<char>> {
    match v.spec_as_i64() {
        Some(ts) => Some(spec_timestamp_to_date(ts)),
        None => None,
    }
}

/// `spec_value_date` as a function value.
pub open spec fn value_date_fn() -> spec_fn(JsonValue) -> Option<Seq<char>> {
    |v: JsonValue| spec_value_date(v)
}

/// The dates of the integer timestamps of `earningsDate`, in order.
pub open spec fn spec_earnings_dates(earnings: JsonValue) -> Seq<Seq<char>> {
    match earnings.spec_get("earningsDate"@) {
        Some(d) => match d.spec_as_array() {
            Some(arr) => keep_some(arr.map_values(value_date_fn())),
            None => Seq::empty(),
        },
        None => Seq::empty(),
    }
}

fn earnings_dates(earnings: &JsonValue) -> (r: Vec<String>)
    ensures
        strings_view(r@) == spec_earnings_dates(*earnings),
{
    let mut out: Vec<String> = Vec::new();
    let arr = match earnings.get("earningsDate") {
        Some(d) => match d.as_array() {
            Some(arr) => arr,
            None => {
                assert(strings_view(out@) =~= Seq::<Seq<char>>::empty());
                return out;
            },
        },
        None => {
            assert(strings_view(out@) =~= Seq::<Seq<char>>::empty());
            return out;
        },
    };
    let mut i: usize = 0;
    while i < arr.len()
        invariant
            i <= arr@.len(),
            strings_view(out@) == keep_some(arr@.take(i as int).map_values(value_date_fn())),
        decreases arr@.len() - i,
    {
        proof {
            lemma_keep_some_take(arr@, value_date_fn(), i as int);
        }
        let ghost before = out@;
        match arr[i].as_i64() {
            Some(ts) => {
                let d = timestamp_to_date(ts);
                out.push(d);
                assert(strings_view(out@) =~= strings_view(before).push(d@));
            },
            None => {},
        }
        i = i + 1;
    }
    proof {
        lemma_take_all(arr@);
    }
    out
}

/// The earnings module of a `quoteSummary` answer.
pub open spec fn spec_earnings_module(json: JsonValue) -> Option<JsonValue> {
    match spec_summary_module(json, "calendarEvents"@) {
        Some(c) => c.spec_get("earnings"@),
        None => None,
    }
}

/// The first of some texts.
pub open spec fn first_of(s: Seq<Seq<char>>) -> Option<Seq<char>> {
    if s.len() > 0 {
        Some(s[0])
    } else {
        None
    }
}

/// The date fields of the earnings event with module `e`: the first date
/// both is the date and starts the range, which ends at the second date
/// (or the start).
pub open spec fn spec_earnings_event_dates(e: JsonValue) -> (
    Option<Seq<char>>,
    Option<Seq<char>>,
    Option<Seq<char>>,
) {
    let dates = spec_earnings_dates(e);
    let start = first_of(dates);
    let end = if dates.len() > 1 {
        Some(dates[1])
    } else {
        start
    };
    (start, start, end)
}

/// `r` is what the earnings event of `json` reads as: nothing without an
/// `earnings` member in its calendar events, else its dates and estimates.
pub open spec fn earnings_parsed(json: JsonValue, r: Option<EarningsEvent>) -> bool {
    match spec_earnings_module(json) {
        None => r is None,
        Some(m) => r matches Some(e) && {
            &&& (opt_view(e.earnings_date), opt_view(e.earnings_date_start), opt_view(
                e.earnings_date_end,
            )) == spec_earnings_event_dates(m)
            &&& e.earnings_average == spec_number_member(m, "earningsAverage"@)
            &&& e.earnings_low == spec_number_member(m, "earningsLow"@)
            &&& e.earnings_high == spec_number_member(m, "earningsHigh"@)
            &&& e.revenue_average == spec_number_member(m, "revenueAverage"@)
            &&& e.revenue_low == spec_number_member(m, "revenueLow"@)
            &&& e.revenue_high == spec_number_member(m, "revenueHigh"@)
        },
    }
}

/// Parse the earnings event of a `quoteSummary` answer.
pub fn parse_earnings_event(json: &JsonValue) -> (r: Option<EarningsEvent>)
    ensures
        earnings_parsed(*json, r),
{
    let calendar = summary_module(json, "calendarEvents")?;
    let earnings = calendar.get("earnings")?;
    let dates = earnings_dates(earnings);
    let earnings_date = if dates.len() > 0 {
        Some(dates[0].clone())
    } else {
        None
    };
    let earnings_date_start = if dates.len() > 0 {
        Some(dates[0].clone())
    } else {
        None
    };
    let earnings_date_end = if dates.len() > 1 {
        Some(dates[1].clone())
    } else if dates.len() > 0 {
        Some(dates[0].clone())
    } else {
        None
    };
    proof {
        if dates@.len() > 0 {
            assert(strings_view(dates@)[0] == dates@[0]@);
        }
        if dates@.len() > 1 {
            assert(strings_view(dates@)[1] == dates@[1]@);
        }
    }
    Some(
        EarningsEvent {
            earnings_date,
            earnings_date_start,
            earnings_date_end,
            earnings_average: number_member(earnings, "earningsAverage"),
            earnings_low: number_member(earnings, "earningsLow"),
            earnings_high: number_member(earnings, "earningsHigh"),
            revenue_average: number_member(earnings, "revenueAverage"),
            revenue_low: number_member(earnings, "revenueLow"),
            revenue_high: number_member(earnings, "revenueHigh"),
        },
    )
}

/// Dividend dates and figures.
#[derive(Debug, Clone)]
pub struct DividendEvent {
    pub dividend_date: Option<String>,
    pub ex_dividend_date: Option<String>,
    pub dividend_rate: Option<Number>,
    pub dividend_yield: Option<Number>,
    pub payout_ratio: Option<Number>,
    pub five_year_avg_dividend_yield: Option<Number>,
}

impl DividendEvent {
    /// Check if there's an upcoming dividend.
    pub fn has_upcoming_dividend(&self) -> (r: bool)
        ensures
            r == self.ex_dividend_date is Some,
    {
        self.ex_dividend_date.is_some()
    }

    /// Get annual dividend amount.
    pub fn annual_dividend(&self) -> (r: Option<Number>)
        ensures
            r == self.dividend_rate,
    {
        self.dividend_rate
    }
}

/// The member `key` of an optional module.
pub open spec fn opt_member(m: Option<JsonValue>, key: Seq<char>) -> Option<JsonValue> {
    match m {
        Some(v) => v.spec_get(key),
        None => None,
    }
}

/// The date of an optional timestamp value.
pub open spec fn opt_value_date(v: Option<JsonValue>) -> Option<Seq<char>> {
    match v {
        Some(x) => spec_value_date(x),
        None => None,
    }
}

/// The number of an optional value.
pub open spec fn opt_value_number(v: Option<JsonValue>) -> Option<Number> {
    match v {
        Some(x) => x.spec_as_number(),
        None => None,
    }
}

fn date_of(v: Option<&JsonValue>) -> (r: Option<String>)
    ensures
        opt_view(r) == opt_value_date(deref_opt(v)),
{
    match v {
        Some(x) => match x.as_i64() {
            Some(ts) => Some(timestamp_to_date(ts)),
            None => None,
        },
        None => None,
    }
}

fn number_of(v: Option<&JsonValue>) -> (r: Option<Number>)
    ensures
        r == opt_value_number(deref_opt(v)),
{
    match v {
        Some(x) => x.as_number(),
        None => None,
    }
}

fn member_of<'a>(m: Option<&'a JsonValue>, key: &str) -> (r: Option<&'a JsonValue>)
    ensures
        deref_opt(r) == opt_member(deref_opt(m), key@),
{
    match m {
        Some(v) => v.get(key),
        None => None,
    }
}

/// The first result of a `quoteSummary` answer.
pub open spec fn spec_first_result(json: JsonValue) -> Option<JsonValue> {
    match json.spec_get("quoteSummary"@) {
        Some(q) => match q.spec_get("result"@) {
            Some(r) => r.spec_at(0),
            None => None,
        },
        None => None,
    }
}

fn first_result(json: &JsonValue) -> (r: Option<&JsonValue>)
    ensures
        deref_opt(r) == spec_first_result(*json),
{
    let q = json.get("quoteSummary")?;
    let res = q.get("result")?;
    res.at(0)
}

/// The dividend event of a `quoteSummary` answer: dates from the calendar
/// events, figures from the summary detail; there is one only when a date,
/// the rate or the yield is known.
pub open spec fn spec_parse_dividend_event(json: JsonValue) -> Option<(
    Option<Seq<char>>,
    Option<Seq<char>>,
    Option<Number>,
    Option<Number>,
    Option<Number>,
    Option<Number>,
)> {
    match spec_first_result(json) {
        None => None,
        Some(result) => {
            let calendar = result.spec_get("calendarEvents"@);
            let summary = result.spec_get("summaryDetail"@);
            let dividend_date = opt_value_date(opt_member(calendar, "dividendDate"@));
            let ex_date = opt_value_date(opt_member(calendar, "exDividendDate"@));
            let rate = opt_value_number(opt_member(summary, "dividendRate"@));
            let yld = opt_value_number(opt_member(summary, "dividendYield"@));
            let payout = opt_value_number(opt_member(summary, "payoutRatio"@));
            let five = opt_value_number(opt_member(summary, "fiveYearAvgDividendYield"@));
            if dividend_date is Some || ex_date is Some || rate is Some || yld is Some {
                Some((dividend_date, ex_date, rate, yld, payout, five))
            } else {
                None
            }
        },
    }
}

/// `r` is what the dividend event of `json` reads as.
pub open spec fn dividend_parsed(json: JsonValue, r: Option<DividendEvent>) -> bool {
    match spec_parse_dividend_event(json) {
        None => r is None,
        Some(s) => r matches Some(d) && (
            opt_view(d.dividend_date),
            opt_view(d.ex_dividend_date),
            d.dividend_rate,
            d.dividend_yield,
            d.payout_ratio,
            d.five_year_avg_dividend_yield,
        ) == s,
    }
}

/// Parse the dividend event of a `quoteSummary` answer.
pub fn parse_dividend_event(json: &JsonValue) -> (r: Option<DividendEvent>)
    ensures
        dividend_parsed(*json, r),
{
    let result = first_result(json)?;
    let calendar = result.get("calendarEvents");
    let summary = result.get("summaryDetail");
    let dividend_date = date_of(member_of(calendar, "dividendDate"));
    let ex_dividend_date = date_of(member_of(calendar, "exDividendDate"));
    let dividend_rate = number_of(member_of(summary, "dividendRate"));
    let dividend_yield = number_of(member_of(summary, "dividendYield"));
    let payout_ratio = number_of(member_of(summary, "payoutRatio"));
    let five_year = number_of(member_of(summary, "fiveYearAvgDividendYield"));
    if dividend_date.is_some() || ex_dividend_date.is_some() || dividend_rate.is_some()
        || dividend_yield.is_some() {
        Some(
            DividendEvent {
                dividend_date,
                ex_dividend_date,
                dividend_rate,
                dividend_yield,
                payout_ratio,
                five_year_avg_dividend_yield: five_year,
            },
        )
    } else {
        None
    }
}

/// The last split of a stock.
#[derive(Debug, Clone)]
pub struct SplitEvent {
    pub split_date: Option<String>,
    pub split_ratio: Option<String>,
    pub split_factor: Option<Number>,
}

/// The split event of a `quoteSummary` answer: the last split's date and
/// its factor (as text, e.g. `4:1`), when either is known.
pub open spec fn spec_parse_split_event(json: JsonValue) -> Option<(Option<Seq<char>>, Option<Seq<char>>)> {
    match spec_first_result(json) {
        None => None,
        Some(result) => match result.spec_get("defaultKeyStatistics"@) {
            None => None,
            Some(stats) => {
                let date = spec_member_date(stats, "lastSplitDate"@);
                let factor = spec_str_member(stats, "lastSplitFactor"@);
                if date is Some || factor is Some {
                    Some((date, factor))
                } else {
                    None
                }
            },
        },
    }
}

/// `r` is what the split of `json` reads as: its date and ratio.
pub open spec fn split_parsed(json: JsonValue, r: Option<SplitEvent>) -> bool {
    match spec_parse_split_event(json) {
        None => r is None,
        Some(s) => r matches Some(e) && (opt_view(e.split_date), opt_view(e.split_ratio)) == s
            && e.split_factor is None,
    }
}

/// Parse the split event of a `quoteSummary` answer.
pub fn parse_split_event(json: &JsonValue) -> (r: Option<SplitEvent>)
    ensures
        split_parsed(*json, r),
{
    let result = first_result(json)?;
    let stats = result.get("defaultKeyStatistics")?;
    let split_date = member_date(stats, "lastSplitDate");
    let split_ratio = str_member(stats, "lastSplitFactor");
    if split_date.is_some() || split_ratio.is_some() {
        Some(SplitEvent { split_date, split_ratio, split_factor: None })
    } else {
        None
    }
}

/// An optional text slice viewed.
pub open spec fn opt_str_view(o: Option<&str>) -> Option<Seq<char>> {
    match o {
        Some(t) => Some(t@),
        None => None,
    }
}

/// The earlier of two optional dates (`YYYY-MM-DD`, so text order is date
/// order), or whichever one is known.
pub open spec fn earlier_date(a: Option<Seq<char>>, b: Option<Seq<char>>) -> Option<Seq<char>> {
    match (a, b) {
        (Some(x), Some(y)) => if text_le(x, y) {
            Some(x)
        } else {
            Some(y)
        },
        (Some(x), None) => Some(x),
        (None, _) => b,
    }
}

/// The earlier of two dates is one of them, comes no later than either,
/// and is absent only when both are.
pub proof fn lemma_earlier_date_is_soonest(a: Option<Seq<char>>, b: Option<Seq<char>>)
    ensures
        earlier_date(a, b) is None <==> (a is None && b is None),
        earlier_date(a, b) matches Some(n) ==> {
            &&& (a == Some(n) || b == Some(n))
            &&& (a matches Some(t) ==> text_le(n, t))
            &&& (b matches Some(t) ==> text_le(n, t))
        },
{
    match (a, b) {
        (Some(x), Some(y)) => {
            lemma_text_le_total(x, y);
            lemma_text_le_total(x, x);
            lemma_text_le_total(y, y);
        },
        (Some(x), None) => {
            lemma_text_le_total(x, x);
        },
        (None, Some(y)) => {
            lemma_text_le_total(y, y);
        },
        (None, None) => {},
    }
}

/// The earlier of two dates.
fn earlier<'a>(a: Option<&'a str>, b: Option<&'a str>) -> (r: Option<&'a str>)
    ensures
        opt_str_view(r) == earlier_date(opt_str_view(a), opt_str_view(b)),
{
    match (a, b) {
        (Some(x), Some(y)) => {
            let c = compare_text(x, y);
            proof {
                lemma_text_le_total(x@, x@);
            }
            if c <= 0 {
                Some(x)
            } else {
                Some(y)
            }
        },
        (Some(x), None) => Some(x),
        (None, _) => b,
    }
}

/// Complete calendar data for a symbol.
#[derive(Debug, Clone)]
pub struct CalendarData {
    pub symbol: String,
    pub earnings: Option<EarningsEvent>,
    pub dividend: Option<DividendEvent>,
    pub split: Option<SplitEvent>,
}

impl CalendarData {
    /// Some earnings date, upcoming dividend or split date is known.
    pub open spec fn spec_has_upcoming_events(self) -> bool {
        ||| (self.earnings matches Some(e) && e.earnings_date is Some)
        ||| (self.dividend matches Some(d) && d.ex_dividend_date is Some)
        ||| (self.split matches Some(s) && s.split_date is Some)
    }

    /// Check if any upcoming events exist.
    pub fn has_upcoming_events(&self) -> (r: bool)
        ensures
            r == self.spec_has_upcoming_events(),
    {
        let e = match &self.earnings {
            Some(e) => e.earnings_date.is_some(),
            None => false,
        };
        let d = match &self.dividend {
            Some(d) => d.has_upcoming_dividend(),
            None => false,
        };
        let s = match &self.split {
            Some(s) => s.split_date.is_some(),
            None => false,
        };
        e || d || s
    }

    /// The dates of the events known: the earnings date, the ex-dividend
    /// date and the split date.
    pub open spec fn spec_event_dates(self) -> (Option<Seq<char>>, Option<Seq<char>>, Option<
        Seq<char>,
    >) {
        (
            match self.earnings {
                Some(e) => opt_view(e.earnings_date),
                None => None,
            },
            match self.dividend {
                Some(d) => opt_view(d.ex_dividend_date),
                None => None,
            },
            match self.split {
                Some(x) => opt_view(x.split_date),
                None => None,
            },
        )
    }

    /// The next event date: the soonest of the earnings, ex-dividend and
    /// split dates that are known.
    pub open spec fn spec_next_event_date(self) -> Option<Seq<char>> {
        let (e, d, x) = self.spec_event_dates();
        earlier_date(earlier_date(e, d), x)
    }

    /// Get the next event date: whichever of the earnings, ex-dividend and
    /// split dates is soonest.
    pub fn next_event_date(&self) -> (r: Option<&str>)
        ensures
            opt_str_view(r) == self.spec_next_event_date(),
            r is None <==> ({
                let (e, d, x) = self.spec_event_dates();
                e is None && d is None && x is None
            }),
            r matches Some(n) ==> {
                let (e, d, x) = self.spec_event_dates();
                &&& (e == Some(n@) || d == Some(n@) || x == Some(n@))
                &&& (e matches Some(t) ==> text_le(n@, t))
                &&& (d matches Some(t) ==> text_le(n@, t))
                &&& (x matches Some(t) ==> text_le(n@, t))
            },
    {
        let e: Option<&str> = match &self.earnings {
            Some(ev) => match &ev.earnings_date {
                Some(t) => Some(t.as_str()),
                None => None,
            },
            None => None,
        };
        let d: Option<&str> = match &self.dividend {
            Some(dv) => match &dv.ex_dividend_date {
                Some(t) => Some(t.as_str()),
                None => None,
            },
            None => None,
        };
        let x: Option<&str> = match &self.split {
            Some(sp) => match &sp.split_date {
                Some(t) => Some(t.as_str()),
                None => None,
            },
            None => None,
        };
        let r = earlier(earlier(e, d), x);
        proof {
            let (se, sd, sx) = self.spec_event_dates();
            lemma_earlier_date_is_soonest(se, sd);
            lemma_earlier_date_is_soonest(earlier_date(se, sd), sx);
            match (earlier_date(se, sd), r) {
                (Some(m), Some(n)) => {
                    if let Some(t) = se {
                        if text_le(m, t) {
                            lemma_text_le_transitive(n@, m, t);
                        }
                    }
                    if let Some(t) = sd {
                        if text_le(m, t) {
                            lemma_text_le_transitive(n@, m, t);
                        }
                    }
                },
                _ => {},
            }
        }
        r
    }
}


/// The full calendar of a `quoteSummary` answer: its earnings, dividend
/// and split events, each read as its own parser reads it.
pub fn full_calendar(symbol: &str, json: &JsonValue) -> (c: CalendarData)
    ensures
        c.symbol@ == symbol@,
        earnings_parsed(*json, c.earnings),
        dividend_parsed(*json, c.dividend),
        split_parsed(*json, c.split),
{
    CalendarData {
        symbol: symbol.to_owned(),
        earnings: parse_earnings_event(json),
        dividend: parse_dividend_event(json),
        split: parse_split_event(json),
    }
}

/// The number under `key` of an optional object.
pub open spec fn number_in(m: Option<JsonValue>, key: Seq<char>) -> Option<Number> {
    match m {
        Some(v) => spec_number_member(v, key),
        None => None,
    }
}

/// A dividend event read from an answer takes each figure from the first
/// result's summary detail, under its own key: the rate from
/// `dividendRate`, the yield from `dividendYield`, the payout ratio from
/// `payoutRatio` and the five-year average yield from
/// `fiveYearAvgDividendYield`.
pub proof fn law_dividend_figures_read_own_keys(json: JsonValue, r: Option<DividendEvent>)
    requires
        dividend_parsed(json, r),
    ensures
        r matches Some(d) ==> {
            let summary = spec_first_result(json)->0.spec_get("summaryDetail"@);
            &&& spec_first_result(json) is Some
            &&& d.dividend_rate == number_in(summary, "dividendRate"@)
            &&& d.dividend_yield == number_in(summary, "dividendYield"@)
            &&& d.payout_ratio == number_in(summary, "payoutRatio"@)
            &&& d.five_year_avg_dividend_yield == number_in(summary, "fiveYearAvgDividendYield"@)
        },
{
}

} // verus!
