//! The requests the client sends to Yahoo Finance: an address and the
//! query parameters, in the order they are appended.

use vstd::prelude::*;
use vstd::string::*;
use crate::decimal::{spec_int_decimal, spec_nat_decimal, i64_to_string, u64_to_string};
use crate::error::YahooError;
use crate::dates::{parse_ymd, spec_parse_ymd};

verus! {

/// A name and a value, viewed as texts.
pub open spec fn pair_view(p: (String, String)) -> (Seq<char>, Seq<char>) {
    (p.0@, p.1@)
}

/// A list of parameters viewed as texts.
pub open spec fn params_view(ps: Seq<(String, String)>) -> Seq<(Seq<char>, Seq<char>)> {
    ps.map_values(|p: (String, String)| pair_view(p))
}

/// A parameter with the given name and value.
pub fn param(name: &str, value: &str) -> (p: (String, String))
    ensures
        pair_view(p) == (name@, value@),
{
    (name.to_owned(), value.to_owned())
}

/// A GET request: the address and its query parameters.
pub struct Request {
    pub url: String,
    pub params: Vec<(String, String)>,
}

impl Request {
    /// The request viewed as texts.
    pub open spec fn view_parts(self) -> (Seq<char>, Seq<(Seq<char>, Seq<char>)>) {
        (self.url@, params_view(self.params@))
    }
}

/// `parts` joined with `sep` between them (`[&str]::join`).
pub open spec fn spec_join(parts: Seq<Seq<char>>, sep: Seq<char>) -> Seq<char>
    decreases parts.len(),
{
    if parts.len() == 0 {
        Seq::empty()
    } else if parts.len() == 1 {
        parts[0]
    } else {
        spec_join(parts.drop_last(), sep) + sep + parts.last()
    }
}

/// The texts viewed as character sequences.
pub open spec fn strings_view(v: Seq<String>) -> Seq<Seq<char>> {
    v.map_values(|s: String| s@)
}

/// Joins texts with a separator.
pub fn join(parts: &Vec<String>, sep: &str) -> (r: String)
    ensures
        r@ == spec_join(strings_view(parts@), sep@),
{
    let mut out = String::new();
    let mut i: usize = 0;
    while i < parts.len()
        invariant
            i <= parts@.len(),
            out@ == spec_join(strings_view(parts@.take(i as int)), sep@),
        decreases parts@.len() - i,
    {
        proof {
            let pre = strings_view(parts@.take(i as int));
            let next = strings_view(parts@.take(i + 1));
            assert(next.drop_last() =~= pre);
            assert(next.last() == parts@[i as int]@);
        }
        if i > 0 {
            out.append(sep);
        } else {
            assert(out@ =~= Seq::<char>::empty());
        }
        out.append(parts[i].as_str());
        proof {
            let next = strings_view(parts@.take(i + 1));
            if i == 0 {
                assert(next.len() == 1);
                assert(out@ =~= next[0]);
            }
        }
        i = i + 1;
    }
    assert(parts@.take(parts@.len() as int) =~= parts@);
    out
}

/// `base` followed by `tail`.
pub fn concat(base: &str, tail: &str) -> (r: String)
    ensures
        r@ == base@ + tail@,
{
    let mut s = base.to_owned();
    s.append(tail);
    s
}

/// The address of a `quoteSummary` for a symbol.
pub open spec fn spec_summary_url(symbol: Seq<char>) -> Seq<char> {
    "https://query2.finance.yahoo.com/v10/finance/quoteSummary/"@ + symbol
}

/// The address of a chart for a symbol.
pub open spec fn spec_chart_url(symbol: Seq<char>) -> Seq<char> {
    "https://query1.finance.yahoo.com/v8/finance/chart/"@ + symbol
}

/// The address of the option chain of a symbol.
pub open spec fn spec_options_url(symbol: Seq<char>) -> Seq<char> {
    "https://query2.finance.yahoo.com/v7/finance/options/"@ + symbol
}

/// The modules of a detailed quote.
pub open spec fn spec_quote_modules() -> Seq<char> {
    "assetProfile,price,summaryDetail,defaultKeyStatistics,calendarEvents,quoteUnadjustedPerformanceOverview"@
}

/// Detailed quote data for a symbol.
pub fn quote_request(symbol: &str) -> (r: Request)
    ensures
        r.view_parts() == (spec_summary_url(symbol@), seq![("modules"@, spec_quote_modules())]),
{
    let url = concat("https://query2.finance.yahoo.com/v10/finance/quoteSummary/", symbol);
    let mut params: Vec<(String, String)> = Vec::new();
    params.push(
        param(
            "modules",
            "assetProfile,price,summaryDetail,defaultKeyStatistics,calendarEvents,quoteUnadjustedPerformanceOverview",
        ),
    );
    let r = Request { url, params };
    assert(params_view(r.params@) =~= seq![("modules"@, spec_quote_modules())]);
    r
}

/// Simple quote data for several symbols, comma-separated.
pub fn simple_quotes_request(symbols: &Vec<String>) -> (r: Request)
    ensures
        r.view_parts() == (
            "https://query1.finance.yahoo.com/v7/finance/quote"@,
            seq![("symbols"@, spec_join(strings_view(symbols@), ","@))],
        ),
{
    let joined = join(symbols, ",");
    let mut params: Vec<(String, String)> = Vec::new();
    params.push(param("symbols", joined.as_str()));
    let r = Request { url: "https://query1.finance.yahoo.com/v7/finance/quote".to_owned(), params };
    assert(params_view(r.params@) =~= seq![
        ("symbols"@, spec_join(strings_view(symbols@), ","@)),
    ]);
    r
}

/// Chart data for a symbol over a named range.
pub fn chart_request(symbol: &str, interval: &str, range: &str) -> (r: Request)
    ensures
        r.view_parts() == (
            spec_chart_url(symbol@),
            seq![("interval"@, interval@), ("range"@, range@)],
        ),
{
    let url = concat("https://query1.finance.yahoo.com/v8/finance/chart/", symbol);
    let mut params: Vec<(String, String)> = Vec::new();
    params.push(param("interval", interval));
    params.push(param("range", range));
    let r = Request { url, params };
    assert(params_view(r.params@) =~= seq![("interval"@, interval@), ("range"@, range@)]);
    r
}

/// Chart data for a symbol between two Unix times.
pub fn chart_with_periods_request(symbol: &str, interval: &str, period1: i64, period2: i64) -> (r:
    Request)
    ensures
        r.view_parts() == (
            spec_chart_url(symbol@),
            seq![
                ("interval"@, interval@),
                ("period1"@, spec_int_decimal(period1 as int)),
                ("period2"@, spec_int_decimal(period2 as int)),
            ],
        ),
{
    let url = concat("https://query1.finance.yahoo.com/v8/finance/chart/", symbol);
    let p1 = i64_to_string(period1);
    let p2 = i64_to_string(period2);
    let mut params: Vec<(String, String)> = Vec::new();
    params.push(param("interval", interval));
    params.push(param("period1", p1.as_str()));
    params.push(param("period2", p2.as_str()));
    let r = Request { url, params };
    assert(params_view(r.params@) =~= seq![
        ("interval"@, interval@),
        ("period1"@, spec_int_decimal(period1 as int)),
        ("period2"@, spec_int_decimal(period2 as int)),
    ]);
    r
}

/// A search for symbols and news.
pub fn search_request(query: &str, hits: usize) -> (r: Request)
    ensures
        r.view_parts() == (
            "https://query1.finance.yahoo.com/v1/finance/search"@,
            seq![("q"@, query@), ("quotesCount"@, spec_nat_decimal(hits as nat))],
        ),
{
    let count = u64_to_string(hits as u64);
    let mut params: Vec<(String, String)> = Vec::new();
    params.push(param("q", query));
    params.push(param("quotesCount", count.as_str()));
    let r = Request {
        url: "https://query1.finance.yahoo.com/v1/finance/search".to_owned(),
        params,
    };
    assert(params_view(r.params@) =~= seq![
        ("q"@, query@),
        ("quotesCount"@, spec_nat_decimal(hits as nat)),
    ]);
    r
}

/// Quotes recommended alongside a symbol.
pub fn similar_quotes_request(symbol: &str, limit: usize) -> (r: Request)
    ensures
        r.view_parts() == (
            "https://query2.finance.yahoo.com/v6/finance/recommendationsbysymbol/"@ + symbol@,
            seq![("count"@, spec_nat_decimal(limit as nat))],
        ),
{
    let url = concat("https://query2.finance.yahoo.com/v6/finance/recommendationsbysymbol/", symbol);
    let count = u64_to_string(limit as u64);
    let mut params: Vec<(String, String)> = Vec::new();
    params.push(param("count", count.as_str()));
    let r = Request { url, params };
    assert(params_view(r.params@) =~= seq![("count"@, spec_nat_decimal(limit as nat))]);
    r
}

/// The time series of fundamentals `types` of a symbol between two Unix
/// times.
pub open spec fn spec_fundamentals_request(
    symbol: Seq<char>,
    period1: int,
    period2: int,
    types: Seq<Seq<char>>,
) -> (Seq<char>, Seq<(Seq<char>, Seq<char>)>) {
    (
        "https://query1.finance.yahoo.com/ws/fundamentals-timeseries/v1/finance/timeseries/"@
            + symbol,
        seq![
            ("merge"@, "false"@),
            ("padTimeSeries"@, "true"@),
            ("period1"@, spec_int_decimal(period1)),
            ("period2"@, spec_int_decimal(period2)),
            ("type"@, spec_join(types, ","@)),
            ("lang"@, "en-US"@),
            ("region"@, "US"@),
        ],
    )
}

/// Time series of fundamentals for a symbol between two Unix times.
pub fn fundamentals_timeseries_request(
    symbol: &str,
    period1: i64,
    period2: i64,
    types: &Vec<String>,
) -> (r: Request)
    ensures
        r.view_parts() == spec_fundamentals_request(
            symbol@,
            period1 as int,
            period2 as int,
            strings_view(types@),
        ),
{
    let url = concat(
        "https://query1.finance.yahoo.com/ws/fundamentals-timeseries/v1/finance/timeseries/",
        symbol,
    );
    let joined = join(types, ",");
    let p1 = i64_to_string(period1);
    let p2 = i64_to_string(period2);
    let mut params: Vec<(String, String)> = Vec::new();
    params.push(param("merge", "false"));
    params.push(param("padTimeSeries", "true"));
    params.push(param("period1", p1.as_str()));
    params.push(param("period2", p2.as_str()));
    params.push(param("type", joined.as_str()));
    params.push(param("lang", "en-US"));
    params.push(param("region", "US"));
    let r = Request { url, params };
    assert(params_view(r.params@) =~= seq![
        ("merge"@, "false"@),
        ("padTimeSeries"@, "true"@),
        ("period1"@, spec_int_decimal(period1 as int)),
        ("period2"@, spec_int_decimal(period2 as int)),
        ("type"@, spec_join(strings_view(types@), ","@)),
        ("lang"@, "en-US"@),
        ("region"@, "US"@),
    ]);
    r
}

/// The parameters of a `quoteSummary` with the given modules.
pub open spec fn spec_summary_params(modules: Seq<char>) -> Seq<(Seq<char>, Seq<char>)> {
    seq![("modules"@, modules), ("corsDomain"@, "finance.yahoo.com"@), ("formatted"@, "false"@)]
}

/// A `quoteSummary` of a symbol with one module or a comma-separated list.
pub fn summary_request(symbol: &str, modules: &str) -> (r: Request)
    ensures
        r.view_parts() == (spec_summary_url(symbol@), spec_summary_params(modules@)),
{
    let url = concat("https://query2.finance.yahoo.com/v10/finance/quoteSummary/", symbol);
    let mut params: Vec<(String, String)> = Vec::new();
    params.push(param("modules", modules));
    params.push(param("corsDomain", "finance.yahoo.com"));
    params.push(param("formatted", "false"));
    let r = Request { url, params };
    assert(params_view(r.params@) =~= spec_summary_params(modules@));
    r
}

/// A `quoteSummary` of a symbol with the given modules.
pub fn quote_summary_request(symbol: &str, modules: &Vec<String>) -> (r: Request)
    ensures
        r.view_parts() == (
            spec_summary_url(symbol@),
            spec_summary_params(spec_join(strings_view(modules@), ","@)),
        ),
{
    let joined = join(modules, ",");
    summary_request(symbol, joined.as_str())
}

/// The kind of instrument a symbol names.
pub fn quote_type_request(symbol: &str) -> (r: Request)
    ensures
        r.view_parts() == (
            "https://query1.finance.yahoo.com/v1/finance/quoteType/"@ + symbol@,
            Seq::<(Seq<char>, Seq<char>)>::empty(),
        ),
{
    let url = concat("https://query1.finance.yahoo.com/v1/finance/quoteType/", symbol);
    let r = Request { url, params: Vec::new() };
    assert(params_view(r.params@) =~= Seq::<(Seq<char>, Seq<char>)>::empty());
    r
}

/// The transcript of an earnings call.
pub fn earnings_transcript_request(event_id: &str, company_id: &str) -> (r: Request)
    ensures
        r.view_parts() == (
            "https://finance.yahoo.com/xhr/transcript"@,
            seq![
                ("eventType"@, "earnings_call"@),
                ("quartrId"@, company_id@),
                ("eventId"@, event_id@),
                ("lang"@, "en-US"@),
                ("region"@, "US"@),
            ],
        ),
{
    let mut params: Vec<(String, String)> = Vec::new();
    params.push(param("eventType", "earnings_call"));
    params.push(param("quartrId", company_id));
    params.push(param("eventId", event_id));
    params.push(param("lang", "en-US"));
    params.push(param("region", "US"));
    let r = Request { url: "https://finance.yahoo.com/xhr/transcript".to_owned(), params };
    assert(params_view(r.params@) =~= seq![
        ("eventType"@, "earnings_call"@),
        ("quartrId"@, company_id@),
        ("eventId"@, event_id@),
        ("lang"@, "en-US"@),
        ("region"@, "US"@),
    ]);
    r
}

/// Dividends, splits and capital gains of a symbol over a period.
pub fn actions_request(symbol: &str, period: &str) -> (r: Request)
    ensures
        r.view_parts() == (
            spec_chart_url(symbol@),
            seq![
                ("interval"@, "1d"@),
                ("range"@, period@),
                ("events"@, "div,split,capitalGains"@),
            ],
        ),
{
    let url = concat("https://query1.finance.yahoo.com/v8/finance/chart/", symbol);
    let mut params: Vec<(String, String)> = Vec::new();
    params.push(param("interval", "1d"));
    params.push(param("range", period));
    params.push(param("events", "div,split,capitalGains"));
    let r = Request { url, params };
    assert(params_view(r.params@) =~= seq![
        ("interval"@, "1d"@),
        ("range"@, period@),
        ("events"@, "div,split,capitalGains"@),
    ]);
    r
}

/// The message of the error for an expiration date that cannot be read.
pub open spec fn spec_date_error_message(m: Seq<char>) -> Seq<char> {
    "Invalid date format: "@ + m
}

/// The Unix time of the UTC midnight that starts a `YYYY-MM-DD` date, or
/// a parse error carrying why the date cannot be read.
pub fn date_to_timestamp(date: &str) -> (r: Result<i64, YahooError>)
    ensures
        match spec_parse_ymd(date@) {
            Ok(t) => r == Ok::<i64, YahooError>(t),
            Err(m) => r matches Err(YahooError::ParseError(msg)) && msg@
                == spec_date_error_message(m),
        },
{
    match parse_ymd(date) {
        Ok(t) => Ok(t),
        Err(m) => Err(YahooError::ParseError(concat("Invalid date format: ", m.as_str()))),
    }
}

/// The option chain of a symbol, for one expiration date or the nearest.
pub fn option_chain_request(symbol: &str, date: Option<&str>) -> (r: Result<Request, YahooError>)
    ensures
        match date {
            None => r matches Ok(req) && req.view_parts() == (
                spec_options_url(symbol@),
                Seq::<(Seq<char>, Seq<char>)>::empty(),
            ),
            Some(d) => match spec_parse_ymd(d@) {
                Ok(t) => r matches Ok(req) && req.view_parts() == (
                    spec_options_url(symbol@),
                    seq![("date"@, spec_int_decimal(t as int))],
                ),
                Err(m) => r matches Err(YahooError::ParseError(msg)) && msg@
                    == spec_date_error_message(m),
            },
        },
{
    let url = concat("https://query2.finance.yahoo.com/v7/finance/options/", symbol);
    match date {
        None => {
            let r = Request { url, params: Vec::new() };
            assert(params_view(r.params@) =~= Seq::<(Seq<char>, Seq<char>)>::empty());
            Ok(r)
        },
        Some(d) => {
            let t = date_to_timestamp(d)?;
            let ts = i64_to_string(t);
            let mut params: Vec<(String, String)> = Vec::new();
            params.push(param("date", ts.as_str()));
            let r = Request { url, params };
            assert(params_view(r.params@) =~= seq![("date"@, spec_int_decimal(t as int))]);
            Ok(r)
        },
    }
}

/// All expiration dates of the options on a symbol.
pub fn option_expirations_request(symbol: &str) -> (r: Request)
    ensures
        r.view_parts() == (spec_options_url(symbol@), Seq::<(Seq<char>, Seq<char>)>::empty()),
{
    let url = concat("https://query2.finance.yahoo.com/v7/finance/options/", symbol);
    let r = Request { url, params: Vec::new() };
    assert(params_view(r.params@) =~= Seq::<(Seq<char>, Seq<char>)>::empty());
    r
}

/// Earnings and dividend dates of a symbol.
pub fn calendar_request(symbol: &str) -> (r: Request)
    ensures
        r.view_parts() == (spec_summary_url(symbol@), spec_summary_params("calendarEvents"@)),
{
    summary_request(symbol, "calendarEvents")
}

/// SEC filings of a symbol.
pub fn sec_filings_request(symbol: &str) -> (r: Request)
    ensures
        r.view_parts() == (spec_summary_url(symbol@), spec_summary_params("secFilings"@)),
{
    summary_request(symbol, "secFilings")
}

/// ESG scores of a symbol.
pub fn sustainability_request(symbol: &str) -> (r: Request)
    ensures
        r.view_parts() == (spec_summary_url(symbol@), spec_summary_params("esgScores"@)),
{
    summary_request(symbol, "esgScores")
}

/// An industry with its leading companies.
pub fn industry_request(industry_key: &str) -> (r: Request)
    ensures
        r.view_parts() == (
            "https://query2.finance.yahoo.com/v1/finance/industries/"@ + industry_key@,
            Seq::<(Seq<char>, Seq<char>)>::empty(),
        ),
{
    let url = concat("https://query2.finance.yahoo.com/v1/finance/industries/", industry_key);
    let r = Request { url, params: Vec::new() };
    assert(params_view(r.params@) =~= Seq::<(Seq<char>, Seq<char>)>::empty());
    r
}

/// Whether a market is open, and its hours.
pub fn market_status_request(market: &str) -> (r: Request)
    ensures
        r.view_parts() == (
            "https://query1.finance.yahoo.com/v6/finance/markettime"@,
            seq![
                ("formatted"@, "true"@),
                ("key"@, "finance"@),
                ("lang"@, "en-US"@),
                ("market"@, market@),
            ],
        ),
{
    let mut params: Vec<(String, String)> = Vec::new();
    params.push(param("formatted", "true"));
    params.push(param("key", "finance"));
    params.push(param("lang", "en-US"));
    params.push(param("market", market));
    let r = Request {
        url: "https://query1.finance.yahoo.com/v6/finance/markettime".to_owned(),
        params,
    };
    assert(params_view(r.params@) =~= seq![
        ("formatted"@, "true"@),
        ("key"@, "finance"@),
        ("lang"@, "en-US"@),
        ("market"@, market@),
    ]);
    r
}

/// The major indices of a market.
pub fn market_summary_request(market: &str) -> (r: Request)
    ensures
        r.view_parts() == (
            "https://query1.finance.yahoo.com/v6/finance/quote/marketSummary"@,
            seq![
                (
                    "fields"@,
                    "shortName,regularMarketPrice,regularMarketChange,regularMarketChangePercent"@,
                ),
                ("formatted"@, "false"@),
                ("lang"@, "en-US"@),
                ("market"@, market@),
            ],
        ),
{
    let mut params: Vec<(String, String)> = Vec::new();
    params.push(
        param(
            "fields",
            "shortName,regularMarketPrice,regularMarketChange,regularMarketChangePercent",
        ),
    );
    params.push(param("formatted", "false"));
    params.push(param("lang", "en-US"));
    params.push(param("market", market));
    let r = Request {
        url: "https://query1.finance.yahoo.com/v6/finance/quote/marketSummary".to_owned(),
        params,
    };
    assert(params_view(r.params@) =~= seq![
        (
            "fields"@,
            "shortName,regularMarketPrice,regularMarketChange,regularMarketChangePercent"@,
        ),
        ("formatted"@, "false"@),
        ("lang"@, "en-US"@),
        ("market"@, market@),
    ]);
    r
}

/// The query of an authenticated request: the crumb first, then the
/// request's own parameters.
pub fn authenticated_query(crumb: &str, params: &Vec<(String, String)>) -> (q: Vec<(String, String)>)
    ensures
        params_view(q@) == seq![("crumb"@, crumb@)] + params_view(params@),
{
    let mut q: Vec<(String, String)> = Vec::new();
    q.push(param("crumb", crumb));
    let mut i: usize = 0;
    while i < params.len()
        invariant
            i <= params@.len(),
            params_view(q@) == seq![("crumb"@, crumb@)] + params_view(params@.take(i as int)),
        decreases params@.len() - i,
    {
        let (n, v) = &params[i];
        let ghost before = q@;
        q.push(param(n.as_str(), v.as_str()));
        proof {
            assert(params_view(params@.take(i + 1)) =~= params_view(params@.take(i as int)).push(
                pair_view(params@[i as int]),
            ));
            assert(params_view(q@) =~= params_view(before).push(pair_view(params@[i as int])));
        }
        i = i + 1;
    }
    assert(params@.take(params@.len() as int) =~= params@);
    q
}

/// An authenticated request that failed because the crumb was refused is
/// tried once more after a forced refresh; any other error stands.
pub fn should_refresh_and_retry(err: &YahooError) -> (r: bool)
    ensures
        r == (err is AuthFailed),
{
    match err {
        YahooError::AuthFailed(_) => true,
        _ => false,
    }
}

/// The error for an answer that is not the JSON document expected.
pub fn json_parse_error(url: &str, detail: &str) -> (e: YahooError)
    ensures
        e matches YahooError::ParseError(m) && m@ == "Failed to parse JSON response from "@ + url@
            + ": "@ + detail@,
{
    let mut msg = "Failed to parse JSON response from ".to_owned();
    msg.append(url);
    msg.append(": ");
    msg.append(detail);
    YahooError::ParseError(msg)
}

/// The error for an answer that does not have the shape of `what`.
pub fn response_parse_error(what: &str, detail: &str) -> (e: YahooError)
    ensures
        e matches YahooError::ParseError(m) && m@ == "Failed to parse "@ + what@ + " response: "@
            + detail@,
{
    let mut msg = "Failed to parse ".to_owned();
    msg.append(what);
    msg.append(" response: ");
    msg.append(detail);
    YahooError::ParseError(msg)
}

} // verus!
