//! The decisions of the polling streams: what each poll yields, and when a
//! consumer stops.

use vstd::prelude::*;
use crate::dates::unix_now_millis;
use crate::error::YahooError;
use crate::json::{deref_opt, JsonValue};
use crate::models::movers::MarketMover;
use crate::models::quote::SimpleQuote;
use vstd::string::*;
use crate::decimal::{spec_nat_decimal, u64_to_string};
use crate::text::str_eq;

verus! {

/// Quotes fetched together, with the time of the fetch (Unix time in
/// milliseconds).
#[derive(Debug, Clone)]
pub struct QuotesUpdate {
    pub quotes: Vec<SimpleQuote>,
    pub timestamp_ms: i64,
}

/// The position of the first quote of `symbol`, if any.
pub open spec fn first_with_symbol(quotes: Seq<SimpleQuote>, symbol: Seq<char>) -> Option<int> {
    if exists|i: int| 0 <= i < quotes.len() && (#[trigger] quotes[i]).symbol@ == symbol {
        Some(
            choose|i: int|
                0 <= i < quotes.len() && (#[trigger] quotes[i]).symbol@ == symbol && forall|j: int|
                    0 <= j < i ==> (#[trigger] quotes[j]).symbol@ != symbol,
        )
    } else {
        None
    }
}

impl QuotesUpdate {
    /// An update of `quotes` fetched at `timestamp_ms`.
    pub fn with_timestamp(quotes: Vec<SimpleQuote>, timestamp_ms: i64) -> (u: QuotesUpdate)
        ensures
            u.quotes == quotes,
            u.timestamp_ms == timestamp_ms,
    {
        QuotesUpdate { quotes, timestamp_ms }
    }

    /// An update of one quote, stamped with the current time.
    pub fn single(quote: SimpleQuote) -> (u: QuotesUpdate)
        ensures
            u.quotes@ == seq![quote],
    {
        let mut quotes: Vec<SimpleQuote> = Vec::new();
        quotes.push(quote);
        assert(quotes@ =~= seq![quote]);
        QuotesUpdate { quotes, timestamp_ms: unix_now_millis() }
    }

    /// An update of quotes, stamped with the current time.
    pub fn new(quotes: Vec<SimpleQuote>) -> (u: QuotesUpdate)
        ensures
            u.quotes == quotes,
    {
        QuotesUpdate { quotes, timestamp_ms: unix_now_millis() }
    }

    /// An update of several quotes, stamped with the current time.
    pub fn multiple(quotes: Vec<SimpleQuote>) -> (u: QuotesUpdate)
        ensures
            u.quotes == quotes,
    {
        QuotesUpdate { quotes, timestamp_ms: unix_now_millis() }
    }

    /// Check if this update contains a specific symbol.
    pub fn contains_symbol(&self, symbol: &str) -> (r: bool)
        ensures
            r == exists|i: int| 0 <= i < self.quotes@.len() && (#[trigger] self.quotes@[i]).symbol@ == symbol@,
    {
        self.get_quote(symbol).is_some()
    }

    /// Get the first quote of a symbol, if present.
    pub fn get_quote(&self, symbol: &str) -> (r: Option<&SimpleQuote>)
        ensures
            match first_with_symbol(self.quotes@, symbol@) {
                Some(i) => r == Some(&self.quotes@[i]),
                None => r is None,
            },
            r is Some <==> exists|i: int| 0 <= i < self.quotes@.len() && (#[trigger] self.quotes@[i]).symbol@ == symbol@,
    {
        let n = self.quotes.len();
        let mut i: usize = 0;
        while i < n
            invariant
                n == self.quotes@.len(),
                i <= n,
                forall|j: int| 0 <= j < i ==> (#[trigger] self.quotes@[j]).symbol@ != symbol@,
            decreases n - i,
        {
            if str_eq(self.quotes[i].symbol.as_str(), symbol) {
                proof {
                    let w = first_with_symbol(self.quotes@, symbol@);
                    assert(self.quotes@[i as int].symbol@ == symbol@);
                    let k = w->0;
                    if k < i {
                    } else if k > i {
                    }
                    assert(k == i);
                }
                return Some(&self.quotes[i]);
            }
            i = i + 1;
        }
        None
    }

    /// Returns true if this update contains no quotes.
    pub fn is_empty(&self) -> (r: bool)
        ensures
            r == (self.quotes@.len() == 0),
    {
        self.quotes.len() == 0
    }

    /// Returns the number of quotes in this update.
    pub fn len(&self) -> (n: usize)
        ensures
            n == self.quotes@.len(),
    {
        self.quotes.len()
    }
}

/// The market movers fetched together (most active, top gainers, top
/// losers), with the time of the fetch (Unix time in milliseconds).
#[derive(Debug, Clone)]
pub struct MoversUpdate {
    pub actives: Vec<MarketMover>,
    pub gainers: Vec<MarketMover>,
    pub losers: Vec<MarketMover>,
    pub timestamp_ms: i64,
}

impl MoversUpdate {
    /// An update of movers, stamped with the current time.
    pub fn new(actives: Vec<MarketMover>, gainers: Vec<MarketMover>, losers: Vec<MarketMover>) -> (u:
        MoversUpdate)
        ensures
            u.actives == actives,
            u.gainers == gainers,
            u.losers == losers,
    {
        MoversUpdate { actives, gainers, losers, timestamp_ms: unix_now_millis() }
    }

    /// An update of movers fetched at `timestamp_ms`.
    pub fn with_timestamp(
        actives: Vec<MarketMover>,
        gainers: Vec<MarketMover>,
        losers: Vec<MarketMover>,
        timestamp_ms: i64,
    ) -> (u: MoversUpdate)
        ensures
            u.actives == actives,
            u.gainers == gainers,
            u.losers == losers,
            u.timestamp_ms == timestamp_ms,
    {
        MoversUpdate { actives, gainers, losers, timestamp_ms }
    }
}

/// A stream that yields the quotes of several symbols at every poll.
pub struct QuoteStream;

impl QuoteStream {
    /// What one poll yields: the quotes fetched, stamped with the time of
    /// the poll, or the error of the fetch.
    pub fn on_fetch(result: Result<Vec<SimpleQuote>, YahooError>, now_ms: i64) -> (r: Result<
        QuotesUpdate,
        YahooError,
    >)
        ensures
            match result {
                Ok(q) => r matches Ok(u) && u.quotes == q && u.timestamp_ms == now_ms,
                Err(e) => r == Err::<QuotesUpdate, YahooError>(e),
            },
    {
        match result {
            Ok(quotes) => Ok(QuotesUpdate::with_timestamp(quotes, now_ms)),
            Err(e) => Err(e),
        }
    }
}

/// A stream that yields the quote of one symbol at every poll.
pub struct SingleQuoteStream;

impl SingleQuoteStream {
    /// What one poll yields: the first quote fetched (nothing when the
    /// answer held none), or the error of the fetch.
    pub fn on_fetch(result: Result<Vec<SimpleQuote>, YahooError>) -> (r: Option<
        Result<SimpleQuote, YahooError>,
    >)
        ensures
            match result {
                Ok(q) => if q@.len() > 0 {
                    r == Some(Ok::<SimpleQuote, YahooError>(q@[0]))
                } else {
                    r is None
                },
                Err(e) => r == Some(Err::<SimpleQuote, YahooError>(e)),
            },
    {
        match result {
            Ok(mut quotes) => {
                if quotes.len() > 0 {
                    let first = quotes.remove(0);
                    Some(Ok(first))
                } else {
                    None
                }
            },
            Err(e) => Some(Err(e)),
        }
    }
}

/// Counts the updates a consumer has taken and says when it has had
/// enough.
#[derive(Debug, Clone, Copy)]
pub struct UpdateLimit {
    pub taken: usize,
    pub max: Option<usize>,
}

impl UpdateLimit {
    /// No update taken yet; `max` updates at most (any number when absent).
    pub fn new(max: Option<usize>) -> (l: UpdateLimit)
        ensures
            l.taken == 0,
            l.max == max,
    {
        UpdateLimit { taken: 0, max }
    }

    /// Counts one more update, and says whether the consumer stops now.
    pub fn record_update(&mut self) -> (stop: bool)
        requires
            old(self).taken < usize::MAX,
        ensures
            final(self).taken == old(self).taken + 1,
            final(self).max == old(self).max,
            stop == match old(self).max {
                Some(m) => final(self).taken >= m,
                None => false,
            },
    {
        self.taken = self.taken + 1;
        match self.max {
            Some(m) => self.taken >= m,
            None => false,
        }
    }
}

/// The results of a quote answer (`quoteResponse.result`).
pub open spec fn spec_quote_results(data: JsonValue) -> Option<Seq<JsonValue>> {
    match data.spec_get("quoteResponse"@) {
        Some(qr) => match qr.spec_get("result"@) {
            Some(r) => r.spec_as_array(),
            None => None,
        },
        None => None,
    }
}

/// The results of a quote answer (`quoteResponse.result`).
pub fn quote_results(data: &JsonValue) -> (r: Option<&Vec<JsonValue>>)
    ensures
        match r {
            Some(v) => spec_quote_results(*data) == Some(v@),
            None => spec_quote_results(*data) is None,
        },
{
    let qr = data.get("quoteResponse")?;
    let res = qr.get("result")?;
    res.as_array()
}

/// A text member of a result, empty when absent or not text.
pub open spec fn text_or_empty(v: Option<JsonValue>) -> Seq<char> {
    match v {
        Some(x) => match x.spec_as_str() {
            Some(s) => s,
            None => Seq::empty(),
        },
        None => Seq::empty(),
    }
}

/// The name of a quote result: its long name when it has that member
/// (even when it is not text), else its short name.
pub open spec fn spec_result_name(result: JsonValue) -> Seq<char> {
    match result.spec_get("longName"@) {
        Some(l) => text_or_empty(Some(l)),
        None => text_or_empty(result.spec_get("shortName"@)),
    }
}

fn text_of(v: Option<&JsonValue>) -> (s: String)
    ensures
        s@ == text_or_empty(deref_opt(v)),
{
    match v {
        Some(x) => match x.as_str() {
            Some(t) => t.to_owned(),
            None => String::new(),
        },
        None => String::new(),
    }
}

/// The symbol and the name of a quote result, each empty when missing.
pub fn result_identity(result: &JsonValue) -> (r: (String, String))
    ensures
        r.0@ == text_or_empty(result.spec_get("symbol"@)),
        r.1@ == spec_result_name(*result),
{
    let symbol = text_of(result.get("symbol"));
    let name = match result.get("longName") {
        Some(l) => text_of(Some(l)),
        None => text_of(result.get("shortName")),
    };
    (symbol, name)
}

/// How a mover is listed among the top five of its category.
pub open spec fn spec_mover_line(m: MarketMover) -> Seq<char> {
    "    "@ + m.symbol@ + " - $"@ + m.price@ + " "@ + m.change@ + " ("@ + m.percent_change@ + ")"@
}

/// The line listing a mover among the top five of its category.
pub fn mover_line(m: &MarketMover) -> (r: String)
    ensures
        r@ == spec_mover_line(*m),
{
    let mut out = "    ".to_owned();
    out.append(m.symbol.as_str());
    out.append(" - $");
    out.append(m.price.as_str());
    out.append(" ");
    out.append(m.change.as_str());
    out.append(" (");
    out.append(m.percent_change.as_str());
    out.append(")");
    out
}

/// How a mover is listed with its rank among the top ten.
pub open spec fn spec_ranked_mover_line(rank: usize, m: MarketMover) -> Seq<char> {
    "  "@ + spec_nat_decimal(rank as nat) + ". "@ + m.symbol@ + " ("@ + m.name@ + ") - $"@ + m.price@
        + " "@ + m.change@ + " ("@ + m.percent_change@ + ")"@
}

/// The line listing a mover with its rank.
pub fn ranked_mover_line(rank: usize, m: &MarketMover) -> (r: String)
    ensures
        r@ == spec_ranked_mover_line(rank, *m),
{
    let mut out = "  ".to_owned();
    let digits = u64_to_string(rank as u64);
    out.append(digits.as_str());
    out.append(". ");
    out.append(m.symbol.as_str());
    out.append(" (");
    out.append(m.name.as_str());
    out.append(") - $");
    out.append(m.price.as_str());
    out.append(" ");
    out.append(m.change.as_str());
    out.append(" (");
    out.append(m.percent_change.as_str());
    out.append(")");
    out
}

/// How a quote is listed in an update: symbol, name, price and change.
pub open spec fn spec_quote_line(q: SimpleQuote) -> Seq<char> {
    q.symbol@ + " ("@ + q.name@ + ") - $"@ + q.price@ + " "@ + q.change@ + " ("@ + q.percent_change@
        + ")"@
}

/// The line listing a quote (without indentation).
pub fn quote_line(q: &SimpleQuote) -> (r: String)
    ensures
        r@ == spec_quote_line(*q),
{
    let mut out = q.symbol.clone();
    out.append(" (");
    out.append(q.name.as_str());
    out.append(") - $");
    out.append(q.price.as_str());
    out.append(" ");
    out.append(q.change.as_str());
    out.append(" (");
    out.append(q.percent_change.as_str());
    out.append(")");
    out
}

/// The marker shown beside an index: rising when its change is written
/// with a plus sign, falling otherwise.
pub fn index_trend_marker(change: &str) -> (m: &'static str)
    ensures
        change@.len() > 0 && change@[0] == '+' ==> m@ == "📈"@,
        !(change@.len() > 0 && change@[0] == '+') ==> m@ == "📉"@,
{
    if change.unicode_len() > 0 && change.get_char(0) == '+' {
        "📈"
    } else {
        "📉"
    }
}

} // verus!
