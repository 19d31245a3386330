//! Historical price bars: the columns of a chart answer lined up by
//! timestamp.  Prices are of any copyable type `P`; the library never
//! computes with them.

use vstd::prelude::*;
use vstd::string::*;
use crate::client::requests::concat;
use crate::dates::{parse_ymd, spec_parse_ymd, spec_utc_date, utc_date};
use crate::error::YahooError;
use crate::json::opt_view;

verus! {

/// A trading session of a market.
#[derive(Debug, Clone)]
pub struct TradingPeriod {
    pub timezone: Option<String>,
    pub start: Option<i64>,
    pub end: Option<i64>,
    pub gmtoffset: Option<i64>,
}

/// The sessions of the current trading day.
#[derive(Debug, Clone)]
pub struct CurrentTradingPeriod {
    pub pre: Option<TradingPeriod>,
    pub regular: Option<TradingPeriod>,
    pub post: Option<TradingPeriod>,
}

/// One price bar.
#[derive(Debug, Clone, Copy)]
pub struct OhlcvBar<P> {
    pub timestamp: i64,
    pub open: Option<P>,
    pub high: Option<P>,
    pub low: Option<P>,
    pub close: Option<P>,
    pub volume: Option<i64>,
    pub adj_close: Option<P>,
}

/// The entry of a column for bar `i`: nothing when the column, or its
/// entry there, is missing.
pub open spec fn spec_column_at<T>(col: Option<Seq<Option<T>>>, i: int) -> Option<T> {
    match col {
        Some(v) => if 0 <= i < v.len() {
            v[i]
        } else {
            None
        },
        None => None,
    }
}

/// A column viewed as a sequence.
pub open spec fn column_view<T>(col: Option<&Vec<Option<T>>>) -> Option<Seq<Option<T>>> {
    match col {
        Some(v) => Some(v@),
        None => None,
    }
}

fn column_at<T: Copy>(col: Option<&Vec<Option<T>>>, i: usize) -> (r: Option<T>)
    ensures
        r == spec_column_at(column_view(col), i as int),
{
    match col {
        Some(v) => if i < v.len() {
            v[i]
        } else {
            None
        },
        None => None,
    }
}

/// The columns of a chart answer's first result.
pub struct ChartColumns<'a, P> {
    pub open: Option<&'a Vec<Option<P>>>,
    pub high: Option<&'a Vec<Option<P>>>,
    pub low: Option<&'a Vec<Option<P>>>,
    pub close: Option<&'a Vec<Option<P>>>,
    pub volume: Option<&'a Vec<Option<i64>>>,
    pub adj_close: Option<&'a Vec<Option<P>>>,
}

/// The bar for timestamp `ts` at position `i`.
pub open spec fn spec_bar<P>(cols: ChartColumns<P>, ts: i64, i: int) -> OhlcvBar<P> {
    OhlcvBar {
        timestamp: ts,
        open: spec_column_at(column_view(cols.open), i),
        high: spec_column_at(column_view(cols.high), i),
        low: spec_column_at(column_view(cols.low), i),
        close: spec_column_at(column_view(cols.close), i),
        volume: spec_column_at(column_view(cols.volume), i),
        adj_close: spec_column_at(column_view(cols.adj_close), i),
    }
}

/// One bar per timestamp, with the entries of each column at the same
/// position.
pub fn align_bars<P: Copy>(timestamps: &Vec<i64>, cols: &ChartColumns<P>) -> (bars: Vec<OhlcvBar<P>>)
    ensures
        bars@.len() == timestamps@.len(),
        forall|i: int| 0 <= i < bars@.len() ==> #[trigger] bars@[i] == spec_bar(*cols, timestamps@[i], i),
{
    let mut bars: Vec<OhlcvBar<P>> = Vec::new();
    let mut i: usize = 0;
    while i < timestamps.len()
        invariant
            i <= timestamps@.len(),
            bars@.len() == i,
            forall|j: int| 0 <= j < i ==> #[trigger] bars@[j] == spec_bar(*cols, timestamps@[j], j),
        decreases timestamps@.len() - i,
    {
        let bar = OhlcvBar {
            timestamp: timestamps[i],
            open: column_at(cols.open, i),
            high: column_at(cols.high, i),
            low: column_at(cols.low, i),
            close: column_at(cols.close, i),
            volume: column_at(cols.volume, i),
            adj_close: column_at(cols.adj_close, i),
        };
        bars.push(bar);
        i = i + 1;
    }
    bars
}

/// What `chrono` gives as the UTC date and second (`%Y-%m-%d %H:%M:%S`) of
/// a Unix timestamp in seconds, or nothing when it is out of its range.
pub uninterp spec fn spec_utc_date_second(ts: i64) -> Option<Seq<char>>;

/// Formats a timestamp as a UTC date and second with `chrono`
/// (`DateTime::from_timestamp(ts, 0)` then `format("%Y-%m-%d %H:%M:%S")`);
/// the result is named by `spec_utc_date_second` and nothing more is
/// claimed.
#[verifier::external_body]
fn utc_date_second(ts: i64) -> (r: Option<String>)
    ensures
        opt_view(r) == spec_utc_date_second(ts),
{
    chrono::DateTime::from_timestamp(ts, 0).map(|dt| dt.format("%Y-%m-%d %H:%M:%S").to_string())
}

impl<P> OhlcvBar<P> {
    /// The UTC date of the bar, or `Invalid`.
    pub fn date_string(&self) -> (r: String)
        ensures
            r@ == match spec_utc_date(self.timestamp) {
                Some(d) => d,
                None => "Invalid"@,
            },
    {
        match utc_date(self.timestamp) {
            Some(d) => d,
            None => "Invalid".to_owned(),
        }
    }

    /// The UTC date and time of the bar, or `Invalid`.
    pub fn datetime_string(&self) -> (r: String)
        ensures
            r@ == match spec_utc_date_second(self.timestamp) {
                Some(d) => d,
                None => "Invalid"@,
            },
    {
        match utc_date_second(self.timestamp) {
            Some(d) => d,
            None => "Invalid".to_owned(),
        }
    }
}

/// Historical data of a symbol.
#[derive(Debug, Clone)]
pub struct HistoricalData<P> {
    pub symbol: String,
    pub currency: Option<String>,
    pub exchange: Option<String>,
    pub interval: String,
    pub range: Option<String>,
    pub bars: Vec<OhlcvBar<P>>,
}

/// The total of the volumes that are known.
pub open spec fn spec_total_volume<P>(bars: Seq<OhlcvBar<P>>) -> int
    decreases bars.len(),
{
    if bars.len() == 0 {
        0
    } else {
        spec_total_volume(bars.drop_last()) + match bars.last().volume {
            Some(v) => v as int,
            None => 0,
        }
    }
}

impl<P> HistoricalData<P> {
    /// The first bar.
    pub fn first(&self) -> (r: Option<&OhlcvBar<P>>)
        ensures
            self.bars@.len() > 0 ==> r == Some(&self.bars@[0]),
            self.bars@.len() == 0 ==> r is None,
    {
        if self.bars.len() > 0 {
            Some(&self.bars[0])
        } else {
            None
        }
    }

    /// The last bar.
    pub fn last(&self) -> (r: Option<&OhlcvBar<P>>)
        ensures
            self.bars@.len() > 0 ==> r == Some(&self.bars@[self.bars@.len() - 1]),
            self.bars@.len() == 0 ==> r is None,
    {
        let n = self.bars.len();
        if n > 0 {
            Some(&self.bars[n - 1])
        } else {
            None
        }
    }

    /// The number of bars.
    pub fn len(&self) -> (n: usize)
        ensures
            n == self.bars@.len(),
    {
        self.bars.len()
    }

    /// There are no bars.
    pub fn is_empty(&self) -> (r: bool)
        ensures
            r == (self.bars@.len() == 0),
    {
        self.bars.len() == 0
    }

    /// The total of the known volumes.
    pub fn total_volume(&self) -> (t: i64)
        requires
            forall|k: int|
                0 <= k <= self.bars@.len() ==> i64::MIN <= #[trigger] spec_total_volume(
                    self.bars@.take(k),
                ) <= i64::MAX,
        ensures
            t == spec_total_volume(self.bars@),
    {
        let mut total: i64 = 0;
        let mut i: usize = 0;
        while i < self.bars.len()
            invariant
                i <= self.bars@.len(),
                total == spec_total_volume(self.bars@.take(i as int)),
                forall|k: int|
                    0 <= k <= self.bars@.len() ==> i64::MIN <= #[trigger] spec_total_volume(
                        self.bars@.take(k),
                    ) <= i64::MAX,
            decreases self.bars@.len() - i,
        {
            assert(self.bars@.take(i + 1).drop_last() =~= self.bars@.take(i as int));
            assert(i64::MIN <= spec_total_volume(self.bars@.take(i + 1)) <= i64::MAX);
            match self.bars[i].volume {
                Some(v) => {
                    total = total + v;
                },
                None => {},
            }
            i = i + 1;
        }
        assert(self.bars@.take(self.bars@.len() as int) =~= self.bars@);
        total
    }
}

/// The Unix time of the UTC midnight that starts a `YYYY-MM-DD` date, or a
/// parse error naming the date and why it cannot be read.
pub fn date_to_timestamp(date: &str) -> (r: Result<i64, YahooError>)
    ensures
        match spec_parse_ymd(date@) {
            Ok(t) => r == Ok::<i64, YahooError>(t),
            Err(m) => r matches Err(YahooError::ParseError(msg)) && msg@ == "Invalid date format '"@
                + date@ + "': "@ + m,
        },
{
    match parse_ymd(date) {
        Ok(t) => Ok(t),
        Err(m) => {
            let mut msg = "Invalid date format '".to_owned();
            msg.append(date);
            msg.append("': ");
            msg.append(m.as_str());
            Err(YahooError::ParseError(msg))
        },
    }
}

impl<P: Copy> HistoricalData<P> {
    /// The history a chart answer's first result gives: nothing without
    /// timestamps or without price columns; else one bar per timestamp,
    /// and the symbol (empty when missing), currency, exchange and range.
    pub fn from_chart(
        symbol: Option<String>,
        currency: Option<String>,
        exchange: Option<String>,
        range: Option<String>,
        interval: &str,
        timestamps: Option<&Vec<i64>>,
        cols: Option<&ChartColumns<P>>,
    ) -> (r: Option<HistoricalData<P>>)
        ensures
            match (timestamps, cols) {
                (Some(ts), Some(c)) => r matches Some(h) && {
                    &&& h.symbol@ == match opt_view(symbol) {
                        Some(x) => x,
                        None => Seq::empty(),
                    }
                    &&& h.currency == currency
                    &&& h.exchange == exchange
                    &&& h.range == range
                    &&& h.interval@ == interval@
                    &&& h.bars@.len() == ts@.len()
                    &&& forall|i: int| 0 <= i < h.bars@.len() ==> #[trigger] h.bars@[i] == spec_bar(*c, ts@[i], i)
                },
                _ => r is None,
            },
    {
        let ts = timestamps?;
        let c = cols?;
        let bars = align_bars(ts, c);
        Some(
            HistoricalData {
                symbol: match symbol {
                    Some(x) => x,
                    None => String::new(),
                },
                currency,
                exchange,
                interval: interval.to_owned(),
                range,
                bars,
            },
        )
    }
}

/// The entry at position `i` of a column, if the column is there and is
/// long enough.
pub open spec fn entry_at<T>(col: Option<&Vec<Option<T>>>, i: int) -> Option<T> {
    match col {
        Some(v) => if 0 <= i < v@.len() {
            v@[i]
        } else {
            None
        },
        None => None,
    }
}

/// The bar at position `i` carries the `i`-th timestamp and, in each
/// field, the `i`-th entry of the column of the same name: open, high,
/// low, close, volume and adjusted close.
pub proof fn law_bar_fields_come_from_their_columns<P>(
    cols: ChartColumns<P>,
    timestamps: Seq<i64>,
    i: int,
)
    requires
        0 <= i < timestamps.len(),
    ensures
        spec_bar(cols, timestamps[i], i).timestamp == timestamps[i],
        spec_bar(cols, timestamps[i], i).open == entry_at(cols.open, i),
        spec_bar(cols, timestamps[i], i).high == entry_at(cols.high, i),
        spec_bar(cols, timestamps[i], i).low == entry_at(cols.low, i),
        spec_bar(cols, timestamps[i], i).close == entry_at(cols.close, i),
        spec_bar(cols, timestamps[i], i).volume == entry_at(cols.volume, i),
        spec_bar(cols, timestamps[i], i).adj_close == entry_at(cols.adj_close, i),
{
}

} // verus!
