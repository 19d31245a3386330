//! Corporate actions of a symbol: dividends, splits and capital gains,
//! each dated by a Unix time in seconds and listed oldest first.

use vstd::prelude::*;
use crate::dates::{spec_utc_date, utc_date};
use crate::error::YahooError;
use crate::json::Number;
use crate::order::{is_index_permutation, stable_order_i64, stably_ordered_i64};

verus! {

/// A dividend payment.
#[derive(Debug, Clone)]
pub struct Dividend {
    pub date: i64,
    pub amount: Number,
    pub currency: Option<String>,
}

/// A stock split: `numerator` new shares for `denominator` old ones.
#[derive(Debug, Clone)]
pub struct StockSplit {
    pub date: i64,
    pub numerator: Number,
    pub denominator: Number,
    /// The ratio as text (e.g. `2:1`).
    pub split_ratio: String,
}

/// A capital gain distribution.
#[derive(Debug, Clone)]
pub struct CapitalGain {
    pub date: i64,
    pub amount: Number,
}

/// The actions of a symbol.
#[derive(Debug, Clone)]
pub struct ActionsResponse {
    pub symbol: String,
    pub dividends: Vec<Dividend>,
    pub splits: Vec<StockSplit>,
    pub capital_gains: Vec<CapitalGain>,
}

/// Every date is a time `chrono` can represent.
pub open spec fn all_valid(dates: Seq<i64>) -> bool {
    forall|i: int| 0 <= i < dates.len() ==> (#[trigger] spec_utc_date(dates[i])) is Some
}

/// `r` lists the records of `v` oldest first, records of equal date in the
/// order they came.
pub open spec fn is_by_date<T>(r: Seq<T>, v: Seq<T>, dates: Seq<i64>) -> bool {
    exists|p: Seq<usize>|
        is_index_permutation(p, v.len()) && stably_ordered_i64(p, dates, false) && r == Seq::new(
            v.len(),
            |k: int| v[p[k] as int],
        )
}

/// The oldest-first order of records with these dates, or nothing when a
/// date is not a representable time.
fn order_by_date(dates: &Vec<i64>) -> (r: Option<Vec<usize>>)
    ensures
        match r {
            Some(p) => all_valid(dates@) && is_index_permutation(p@, dates@.len())
                && stably_ordered_i64(p@, dates@, false),
            None => !all_valid(dates@),
        },
{
    let mut i: usize = 0;
    while i < dates.len()
        invariant
            i <= dates@.len(),
            forall|j: int| 0 <= j < i ==> (#[trigger] spec_utc_date(dates@[j])) is Some,
        decreases dates@.len() - i,
    {
        if utc_date(dates[i]).is_none() {
            return None;
        }
        i = i + 1;
    }
    Some(stable_order_i64(dates, false))
}

impl ActionsResponse {
    /// A response with no actions.
    pub fn new(symbol: String) -> (r: ActionsResponse)
        ensures
            r.symbol == symbol,
            r.dividends@.len() == 0,
            r.splits@.len() == 0,
            r.capital_gains@.len() == 0,
    {
        ActionsResponse {
            symbol,
            dividends: Vec::new(),
            splits: Vec::new(),
            capital_gains: Vec::new(),
        }
    }

    /// There is no action at all.
    pub fn is_empty(&self) -> (r: bool)
        ensures
            r == (self.dividends@.len() == 0 && self.splits@.len() == 0
                && self.capital_gains@.len() == 0),
    {
        self.dividends.len() == 0 && self.splits.len() == 0 && self.capital_gains.len() == 0
    }

    /// The actions of a chart answer's events, given in the order the
    /// answer's maps are walked (each split with its ratio as text): each
    /// kind is listed oldest first (equal dates keep their order), and a
    /// date that is not a representable time spoils the answer, dividends
    /// checked first, then splits, then capital gains.
    pub fn from_events(
        symbol: String,
        dividends: Vec<(i64, Number)>,
        splits: Vec<(i64, Number, Number, String)>,
        gains: Vec<(i64, Number)>,
    ) -> (r: Result<ActionsResponse, YahooError>)
        ensures
            !all_valid(dividends@.map_values(|d: (i64, Number)| d.0)) ==> (r matches Err(
                YahooError::ParseError(m),
            ) && m@ == "Invalid dividend timestamp"@),
            all_valid(dividends@.map_values(|d: (i64, Number)| d.0)) && !all_valid(
                splits@.map_values(|s: (i64, Number, Number, String)| s.0),
            ) ==> (r matches Err(YahooError::ParseError(m)) && m@ == "Invalid split timestamp"@),
            all_valid(dividends@.map_values(|d: (i64, Number)| d.0)) && all_valid(
                splits@.map_values(|s: (i64, Number, Number, String)| s.0),
            ) && !all_valid(gains@.map_values(|g: (i64, Number)| g.0)) ==> (r matches Err(
                YahooError::ParseError(m),
            ) && m@ == "Invalid capital gain timestamp"@),
            all_valid(dividends@.map_values(|d: (i64, Number)| d.0)) && all_valid(
                splits@.map_values(|s: (i64, Number, Number, String)| s.0),
            ) && all_valid(gains@.map_values(|g: (i64, Number)| g.0)) ==> (r matches Ok(a) && {
                &&& a.symbol == symbol
                &&& is_by_date(
                    a.dividends@,
                    dividends@.map_values(
                        |d: (i64, Number)| Dividend { date: d.0, amount: d.1, currency: None },
                    ),
                    dividends@.map_values(|d: (i64, Number)| d.0),
                )
                &&& is_by_date(
                    a.splits@,
                    splits@.map_values(
                        |s: (i64, Number, Number, String)|
                            StockSplit { date: s.0, numerator: s.1, denominator: s.2, split_ratio: s.3 },
                    ),
                    splits@.map_values(|s: (i64, Number, Number, String)| s.0),
                )
                &&& is_by_date(
                    a.capital_gains@,
                    gains@.map_values(|g: (i64, Number)| CapitalGain { date: g.0, amount: g.1 }),
                    gains@.map_values(|g: (i64, Number)| g.0),
                )
            }),
    {
        // Dividends.
        let mut ddates: Vec<i64> = Vec::new();
        let mut i: usize = 0;
        while i < dividends.len()
            invariant
                i <= dividends@.len(),
                ddates@ == dividends@.take(i as int).map_values(|d: (i64, Number)| d.0),
            decreases dividends@.len() - i,
        {
            ddates.push(dividends[i].0);
            assert(dividends@.take(i + 1).map_values(|d: (i64, Number)| d.0) =~= dividends@.take(
                i as int,
            ).map_values(|d: (i64, Number)| d.0).push(dividends@[i as int].0));
            i = i + 1;
        }
        assert(dividends@.take(dividends@.len() as int) =~= dividends@);
        let dp = match order_by_date(&ddates) {
            Some(p) => p,
            None => {
                return Err(YahooError::ParseError("Invalid dividend timestamp".to_owned()));
            },
        };
        // Splits.
        let mut sdates: Vec<i64> = Vec::new();
        let mut i: usize = 0;
        while i < splits.len()
            invariant
                i <= splits@.len(),
                sdates@ == splits@.take(i as int).map_values(|s: (i64, Number, Number, String)| s.0),
            decreases splits@.len() - i,
        {
            sdates.push(splits[i].0);
            assert(splits@.take(i + 1).map_values(|s: (i64, Number, Number, String)| s.0)
                =~= splits@.take(i as int).map_values(|s: (i64, Number, Number, String)| s.0).push(
                splits@[i as int].0,
            ));
            i = i + 1;
        }
        assert(splits@.take(splits@.len() as int) =~= splits@);
        let sp = match order_by_date(&sdates) {
            Some(p) => p,
            None => {
                return Err(YahooError::ParseError("Invalid split timestamp".to_owned()));
            },
        };
        // Capital gains.
        let mut gdates: Vec<i64> = Vec::new();
        let mut i: usize = 0;
        while i < gains.len()
            invariant
                i <= gains@.len(),
                gdates@ == gains@.take(i as int).map_values(|g: (i64, Number)| g.0),
            decreases gains@.len() - i,
        {
            gdates.push(gains[i].0);
            assert(gains@.take(i + 1).map_values(|g: (i64, Number)| g.0) =~= gains@.take(
                i as int,
            ).map_values(|g: (i64, Number)| g.0).push(gains@[i as int].0));
            i = i + 1;
        }
        assert(gains@.take(gains@.len() as int) =~= gains@);
        let gp = match order_by_date(&gdates) {
            Some(p) => p,
            None => {
                return Err(YahooError::ParseError("Invalid capital gain timestamp".to_owned()));
            },
        };
        // Assemble in order.
        let ghost dv = dividends@.map_values(
            |d: (i64, Number)| Dividend { date: d.0, amount: d.1, currency: None },
        );
        let mut dout: Vec<Dividend> = Vec::new();
        let mut k: usize = 0;
        while k < dp.len()
            invariant
                k <= dp@.len(),
                dp@.len() == dividends@.len(),
                is_index_permutation(dp@, ddates@.len()),
                ddates@.len() == dividends@.len(),
                dv == dividends@.map_values(
                    |d: (i64, Number)| Dividend { date: d.0, amount: d.1, currency: None },
                ),
                dout@ == Seq::new(k as nat, |t: int| dv[dp@[t] as int]),
            decreases dp@.len() - k,
        {
            let (date, amount) = dividends[dp[k]];
            dout.push(Dividend { date, amount, currency: None });
            assert(dout@ =~= Seq::new((k + 1) as nat, |t: int| dv[dp@[t] as int]));
            k = k + 1;
        }
        let ghost sv = splits@.map_values(
            |s: (i64, Number, Number, String)| StockSplit { date: s.0, numerator: s.1, denominator: s.2, split_ratio: s.3 },
        );
        let mut sout: Vec<StockSplit> = Vec::new();
        let mut k: usize = 0;
        while k < sp.len()
            invariant
                k <= sp@.len(),
                sp@.len() == splits@.len(),
                is_index_permutation(sp@, sdates@.len()),
                sdates@.len() == splits@.len(),
                sv == splits@.map_values(
                    |s: (i64, Number, Number, String)|
                        StockSplit { date: s.0, numerator: s.1, denominator: s.2, split_ratio: s.3 },
                ),
                sout@ == Seq::new(k as nat, |t: int| sv[sp@[t] as int]),
            decreases sp@.len() - k,
        {
            let s = &splits[sp[k]];
            sout.push(
                StockSplit { date: s.0, numerator: s.1, denominator: s.2, split_ratio: s.3.clone() },
            );
            assert(sout@ =~= Seq::new((k + 1) as nat, |t: int| sv[sp@[t] as int]));
            k = k + 1;
        }
        let ghost gv = gains@.map_values(|g: (i64, Number)| CapitalGain { date: g.0, amount: g.1 });
        let mut gout: Vec<CapitalGain> = Vec::new();
        let mut k: usize = 0;
        while k < gp.len()
            invariant
                k <= gp@.len(),
                gp@.len() == gains@.len(),
                is_index_permutation(gp@, gdates@.len()),
                gdates@.len() == gains@.len(),
                gv == gains@.map_values(|g: (i64, Number)| CapitalGain { date: g.0, amount: g.1 }),
                gout@ == Seq::new(k as nat, |t: int| gv[gp@[t] as int]),
            decreases gp@.len() - k,
        {
            let (date, amount) = gains[gp[k]];
            gout.push(CapitalGain { date, amount });
            assert(gout@ =~= Seq::new((k + 1) as nat, |t: int| gv[gp@[t] as int]));
            k = k + 1;
        }
        proof {
            assert(is_index_permutation(dp@, dv.len()) && stably_ordered_i64(dp@, ddates@, false)
                && dout@ == Seq::new(dv.len(), |t: int| dv[dp@[t] as int]));
            assert(is_index_permutation(sp@, sv.len()) && stably_ordered_i64(sp@, sdates@, false)
                && sout@ == Seq::new(sv.len(), |t: int| sv[sp@[t] as int]));
            assert(is_index_permutation(gp@, gv.len()) && stably_ordered_i64(gp@, gdates@, false)
                && gout@ == Seq::new(gv.len(), |t: int| gv[gp@[t] as int]));
        }
        Ok(ActionsResponse { symbol, dividends: dout, splits: sout, capital_gains: gout })
    }
}

} // verus!
