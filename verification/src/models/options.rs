//! The expiration dates of the options on a symbol.

use vstd::prelude::*;
use crate::client::requests::strings_view;
use crate::dates::{spec_utc_date, utc_date};
use crate::error::YahooError;

verus! {

/// List of available expiration dates (`YYYY-MM-DD`).
#[derive(Debug, Clone)]
pub struct OptionExpirations {
    pub symbol: String,
    pub expirations: Vec<String>,
}

/// Every timestamp has a UTC date.
pub open spec fn all_dated(ts: Seq<i64>) -> bool {
    forall|i: int| 0 <= i < ts.len() ==> (#[trigger] spec_utc_date(ts[i])) is Some
}

/// The dates of timestamps that all have one.
pub open spec fn spec_dates(ts: Seq<i64>) -> Seq<Seq<char>> {
    Seq::new(ts.len(), |i: int| spec_utc_date(ts[i])->0)
}

impl OptionExpirations {
    /// The expirations listed by the first result of an options answer
    /// (`dates`, absent when there is no result): each Unix time becomes
    /// its UTC date, and one without a date spoils the answer.
    pub fn from_expiration_dates(symbol: String, dates: Option<&Vec<i64>>) -> (r: Result<
        OptionExpirations,
        YahooError,
    >)
        ensures
            match dates {
                None => r matches Err(YahooError::ParseError(m)) && m@ == "No option chain data"@,
                Some(ts) => if all_dated(ts@) {
                    r matches Ok(e) && e.symbol@ == symbol@ && strings_view(e.expirations@)
                        == spec_dates(ts@)
                } else {
                    r matches Err(YahooError::ParseError(m)) && m@
                        == "Invalid expiration timestamp"@
                },
            },
    {
        let ts = match dates {
            Some(ts) => ts,
            None => {
                return Err(YahooError::ParseError("No option chain data".to_owned()));
            },
        };
        let mut out: Vec<String> = Vec::new();
        let mut i: usize = 0;
        while i < ts.len()
            invariant
                dates == Some(ts),
                i <= ts@.len(),
                all_dated(ts@.take(i as int)),
                strings_view(out@) == spec_dates(ts@.take(i as int)),
            decreases ts@.len() - i,
        {
            match utc_date(ts[i]) {
                Some(d) => {
                    let ghost before = out@;
                    assert(spec_utc_date(ts@[i as int]) == Some(d@));
                    out.push(d);
                    assert(strings_view(out@) =~= strings_view(before).push(d@));
                    assert(strings_view(out@) =~= spec_dates(ts@.take(i + 1)));
                    assert forall|k: int| 0 <= k < i + 1 implies (#[trigger] spec_utc_date(
                        ts@.take(i + 1)[k],
                    )) is Some by {
                        if k < i {
                            assert(ts@.take(i + 1)[k] == ts@.take(i as int)[k]);
                        }
                    }
                },
                None => {
                    proof {
                        assert(spec_utc_date(ts@[i as int]) is None);
                        assert(!all_dated(ts@));
                    }
                    return Err(YahooError::ParseError("Invalid expiration timestamp".to_owned()));
                },
            }
            i = i + 1;
        }
        assert(ts@.take(ts@.len() as int) =~= ts@);
        Ok(OptionExpirations { symbol, expirations: out })
    }
}

/// A single option contract; prices are of any copyable type `P`, and the
/// last trade is a Unix time in seconds.
#[derive(Debug, Clone)]
pub struct OptionContract<P> {
    pub contract_symbol: String,
    pub last_trade_date: i64,
    pub strike: P,
    pub last_price: P,
    pub bid: P,
    pub ask: P,
    pub change: P,
    pub percent_change: P,
    pub volume: Option<u64>,
    pub open_interest: Option<u64>,
    pub implied_volatility: P,
    pub in_the_money: bool,
    pub contract_size: String,
    pub currency: String,
}

/// The calls and puts of one expiration.
#[derive(Debug, Clone)]
pub struct OptionsData<P> {
    pub calls: Vec<OptionContract<P>>,
    pub puts: Vec<OptionContract<P>>,
}

/// The first result of an options answer: the option lists and the price
/// of the underlying, if given.
#[derive(Debug, Clone)]
pub struct OptionsResult<P> {
    pub options: Vec<OptionsData<P>>,
    pub underlying_price: Option<P>,
}

/// Complete option chain for a symbol.
#[derive(Debug, Clone)]
pub struct OptionChain<P> {
    pub symbol: String,
    pub expiration_date: String,
    pub calls: Vec<OptionContract<P>>,
    pub puts: Vec<OptionContract<P>>,
    pub underlying_price: Option<P>,
}

/// Every contract's last trade is a representable time.
pub open spec fn all_traded<P>(v: Seq<OptionContract<P>>) -> bool {
    forall|i: int| 0 <= i < v.len() ==> (#[trigger] spec_utc_date(v[i].last_trade_date)) is Some
}

fn copy_contract<P: Copy>(c: &OptionContract<P>) -> (r: OptionContract<P>)
    ensures
        r == *c,
{
    OptionContract {
        contract_symbol: c.contract_symbol.clone(),
        last_trade_date: c.last_trade_date,
        strike: c.strike,
        last_price: c.last_price,
        bid: c.bid,
        ask: c.ask,
        change: c.change,
        percent_change: c.percent_change,
        volume: c.volume,
        open_interest: c.open_interest,
        implied_volatility: c.implied_volatility,
        in_the_money: c.in_the_money,
        contract_size: c.contract_size.clone(),
        currency: c.currency.clone(),
    }
}

/// The contracts, when every last trade is a representable time.
fn checked_contracts<P: Copy>(v: &Vec<OptionContract<P>>) -> (r: Result<Vec<OptionContract<P>>, YahooError>)
    ensures
        all_traded(v@) ==> (r matches Ok(w) && w@ == v@),
        !all_traded(v@) ==> (r matches Err(YahooError::ParseError(m)) && m@
            == "Invalid last trade date"@),
{
    let mut out: Vec<OptionContract<P>> = Vec::new();
    let mut i: usize = 0;
    while i < v.len()
        invariant
            i <= v@.len(),
            out@ == v@.take(i as int),
            forall|j: int| 0 <= j < i ==> (#[trigger] spec_utc_date(v@[j].last_trade_date)) is Some,
        decreases v@.len() - i,
    {
        if utc_date(v[i].last_trade_date).is_none() {
            return Err(YahooError::ParseError("Invalid last trade date".to_owned()));
        }
        out.push(copy_contract(&v[i]));
        assert(out@ =~= v@.take(i + 1));
        i = i + 1;
    }
    assert(v@.take(v@.len() as int) =~= v@);
    Ok(out)
}

impl<P: Copy> OptionChain<P> {
    /// The chain of one expiration from an options answer's first result
    /// (absent when it has none): its first option lists, every contract
    /// with a representable last trade (calls checked before puts).
    pub fn from_result(symbol: String, expiration_date: String, result: Option<&OptionsResult<P>>) -> (r:
        Result<OptionChain<P>, YahooError>)
        ensures
            match result {
                None => r matches Err(YahooError::ParseError(m)) && m@
                    == "No option chain data in response"@,
                Some(res) => if res.options@.len() == 0 {
                    r matches Err(YahooError::ParseError(m)) && m@
                        == "No options data for expiration"@
                } else if !all_traded(res.options@[0].calls@) || !all_traded(
                    res.options@[0].puts@,
                ) {
                    r matches Err(YahooError::ParseError(m)) && m@ == "Invalid last trade date"@
                } else {
                    r matches Ok(c) && c.symbol == symbol && c.expiration_date == expiration_date
                        && c.calls@ == res.options@[0].calls@ && c.puts@ == res.options@[0].puts@
                        && c.underlying_price == res.underlying_price
                },
            },
    {
        let res = match result {
            Some(res) => res,
            None => {
                return Err(YahooError::ParseError("No option chain data in response".to_owned()));
            },
        };
        if res.options.len() == 0 {
            return Err(YahooError::ParseError("No options data for expiration".to_owned()));
        }
        let data = &res.options[0];
        let calls = checked_contracts(&data.calls)?;
        let puts = checked_contracts(&data.puts)?;
        Ok(
            OptionChain {
                symbol,
                expiration_date,
                calls,
                puts,
                underlying_price: res.underlying_price,
            },
        )
    }
}

/// The expiration the chain is for: the date asked for, else `nearest`.
pub fn expiration_label(date: Option<&str>) -> (r: String)
    ensures
        r@ == match date {
            Some(d) => d@,
            None => "nearest"@,
        },
{
    match date {
        Some(d) => d.to_owned(),
        None => "nearest".to_owned(),
    }
}

} // verus!
