//! Quotes: the full record of a symbol, and its short form.

use vstd::prelude::*;

verus! {

/// Everything known about a symbol, with figures as Yahoo Finance formats
/// them.
#[derive(Debug, Clone)]
pub struct Quote {
    pub symbol: String,
    pub name: String,
    pub price: String,
    pub pre_market_price: Option<String>,
    pub after_hours_price: Option<String>,
    pub change: String,
    pub percent_change: String,
    pub open: Option<String>,
    pub high: Option<String>,
    pub low: Option<String>,
    pub year_high: Option<String>,
    pub year_low: Option<String>,
    pub volume: Option<i64>,
    pub avg_volume: Option<i64>,
    pub market_cap: Option<String>,
    pub beta: Option<String>,
    pub pe: Option<String>,
    pub eps: Option<String>,
    pub dividend: Option<String>,
    pub dividend_yield: Option<String>,
    pub ex_dividend: Option<String>,
    pub net_assets: Option<String>,
    pub nav: Option<String>,
    pub expense_ratio: Option<String>,
    pub category: Option<String>,
    pub last_capital_gain: Option<String>,
    pub morningstar_rating: Option<String>,
    pub morningstar_risk_rating: Option<String>,
    pub holdings_turnover: Option<String>,
    pub earnings_date: Option<String>,
    pub last_dividend: Option<String>,
    pub inception_date: Option<String>,
    pub sector: Option<String>,
    pub industry: Option<String>,
    pub about: Option<String>,
    pub employees: Option<String>,
    pub five_days_return: Option<String>,
    pub one_month_return: Option<String>,
    pub three_month_return: Option<String>,
    pub six_month_return: Option<String>,
    pub ytd_return: Option<String>,
    pub year_return: Option<String>,
    pub three_year_return: Option<String>,
    pub five_year_return: Option<String>,
    pub ten_year_return: Option<String>,
    pub max_return: Option<String>,
    pub logo: Option<String>,
}

/// The short form of a quote.
#[derive(Debug, Clone)]
pub struct SimpleQuote {
    pub symbol: String,
    pub name: String,
    pub price: String,
    pub pre_market_price: Option<String>,
    pub after_hours_price: Option<String>,
    pub change: String,
    pub percent_change: String,
    pub logo: Option<String>,
}

/// A quote as served to clients that name its fields in camel case.
#[derive(Debug, Clone)]
pub struct DetailedQuote {
    pub symbol: String,
    pub name: String,
    pub price: String,
    pub pre_market_price: Option<String>,
    pub after_hours_price: Option<String>,
    pub change: String,
    pub percent_change: String,
    pub open: Option<String>,
    pub high: Option<String>,
    pub low: Option<String>,
    pub year_high: Option<String>,
    pub year_low: Option<String>,
    pub volume: Option<i64>,
    pub avg_volume: Option<i64>,
    pub market_cap: Option<String>,
    pub beta: Option<String>,
    pub pe: Option<String>,
    pub eps: Option<String>,
    pub dividend: Option<String>,
    pub dividend_yield: Option<String>,
    pub ex_dividend: Option<String>,
    pub net_assets: Option<String>,
    pub nav: Option<String>,
    pub expense_ratio: Option<String>,
    pub category: Option<String>,
    pub last_capital_gain: Option<String>,
    pub morningstar_rating: Option<String>,
    pub morningstar_risk_rating: Option<String>,
    pub holdings_turnover: Option<String>,
    pub earnings_date: Option<String>,
    pub last_dividend: Option<String>,
    pub inception_date: Option<String>,
    pub sector: Option<String>,
    pub industry: Option<String>,
    pub about: Option<String>,
    pub employees: Option<String>,
    pub five_days_return: Option<String>,
    pub one_month_return: Option<String>,
    pub three_month_return: Option<String>,
    pub six_month_return: Option<String>,
    pub ytd_return: Option<String>,
    pub year_return: Option<String>,
    pub three_year_return: Option<String>,
    pub five_year_return: Option<String>,
    pub ten_year_return: Option<String>,
    pub max_return: Option<String>,
    pub logo: Option<String>,
}

/// The detailed quote holding the fields of a quote.
pub open spec fn spec_detailed_from_quote(q: Quote) -> DetailedQuote {
    DetailedQuote {
        symbol: q.symbol,
        name: q.name,
        price: q.price,
        pre_market_price: q.pre_market_price,
        after_hours_price: q.after_hours_price,
        change: q.change,
        percent_change: q.percent_change,
        open: q.open,
        high: q.high,
        low: q.low,
        year_high: q.year_high,
        year_low: q.year_low,
        volume: q.volume,
        avg_volume: q.avg_volume,
        market_cap: q.market_cap,
        beta: q.beta,
        pe: q.pe,
        eps: q.eps,
        dividend: q.dividend,
        dividend_yield: q.dividend_yield,
        ex_dividend: q.ex_dividend,
        net_assets: q.net_assets,
        nav: q.nav,
        expense_ratio: q.expense_ratio,
        category: q.category,
        last_capital_gain: q.last_capital_gain,
        morningstar_rating: q.morningstar_rating,
        morningstar_risk_rating: q.morningstar_risk_rating,
        holdings_turnover: q.holdings_turnover,
        earnings_date: q.earnings_date,
        last_dividend: q.last_dividend,
        inception_date: q.inception_date,
        sector: q.sector,
        industry: q.industry,
        about: q.about,
        employees: q.employees,
        five_days_return: q.five_days_return,
        one_month_return: q.one_month_return,
        three_month_return: q.three_month_return,
        six_month_return: q.six_month_return,
        ytd_return: q.ytd_return,
        year_return: q.year_return,
        three_year_return: q.three_year_return,
        five_year_return: q.five_year_return,
        ten_year_return: q.ten_year_return,
        max_return: q.max_return,
        logo: q.logo,
    }
}

impl From<Quote> for DetailedQuote {
    fn from(quote: Quote) -> (r: DetailedQuote) {
        DetailedQuote {
            symbol: quote.symbol,
            name: quote.name,
            price: quote.price,
            pre_market_price: quote.pre_market_price,
            after_hours_price: quote.after_hours_price,
            change: quote.change,
            percent_change: quote.percent_change,
            open: quote.open,
            high: quote.high,
            low: quote.low,
            year_high: quote.year_high,
            year_low: quote.year_low,
            volume: quote.volume,
            avg_volume: quote.avg_volume,
            market_cap: quote.market_cap,
            beta: quote.beta,
            pe: quote.pe,
            eps: quote.eps,
            dividend: quote.dividend,
            dividend_yield: quote.dividend_yield,
            ex_dividend: quote.ex_dividend,
            net_assets: quote.net_assets,
            nav: quote.nav,
            expense_ratio: quote.expense_ratio,
            category: quote.category,
            last_capital_gain: quote.last_capital_gain,
            morningstar_rating: quote.morningstar_rating,
            morningstar_risk_rating: quote.morningstar_risk_rating,
            holdings_turnover: quote.holdings_turnover,
            earnings_date: quote.earnings_date,
            last_dividend: quote.last_dividend,
            inception_date: quote.inception_date,
            sector: quote.sector,
            industry: quote.industry,
            about: quote.about,
            employees: quote.employees,
            five_days_return: quote.five_days_return,
            one_month_return: quote.one_month_return,
            three_month_return: quote.three_month_return,
            six_month_return: quote.six_month_return,
            ytd_return: quote.ytd_return,
            year_return: quote.year_return,
            three_year_return: quote.three_year_return,
            five_year_return: quote.five_year_return,
            ten_year_return: quote.ten_year_return,
            max_return: quote.max_return,
            logo: quote.logo,
        }
    }
}

impl vstd::std_specs::convert::FromSpecImpl<Quote> for DetailedQuote {
    open spec fn obeys_from_spec() -> bool {
        true
    }

    open spec fn from_spec(v: Quote) -> DetailedQuote {
        spec_detailed_from_quote(v)
    }
}

} // verus!
