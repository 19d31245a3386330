use finance_query::models::calendar::{Calendar, CalendarEvents};
use finance_query::models::industry::{Industry, IndustryData, RawIndustryCompany};
use finance_query::models::options::{expiration_label, OptionChain, OptionContract, OptionsData, OptionsResult};
use finance_query::models::sec_filings::{parse_sec_date, RawFiling, SecDate, SecFilingsResponse};
use finance_query::error::YahooError;
use finance_query::models::analysts::AnalysisType;
use finance_query::models::financials::{Frequency, StatementType};
use finance_query::models::historical::{IndicatorType, Interval, TimeRange};
use finance_query::models::market::{MarketStatus, MarketTime, TimezoneInfo};
use finance_query::models::movers::MoverCount;
use finance_query::models::options::OptionExpirations;
use finance_query::models::quote::{DetailedQuote, Quote};
use finance_query::models::sec_filings::SecExhibit;

#[test]
fn enum_names() {
    assert_eq!(AnalysisType::UpgradesDowngrades.as_str(), "upgrades_downgrades");
    assert_eq!(StatementType::CashFlow.as_str(), "cashflow");
    assert_eq!(Frequency::Quarterly.as_str(), "quarterly");
    assert_eq!(TimeRange::Ytd.as_str(), "ytd");
    assert_eq!(TimeRange::TenYears.as_str(), "10y");
    assert_eq!(Interval::SixtyFiveMinutes.as_str(), "65m");
    assert_eq!(Interval::Weekly.as_str(), "1wk");
}

#[test]
fn mover_counts_round_trip() {
    for c in [MoverCount::TwentyFive, MoverCount::Fifty, MoverCount::Hundred] {
        assert_eq!(MoverCount::from_str(c.as_str()), Some(c));
    }
    assert_eq!(MoverCount::from_str("75"), None);
    assert_eq!(MoverCount::from_str(" 25"), None);
    assert_eq!(MoverCount::default(), MoverCount::Fifty);
}

#[test]
fn indicator_names() {
    assert_eq!(IndicatorType::parse("SMA"), Some(IndicatorType::SMA));
    assert_eq!(IndicatorType::parse("ema"), Some(IndicatorType::EMA));
    assert_eq!(IndicatorType::parse(" sma"), None);
    assert_eq!(IndicatorType::parse("rsi"), None);
    let list = IndicatorType::parse_list(" sma, EMA ,rsi,,Sma");
    assert_eq!(list, vec![IndicatorType::SMA, IndicatorType::EMA]);
    assert!(IndicatorType::parse_list("").is_empty());
}

fn quote() -> Quote {
    Quote {
        symbol: "AAPL".into(), name: "Apple".into(), price: "190.00".into(),
        pre_market_price: None, after_hours_price: Some("191.00".into()),
        change: "+1.00".into(), percent_change: "+0.53%".into(),
        open: None, high: None, low: None, year_high: None, year_low: None,
        volume: Some(1000), avg_volume: None, market_cap: Some("3T".into()),
        beta: None, pe: None, eps: None, dividend: None, dividend_yield: None,
        ex_dividend: None, net_assets: None, nav: None, expense_ratio: None,
        category: None, last_capital_gain: None, morningstar_rating: None,
        morningstar_risk_rating: None, holdings_turnover: None, earnings_date: None,
        last_dividend: None, inception_date: None, sector: Some("Technology".into()),
        industry: None, about: None, employees: None, five_days_return: None,
        one_month_return: None, three_month_return: None, six_month_return: None,
        ytd_return: None, year_return: None, three_year_return: None,
        five_year_return: None, ten_year_return: None, max_return: None,
        logo: Some("logo".into()),
    }
}

#[test]
fn detailed_quote_keeps_fields() {
    let d = DetailedQuote::from(quote());
    assert_eq!(d.symbol, "AAPL");
    assert_eq!(d.after_hours_price.as_deref(), Some("191.00"));
    assert_eq!(d.volume, Some(1000));
    assert_eq!(d.sector.as_deref(), Some("Technology"));
    assert_eq!(d.logo.as_deref(), Some("logo"));
    assert_eq!(d.pe, None);
}

#[test]
fn option_expirations() {
    let e = OptionExpirations::from_expiration_dates(
        "AAPL".into(),
        Some(&vec![1_705_622_400, 1_706_227_200]),
    )
    .unwrap();
    assert_eq!(e.expirations, vec!["2024-01-19".to_string(), "2024-01-26".to_string()]);
    match OptionExpirations::from_expiration_dates("AAPL".into(), None) {
        Err(YahooError::ParseError(m)) => assert_eq!(m, "No option chain data"),
        _ => panic!("expected a parse error"),
    }
    match OptionExpirations::from_expiration_dates("AAPL".into(), Some(&vec![0, i64::MAX])) {
        Err(YahooError::ParseError(m)) => assert_eq!(m, "Invalid expiration timestamp"),
        _ => panic!("expected a parse error"),
    }
}

#[test]
fn market_status_from_times() {
    let times = vec![vec![MarketTime {
        status: Some("Open".into()),
        open: Some("2024-01-19T14:30:00Z".into()),
        close: Some("not a time".into()),
        timezone: vec![TimezoneInfo {
            gmtoffset: Some(-18000000),
            short: Some("EST".into()),
            long: Some("America/New_York".into()),
        }],
    }]];
    let s = MarketStatus::from_market_times("us_market".into(), &times).unwrap();
    assert_eq!(s.status, "Open");
    assert!(s.is_open());
    assert!(!s.is_pre_market());
    assert_eq!(s.open_time, Some(1_705_674_600));
    assert_eq!(s.close_time, None);
    assert_eq!(s.timezone_short.as_deref(), Some("EST"));
    assert_eq!(s.gmt_offset, Some(-18000000));
    let none: Vec<Vec<MarketTime>> = vec![vec![]];
    match MarketStatus::from_market_times("x".into(), &none) {
        Err(YahooError::ParseError(m)) => assert_eq!(m, "No market time data"),
        _ => panic!("expected a parse error"),
    }
    let bare = vec![vec![MarketTime { status: None, open: None, close: None, timezone: vec![] }]];
    let b = MarketStatus::from_market_times("x".into(), &bare).unwrap();
    assert_eq!(b.status, "unknown");
    assert_eq!(b.timezone, None);
    let post = MarketStatus { status: "POST".into(), ..b };
    assert!(post.is_after_hours());
}

#[test]
fn gmt_offsets_from_text() {
    assert_eq!(finance_query::models::market::gmt_offset_from_text("-18000"), Some(-18000));
    assert_eq!(finance_query::models::market::gmt_offset_from_text("abc"), None);
}

#[test]
fn exhibits_default_to_empty() {
    let e = SecExhibit::from_parts(None, Some("https://sec".into()));
    assert_eq!(e.exhibit_type, "");
    assert_eq!(e.url, "https://sec");
}

#[test]
fn calendars_filings_chains_and_industries() {

    let events = CalendarEvents { earnings_dates: Some(vec![i64::MAX, 100, 200, 300]), dividend_date: Some(i64::MIN), ex_dividend_date: Some(50) };
    let c = Calendar::from_calendar_events("AAPL".into(), Some(&events)).unwrap();
    assert_eq!(c.earnings_date, Some(100));
    assert_eq!(c.earnings_date_end, Some(200));
    assert_eq!(c.dividend_date, None);
    assert_eq!(c.ex_dividend_date, Some(50));
    assert!(Calendar::from_calendar_events("AAPL".into(), None).is_err());

    assert_eq!(parse_sec_date(&SecDate::Text("2024-01-02".into())), Some(1_704_153_600));
    assert_eq!(parse_sec_date(&SecDate::Text("Jan 2".into())), None);
    assert_eq!(parse_sec_date(&SecDate::Object(None)), None);
    let filings = vec![
        RawFiling { date: SecDate::Timestamp(1_700_000_000), filing_type: Some("10-K".into()), title: None, edgar_url: None, exhibits: Some(vec![(Some("EX-21".into()), None)]) },
        RawFiling { date: SecDate::Object(Some(i64::MAX)), filing_type: None, title: None, edgar_url: None, exhibits: None },
    ];
    let r = SecFilingsResponse::from_filings("AAPL".into(), Some(&filings)).unwrap();
    assert_eq!(r.filings.len(), 1);
    assert_eq!(r.filings[0].filing_type, "10-K");
    assert_eq!(r.filings[0].title, "");
    assert_eq!(r.filings[0].exhibits[0].exhibit_type, "EX-21");
    assert_eq!(r.filings[0].exhibits[0].url, "");

    let contract = |ts: i64| OptionContract {
        contract_symbol: "AAPL240119C00100000".into(), last_trade_date: ts, strike: 100u32, last_price: 90,
        bid: 89, ask: 91, change: 1, percent_change: 1, volume: Some(5), open_interest: None,
        implied_volatility: 30, in_the_money: true, contract_size: "REGULAR".into(), currency: "USD".into(),
    };
    let result = OptionsResult { options: vec![OptionsData { calls: vec![contract(1)], puts: vec![] }], underlying_price: Some(190) };
    let chain = OptionChain::from_result("AAPL".into(), expiration_label(None), Some(&result)).unwrap();
    assert_eq!(chain.expiration_date, "nearest");
    assert_eq!(chain.calls.len(), 1);
    assert_eq!(chain.underlying_price, Some(190));
    let bad = OptionsResult { options: vec![OptionsData { calls: vec![], puts: vec![contract(i64::MAX)] }], underlying_price: None };
    match OptionChain::from_result("AAPL".into(), "2024-01-19".into(), Some(&bad)) {
        Err(YahooError::ParseError(m)) => assert_eq!(m, "Invalid last trade date"),
        _ => panic!("expected a parse error"),
    }
    let empty: OptionsResult<u32> = OptionsResult { options: vec![], underlying_price: None };
    match OptionChain::from_result("AAPL".into(), "x".into(), Some(&empty)) {
        Err(YahooError::ParseError(m)) => assert_eq!(m, "No options data for expiration"),
        _ => panic!("expected a parse error"),
    }

    let raw = RawIndustryCompany { symbol: Some("NVDA".into()), name: None, ytd_return: Some(1u8), last_price: Some(2), target_price: Some(3), growth_estimate: Some(4) };
    let data = IndustryData {
        key: Some("semiconductors".into()), name: None, sector_key: None, sector_name: Some("Technology".into()),
        description: None, top_performing_companies: Some(vec![raw.clone()]), top_growth_companies: Some(vec![raw]),
    };
    let ind = Industry::from_data(data);
    assert_eq!(ind.key, "semiconductors");
    assert_eq!(ind.name, "");
    assert_eq!(ind.top_performing_companies[0].last_price, Some(2));
    assert_eq!(ind.top_performing_companies[0].growth_estimate, None);
    assert_eq!(ind.top_growth_companies[0].target_price, None);
    assert_eq!(ind.top_growth_companies[0].growth_estimate, Some(4));
    assert_eq!(ind.top_growth_companies[0].name, "");
}
