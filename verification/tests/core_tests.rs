use finance_query::models::movers::MarketMover;
use finance_query::streaming::{index_trend_marker, mover_line, quote_line, ranked_mover_line};
use finance_query::actions::ActionsResponse;
use finance_query::calendar::{parse_dividend_event, parse_earnings_event, parse_split_event, CalendarData, EarningsEvent};
use finance_query::circuit::{CircuitBreaker, CircuitState};
use finance_query::decimal::{i64_to_string, parse_i32, parse_i64, parse_u32, parse_u64};
use finance_query::error::YahooError;
use finance_query::historical::{align_bars, date_to_timestamp, ChartColumns, HistoricalData, OhlcvBar};
use finance_query::json::{JsonValue, Number};
use finance_query::logo::{LogoConfig, LogoCore, LogoStep};
use finance_query::models::quote::SimpleQuote;
use finance_query::order::{stable_order_i64, stable_order_text_desc};
use finance_query::quotes::{domain_of, logo_url_from_summary, trim_start_matches};
use finance_query::split::split_char;
use finance_query::streaming::{result_identity, QuoteStream, QuotesUpdate, SingleQuoteStream, UpdateLimit};

fn s(x: &str) -> JsonValue {
    JsonValue::Str(x.to_string())
}

fn obj(pairs: Vec<(&str, JsonValue)>) -> JsonValue {
    JsonValue::Object(pairs.into_iter().map(|(k, v)| (k.to_string(), v)).collect())
}

fn summary(module_pairs: Vec<(&str, JsonValue)>) -> JsonValue {
    obj(vec![("quoteSummary", obj(vec![("result", JsonValue::Array(vec![obj(module_pairs)]))]))])
}

#[test]
fn breaker_opens_after_threshold_and_probes_after_cooldown() {
    let mut b = CircuitBreaker::new(2, 1_000);
    assert!(b.allow(0));
    b.record_failure(10);
    assert_eq!(b.state, CircuitState::Closed);
    b.record_failure(20);
    assert_eq!(b.state, CircuitState::Open);
    assert!(!b.allow(500));
    assert!(!b.allow(1_020));
    assert!(b.allow(1_021));
    assert_eq!(b.state, CircuitState::HalfOpen);
    b.record_success();
    assert_eq!(b.state, CircuitState::Closed);
    assert_eq!(b.failure_count, 0);
}

#[test]
fn logo_requests() {
    let config = LogoConfig::from_settings(None, Some("1"), Some("60"));
    assert!(config.enabled);
    let mut core = LogoCore::new(config);
    let step = core.begin("aapl", 0);
    let key = match step {
        LogoStep::Fetch { url, cache_key } => {
            assert_eq!(
                url,
                "https://img.logo.dev/ticker/AAPL?token=pk_NNp9abu9TMm9II6Z0666YA&format=png&fallback=404&size=50&theme=dark"
            );
            assert_eq!(cache_key, "logo:AAPL");
            cache_key
        }
        _ => panic!("expected a fetch"),
    };
    assert_eq!(core.finish(&key, Some("https://img/aapl.png".into()), 0), Some("https://img/aapl.png".into()));
    match core.begin("AAPL", 1_000) {
        LogoStep::Done(Some(u)) => assert_eq!(u, "https://img/aapl.png"),
        _ => panic!("expected the cached logo"),
    }
    match core.begin("AAPL", 86_400_000) {
        LogoStep::Fetch { .. } => {}
        _ => panic!("expected a fetch after expiry"),
    }
    assert_eq!(core.finish("logo:MSFT", None, 5), None);
    match core.begin("MSFT", 10) {
        LogoStep::Done(None) => {}
        _ => panic!("the open breaker refuses"),
    }
    assert!(matches!(core.begin("", 10), LogoStep::Done(None)));
}

#[test]
fn logo_settings() {
    assert!(!LogoConfig::from_settings(Some("TRUE"), None, None).enabled);
    assert!(LogoConfig::from_settings(Some("yes"), None, None).enabled);
    let c = LogoConfig::from_settings(None, Some("0"), Some("x"));
    assert_eq!(c.breaker_threshold, 1);
    assert_eq!(c.breaker_timeout_secs, 300);
    assert_eq!(LogoConfig::from_settings(None, None, None).breaker_threshold, 5);
    let mut off = LogoCore::new(LogoConfig::from_settings(Some("true"), None, None));
    assert!(matches!(off.begin("AAPL", 0), LogoStep::Done(None)));
}

#[test]
fn stable_orders() {
    assert_eq!(stable_order_i64(&vec![3, 1, 3, 2], false), vec![1, 3, 0, 2]);
    assert_eq!(stable_order_i64(&vec![3, 1, 3, 2], true), vec![0, 2, 3, 1]);
    let dates = vec!["2021".to_string(), "2023".to_string(), "2021".to_string(), "2022".to_string()];
    assert_eq!(stable_order_text_desc(&dates), vec![1, 3, 0, 2]);
}

#[test]
fn earnings_dates_and_display() {
    let json = summary(vec![(
        "calendarEvents",
        obj(vec![(
            "earnings",
            obj(vec![
                ("earningsDate", JsonValue::Array(vec![JsonValue::Int(1_700_000_000), JsonValue::Int(1_700_500_000)])),
                ("earningsAverage", JsonValue::Float(2.1f64.to_bits())),
            ]),
        )]),
    )]);
    let e = parse_earnings_event(&json).unwrap();
    assert_eq!(e.earnings_date.as_deref(), Some("2023-11-14"));
    assert_eq!(e.earnings_date_end.as_deref(), Some("2023-11-20"));
    assert!(e.is_date_range());
    assert_eq!(e.date_display(), "2023-11-14 - 2023-11-20");
    assert_eq!(e.earnings_average, Some(Number::Float(2.1f64.to_bits())));
    let single = EarningsEvent { earnings_date_end: e.earnings_date_start.clone(), ..e };
    assert!(!single.is_date_range());
    assert_eq!(single.date_display(), "2023-11-14");
    let none = EarningsEvent {
        earnings_date: None, earnings_date_start: None, earnings_date_end: None,
        earnings_average: None, earnings_low: None, earnings_high: None,
        revenue_average: None, revenue_low: None, revenue_high: None,
    };
    assert_eq!(none.date_display(), "TBD");
    assert!(parse_earnings_event(&summary(vec![("calendarEvents", obj(vec![]))])).is_none());
}

#[test]
fn dividends_and_splits() {
    let json = summary(vec![
        ("calendarEvents", obj(vec![("exDividendDate", JsonValue::Int(86_400))])),
        ("summaryDetail", obj(vec![("dividendRate", JsonValue::Int(1))])),
        ("defaultKeyStatistics", obj(vec![("lastSplitFactor", s("4:1"))])),
    ]);
    let d = parse_dividend_event(&json).unwrap();
    assert_eq!(d.ex_dividend_date.as_deref(), Some("1970-01-02"));
    assert!(d.has_upcoming_dividend());
    assert_eq!(d.annual_dividend(), Some(Number::Int(1)));
    let sp = parse_split_event(&json).unwrap();
    assert_eq!(sp.split_ratio.as_deref(), Some("4:1"));
    assert_eq!(sp.split_date, None);
    let bare = summary(vec![("summaryDetail", obj(vec![("payoutRatio", JsonValue::Int(0))]))]);
    assert!(parse_dividend_event(&bare).is_none());
    assert!(parse_split_event(&bare).is_none());
    let cal = CalendarData { symbol: "X".into(), earnings: None, dividend: Some(d), split: Some(sp) };
    assert!(cal.has_upcoming_events());
    assert_eq!(cal.next_event_date(), Some("1970-01-02"));
}

#[test]
fn actions_are_dated_oldest_first() {
    let a = ActionsResponse::from_events(
        "AAPL".into(),
        vec![(300, Number::Int(3)), (100, Number::Int(1)), (200, Number::Int(2))],
        vec![(50, Number::Int(4), Number::Int(1), "4:1".to_string())],
        vec![],
    )
    .unwrap();
    let dates: Vec<i64> = a.dividends.iter().map(|d| d.date).collect();
    assert_eq!(dates, vec![100, 200, 300]);
    assert_eq!(a.dividends[0].amount, Number::Int(1));
    assert_eq!(a.splits.len(), 1);
    assert_eq!(a.splits[0].split_ratio, "4:1");
    assert!(!a.is_empty());
    match ActionsResponse::from_events("X".into(), vec![], vec![(i64::MAX, Number::Int(1), Number::Int(1), "1:1".to_string())], vec![]) {
        Err(YahooError::ParseError(m)) => assert_eq!(m, "Invalid split timestamp"),
        _ => panic!("expected a parse error"),
    }
    assert!(ActionsResponse::new("Y".into()).is_empty());
}

#[test]
fn bars_line_up_columns() {
    let ts = vec![86_400, 172_800, 259_200];
    let open = vec![Some(1u32), None];
    let volume = vec![Some(10i64), Some(20), Some(30)];
    let cols = ChartColumns { open: Some(&open), high: None, low: None, close: Some(&open), volume: Some(&volume), adj_close: None };
    let bars = align_bars(&ts, &cols);
    assert_eq!(bars.len(), 3);
    assert_eq!(bars[0].open, Some(1));
    assert_eq!(bars[1].open, None);
    assert_eq!(bars[2].open, None);
    assert_eq!(bars[2].volume, Some(30));
    assert_eq!(bars[0].date_string(), "1970-01-02");
    assert_eq!(bars[0].datetime_string(), "1970-01-02 00:00:00");
    let bad: OhlcvBar<u32> = OhlcvBar { timestamp: i64::MAX, open: None, high: None, low: None, close: None, volume: None, adj_close: None };
    assert_eq!(bad.date_string(), "Invalid");
    let data = HistoricalData { symbol: "X".into(), currency: None, exchange: None, interval: "1d".into(), range: None, bars };
    assert_eq!(data.total_volume(), 60);
    assert_eq!(data.len(), 3);
    assert_eq!(data.first().unwrap().timestamp, 86_400);
    assert_eq!(data.last().unwrap().timestamp, 259_200);
    match date_to_timestamp("2024-13-01") {
        Err(YahooError::ParseError(m)) => assert!(m.starts_with("Invalid date format '2024-13-01': ")),
        _ => panic!("expected a parse error"),
    }
}

#[test]
fn logo_urls_from_websites() {
    assert_eq!(trim_start_matches("xxab", "x"), "ab");
    assert_eq!(domain_of("https://www.apple.com/investor"), "apple.com");
    assert_eq!(domain_of("http://http://www.www.example.org"), "example.org");
    assert_eq!(domain_of("apple.com"), "apple.com");
    let json = summary(vec![("assetProfile", obj(vec![("website", s("https://www.apple.com"))]))]);
    assert_eq!(logo_url_from_summary(&json).as_deref(), Some("https://logo.clearbit.com/apple.com"));
    assert_eq!(logo_url_from_summary(&summary(vec![("assetProfile", obj(vec![]))])), None);
}

#[test]
fn splitting_and_numbers() {
    assert_eq!(split_char("a,,b,", ','), vec!["a", "", "b", ""]);
    assert_eq!(split_char("", ','), vec![""]);
    assert_eq!(parse_i64("-42"), Some(-42));
    assert_eq!(parse_i64("+7"), Some(7));
    assert_eq!(parse_i64("9223372036854775808"), None);
    assert_eq!(parse_i32("2147483647"), Some(2147483647));
    assert_eq!(parse_u32("-1"), None);
    assert_eq!(parse_u64("18446744073709551615"), Some(u64::MAX));
    assert_eq!(i64_to_string(i64::MIN), "-9223372036854775808");
}

fn sq(symbol: &str) -> SimpleQuote {
    SimpleQuote {
        symbol: symbol.into(), name: "n".into(), price: "1.00".into(), pre_market_price: None,
        after_hours_price: None, change: "+0.00".into(), percent_change: "+0.00%".into(), logo: None,
    }
}

#[test]
fn quote_updates_and_streams() {
    let u = QuotesUpdate::with_timestamp(vec![sq("AAPL"), sq("MSFT"), sq("AAPL")], 5);
    assert!(u.contains_symbol("MSFT"));
    assert!(!u.contains_symbol("GOOG"));
    assert_eq!(u.len(), 3);
    assert!(std::ptr::eq(u.get_quote("AAPL").unwrap(), &u.quotes[0]));
    assert!(QuotesUpdate::multiple(vec![]).is_empty());
    assert_eq!(QuotesUpdate::single(sq("X")).len(), 1);
    let r = QuoteStream::on_fetch(Ok(vec![sq("A")]), 99).unwrap();
    assert_eq!(r.timestamp_ms, 99);
    assert!(SingleQuoteStream::on_fetch(Ok(vec![])).is_none());
    assert_eq!(SingleQuoteStream::on_fetch(Ok(vec![sq("B"), sq("C")])).unwrap().unwrap().symbol, "B");
    assert!(matches!(SingleQuoteStream::on_fetch(Err(YahooError::RateLimited)), Some(Err(YahooError::RateLimited))));
    let mut limit = UpdateLimit::new(Some(2));
    assert!(!limit.record_update());
    assert!(limit.record_update());
    let mut unlimited = UpdateLimit::new(None);
    assert!(!unlimited.record_update());
    let (symbol, name) = result_identity(&obj(vec![("symbol", s("AAPL")), ("shortName", s("Apple"))]));
    assert_eq!(symbol, "AAPL");
    assert_eq!(name, "Apple");
}

#[test]
fn stream_lines() {
    let m = MarketMover { symbol: "TSLA".into(), name: "Tesla".into(), price: "250.00".into(), change: "+5.00".into(), percent_change: "+2.04%".into() };
    assert_eq!(mover_line(&m), "    TSLA - $250.00 +5.00 (+2.04%)");
    assert_eq!(ranked_mover_line(3, &m), "  3. TSLA (Tesla) - $250.00 +5.00 (+2.04%)");
    assert_eq!(quote_line(&sq("AAPL")), "AAPL (n) - $1.00 +0.00 (+0.00%)");
    assert_eq!(index_trend_marker("+1.2"), "📈");
    assert_eq!(index_trend_marker("-0.3"), "📉");
    assert_eq!(index_trend_marker(""), "📉");
}

#[test]
fn history_from_chart_parts() {
    let ts = vec![0i64, 60];
    let close = vec![Some(5u16), Some(6)];
    let cols = ChartColumns { open: None, high: None, low: None, close: Some(&close), volume: None, adj_close: None };
    let h = HistoricalData::from_chart(None, Some("USD".into()), None, Some("1d".into()), "1m", Some(&ts), Some(&cols)).unwrap();
    assert_eq!(h.symbol, "");
    assert_eq!(h.interval, "1m");
    assert_eq!(h.bars[1].close, Some(6));
    assert!(HistoricalData::<u16>::from_chart(None, None, None, None, "1m", None, Some(&cols)).is_none());
    assert!(HistoricalData::<u16>::from_chart(None, None, None, None, "1m", Some(&ts), None).is_none());
}
