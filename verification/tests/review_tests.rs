use finance_query::analysts::RecommendationData;
use finance_query::calendar::{CalendarData, DividendEvent, EarningsEvent, SplitEvent};
use finance_query::client::auth::{accept_crumb, CookieStrategy};
use finance_query::circuit::{CircuitBreaker, CircuitState};
use finance_query::financial::{build_fields, parse_financials, Frequency};
use finance_query::json::JsonValue;
use finance_query::logo::{LogoConfig, LogoCore};
use finance_query::sector::{etf_to_sector_name, get_all_sector_etfs};

fn earnings(date: Option<&str>) -> EarningsEvent {
    EarningsEvent {
        earnings_date: date.map(|d| d.to_string()),
        earnings_date_start: None,
        earnings_date_end: None,
        earnings_average: None,
        earnings_low: None,
        earnings_high: None,
        revenue_average: None,
        revenue_low: None,
        revenue_high: None,
    }
}

fn dividend(ex: Option<&str>) -> DividendEvent {
    DividendEvent {
        dividend_date: None,
        ex_dividend_date: ex.map(|d| d.to_string()),
        dividend_rate: None,
        dividend_yield: None,
        payout_ratio: None,
        five_year_avg_dividend_yield: None,
    }
}

fn split(date: Option<&str>) -> SplitEvent {
    SplitEvent { split_date: date.map(|d| d.to_string()), split_ratio: None, split_factor: None }
}

fn calendar(e: Option<EarningsEvent>, d: Option<DividendEvent>, s: Option<SplitEvent>) -> CalendarData {
    CalendarData { symbol: "AAPL".to_string(), earnings: e, dividend: d, split: s }
}

#[test]
fn next_event_is_the_soonest() {
    let c = calendar(Some(earnings(Some("2024-05-02"))), Some(dividend(Some("2024-02-09"))), None);
    assert_eq!(c.next_event_date(), Some("2024-02-09"));
    let c = calendar(
        Some(earnings(Some("2024-05-02"))),
        Some(dividend(Some("2024-06-09"))),
        Some(split(Some("2024-03-01"))),
    );
    assert_eq!(c.next_event_date(), Some("2024-03-01"));
    let c = calendar(Some(earnings(Some("2024-05-02"))), Some(dividend(None)), Some(split(None)));
    assert_eq!(c.next_event_date(), Some("2024-05-02"));
    let c = calendar(Some(earnings(None)), None, Some(split(Some("2020-08-31"))));
    assert_eq!(c.next_event_date(), Some("2020-08-31"));
    assert_eq!(calendar(None, Some(dividend(None)), None).next_event_date(), None);
}

#[test]
fn consensus_ignores_the_hold_count() {
    let r = RecommendationData {
        period: "0m".to_string(),
        strong_buy: 2,
        buy: 1,
        hold: i32::MAX,
        sell: 1,
        strong_sell: 0,
    };
    assert_eq!(r.consensus(), "Strong Buy");
    assert_eq!(r.bullish_count(), 3);
}

#[test]
fn long_breaker_cooldown_saturates() {
    let core = LogoCore::new(LogoConfig::from_settings(None, None, Some("18446744073709551615")));
    assert_eq!(core.breaker.timeout_ms, u64::MAX);
    let core = LogoCore::new(LogoConfig::from_settings(None, None, Some("2")));
    assert_eq!(core.breaker.timeout_ms, 2_000);
}

#[test]
fn failed_probe_reopens_breaker() {
    let mut b = CircuitBreaker::new(2, 100);
    b.record_failure(0);
    b.record_failure(1);
    assert_eq!(b.state, CircuitState::Open);
    assert!(b.allow(500));
    assert_eq!(b.state, CircuitState::HalfOpen);
    b.record_failure(501);
    assert_eq!(b.state, CircuitState::Open);
    assert!(b.failure_count >= b.failure_threshold);
}

#[test]
fn sector_etfs_are_distinct_and_others_unknown() {
    let etfs = get_all_sector_etfs();
    assert_eq!(etfs.len(), 11);
    for (i, a) in etfs.iter().enumerate() {
        assert_ne!(etf_to_sector_name(a), "Unknown");
        for b in &etfs[i + 1..] {
            assert_ne!(a, b);
        }
    }
    assert_eq!(etf_to_sector_name("SPY"), "Unknown");
    assert_eq!(etf_to_sector_name("xlk"), "Unknown");
}

#[test]
fn built_field_names_come_back() {
    let fields = vec!["TotalRevenue", "annualLooking"];
    for freq in [Frequency::Annual, Frequency::Quarterly] {
        let built = build_fields(&fields, freq);
        let point = || JsonValue::Object(vec![
            ("asOfDate".to_string(), JsonValue::Str("2023-09-30".to_string())),
            ("reportedValue".to_string(), JsonValue::Object(vec![("raw".to_string(), JsonValue::Int(1))])),
        ]);
        let items: Vec<JsonValue> = built
            .iter()
            .map(|name| {
                JsonValue::Object(vec![
                    (
                        "meta".to_string(),
                        JsonValue::Object(vec![(
                            "type".to_string(),
                            JsonValue::Array(vec![JsonValue::Str(name.clone())]),
                        )]),
                    ),
                    (name.clone(), JsonValue::Array(vec![point()])),
                ])
            })
            .collect();
        let json = JsonValue::Object(vec![(
            "timeseries".to_string(),
            JsonValue::Object(vec![("result".to_string(), JsonValue::Array(items))]),
        )]);
        let st = parse_financials(&json, "AAPL", "custom", freq);
        assert!(st.get_metric("TotalRevenue").is_some());
        assert!(st.get_metric("annualLooking").is_some());
        assert_eq!(st.metrics.len(), 2);
    }
}

#[test]
fn crumbs_lose_unicode_white_space() {
    assert_eq!(accept_crumb("\u{3000}\tab c\u{a0}\u{2029}", CookieStrategy::Basic).unwrap(), "ab c");
    assert_eq!(accept_crumb("x\u{200b}", CookieStrategy::Basic).unwrap(), "x\u{200b}");
    assert!(accept_crumb("\u{85}\u{1680}", CookieStrategy::Basic).is_err());
}
