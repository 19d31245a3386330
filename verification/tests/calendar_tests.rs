use finance_query::calendar::{DividendEvent, EarningsEvent};
use finance_query::json::Number;

fn f(x: f64) -> Option<Number> {
    Some(Number::Float(x.to_bits()))
}

#[test]
fn test_earnings_date_display() {
    let earnings = EarningsEvent {
        earnings_date: Some("2024-01-25".to_string()),
        earnings_date_start: Some("2024-01-25".to_string()),
        earnings_date_end: Some("2024-01-25".to_string()),
        earnings_average: f(2.10),
        earnings_low: f(1.95),
        earnings_high: f(2.25),
        revenue_average: None,
        revenue_low: None,
        revenue_high: None,
    };

    assert!(!earnings.is_date_range());
    assert_eq!(earnings.date_display(), "2024-01-25");
}

#[test]
fn test_earnings_date_range() {
    let earnings = EarningsEvent {
        earnings_date: None,
        earnings_date_start: Some("2024-01-25".to_string()),
        earnings_date_end: Some("2024-01-29".to_string()),
        earnings_average: None,
        earnings_low: None,
        earnings_high: None,
        revenue_average: None,
        revenue_low: None,
        revenue_high: None,
    };

    assert!(earnings.is_date_range());
    assert_eq!(earnings.date_display(), "2024-01-25 - 2024-01-29");
}

#[test]
fn test_dividend_event() {
    let dividend = DividendEvent {
        dividend_date: Some("2024-02-15".to_string()),
        ex_dividend_date: Some("2024-02-09".to_string()),
        dividend_rate: f(0.96),
        dividend_yield: f(0.0052),
        payout_ratio: f(0.15),
        five_year_avg_dividend_yield: f(0.65),
    };

    assert!(dividend.has_upcoming_dividend());
    assert_eq!(dividend.annual_dividend(), f(0.96));
}
