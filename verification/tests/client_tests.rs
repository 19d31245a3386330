use std::io::Write;

use finance_query::client::auth::{
    accept_crumb, collect_consent_url, consent_form, consent_tokens, copy_consent_url,
    is_valid_crumb, AuthState, CookieStrategy, RefreshAttempts,
};
use finance_query::client::body::{json_body, timeout_error};
use finance_query::client::requests::{
    authenticated_query, chart_with_periods_request, date_to_timestamp, json_parse_error,
    option_chain_request, quote_request, quote_summary_request, response_parse_error,
    search_request, should_refresh_and_retry, simple_quotes_request, Request,
};
use finance_query::client::status::{check_api_status, check_success, http_error};
use finance_query::error::YahooError;

fn params(r: &Request) -> Vec<(&str, &str)> {
    r.params.iter().map(|(a, b)| (a.as_str(), b.as_str())).collect()
}

#[test]
fn http_error_messages() {
    match http_error(404) {
        YahooError::HttpError(code, msg) => {
            assert_eq!(code, 404);
            assert_eq!(msg, "HTTP 404 Not Found: Not Found");
        }
        _ => panic!("expected an HTTP error"),
    }
    match http_error(599) {
        YahooError::HttpError(code, msg) => {
            assert_eq!(code, 599);
            assert_eq!(msg, "HTTP 599 <unknown status code>: Unknown");
        }
        _ => panic!("expected an HTTP error"),
    }
}

#[test]
fn status_checks() {
    assert!(check_success(200).is_ok());
    assert!(check_success(204).is_ok());
    assert!(matches!(check_success(301), Err(YahooError::HttpError(301, _))));
    assert!(matches!(check_api_status(401), Err(YahooError::AuthFailed(m)) if m == "Yahoo auth failed"));
    assert!(matches!(check_api_status(404), Err(YahooError::NotFound(m)) if m == "Yahoo symbol not found"));
    assert!(matches!(check_api_status(429), Err(YahooError::RateLimited)));
    match check_api_status(503) {
        Err(YahooError::HttpError(503, m)) => assert_eq!(m, "HTTP 503 Service Unavailable: Service Unavailable"),
        _ => panic!("expected an HTTP error"),
    }
    assert!(check_api_status(200).is_ok());
}

fn gzip(text: &str) -> Vec<u8> {
    let mut enc = flate2::write::GzEncoder::new(Vec::new(), flate2::Compression::default());
    enc.write_all(text.as_bytes()).unwrap();
    enc.finish().unwrap()
}

#[test]
fn json_bodies() {
    assert_eq!(json_body("", b"{\"a\":1}").unwrap(), "{\"a\":1}");
    assert_eq!(json_body("GZIP", &gzip("{\"b\":2}")).unwrap(), "{\"b\":2}");
    assert_eq!(json_body("", &gzip("{\"c\":3}")).unwrap(), "{\"c\":3}");
    match json_body("br", b"xx") {
        Err(YahooError::ParseError(m)) => assert_eq!(
            m,
            "Brotli compression detected but not automatically decompressed. This should not happen."
        ),
        _ => panic!("expected a parse error"),
    }
    match json_body("identity", &[0xff, 0xfe]) {
        Err(YahooError::ParseError(m)) => assert_eq!(
            m,
            "Response is not valid UTF-8 and not gzip compressed (length: 2 bytes)"
        ),
        _ => panic!("expected a parse error"),
    }
    match json_body("deflate", b"plain") {
        Err(YahooError::ParseError(m)) => assert!(m.starts_with("Failed to decompress gzip response: ")),
        _ => panic!("expected a parse error"),
    }
}

#[test]
fn timeout_messages() {
    match timeout_error("https://x", 10_000) {
        YahooError::ParseError(m) => assert_eq!(m, "Request to https://x timed out after 10s"),
        _ => panic!("expected a parse error"),
    }
    match timeout_error("u", 1_500) {
        YahooError::ParseError(m) => assert_eq!(m, "Request to u timed out after 1.5s"),
        _ => panic!("expected a parse error"),
    }
}

#[test]
fn crumb_validation() {
    assert!(is_valid_crumb("abc.DEF/123"));
    assert!(!is_valid_crumb(""));
    assert!(!is_valid_crumb("<html><body>"));
    assert!(!is_valid_crumb("Unauthorized"));
    assert!(!is_valid_crumb("Too Many Requests"));
    assert_eq!(accept_crumb("  abc\n", CookieStrategy::Basic).unwrap(), "abc");
    match accept_crumb(" \n", CookieStrategy::Basic) {
        Err(YahooError::AuthFailed(m)) => assert_eq!(m, "Invalid crumb from query1 endpoint"),
        _ => panic!("expected an auth error"),
    }
    match accept_crumb("<html>", CookieStrategy::Csrf) {
        Err(YahooError::AuthFailed(m)) => assert_eq!(m, "Invalid crumb from query2 endpoint"),
        _ => panic!("expected an auth error"),
    }
}

#[test]
fn consent_page_tokens() {
    let html = r#"<form><input type="hidden" name="csrfToken" value="tok123"><input name="sessionId" id="s" value="sess-9"></form>"#;
    let (csrf, session) = consent_tokens(html).unwrap();
    assert_eq!(csrf, "tok123");
    assert_eq!(session, "sess-9");
    match consent_tokens("<form name=\"csrfToken\" value=\"x\"></form>") {
        Err(YahooError::AuthFailed(m)) => {
            assert_eq!(m, "Failed to extract CSRF token or session id from consent page")
        }
        _ => panic!("expected an auth error"),
    }
    let form = consent_form("sess-9", "tok123");
    let pairs: Vec<(&str, &str)> = form.iter().map(|(a, b)| (a.as_str(), b.as_str())).collect();
    assert_eq!(
        pairs,
        vec![
            ("agree", "agree"),
            ("consentUUID", "default"),
            ("sessionId", "sess-9"),
            ("csrfToken", "tok123"),
            ("originalDoneUrl", "https://finance.yahoo.com/"),
            ("namespace", "yahoo"),
        ]
    );
    assert_eq!(collect_consent_url("s1"), "https://consent.yahoo.com/v2/collectConsent?sessionId=s1");
    assert_eq!(copy_consent_url("s1"), "https://guce.yahoo.com/copyConsent?sessionId=s1");
}

#[test]
fn crumb_lifetime() {
    let mut state = AuthState::new();
    assert!(state.needs_refresh(0));
    assert_eq!(state.strategy, CookieStrategy::Basic);
    state.record_refresh("crumb".to_string(), 1_000_000, CookieStrategy::Csrf);
    assert!(!state.needs_refresh(1_000_000));
    assert!(!state.needs_refresh(1_030_999));
    assert!(state.needs_refresh(1_031_000));
    assert!(!state.needs_refresh(900_000));
    assert_eq!(state.current_crumb().unwrap(), "crumb");
    state.switch_strategy();
    assert_eq!(state.strategy, CookieStrategy::Basic);
    assert!(state.needs_refresh(1_000_001));
    match state.current_crumb() {
        Err(YahooError::AuthFailed(m)) => assert_eq!(m, "No crumb available"),
        _ => panic!("expected an auth error"),
    }
}

#[test]
fn refresh_tries_each_strategy_once() {
    let mut attempts = RefreshAttempts::start(CookieStrategy::Csrf);
    assert_eq!(attempts.next_strategy(), Some(CookieStrategy::Csrf));
    attempts.record_failure(YahooError::AuthFailed("first".to_string()));
    assert_eq!(attempts.next_strategy(), Some(CookieStrategy::Basic));
    attempts.record_failure(YahooError::RateLimited);
    assert_eq!(attempts.next_strategy(), None);
    assert!(matches!(attempts.into_error(), YahooError::RateLimited));
    match RefreshAttempts::start(CookieStrategy::Basic).into_error() {
        YahooError::AuthFailed(m) => assert_eq!(m, "Failed to obtain Yahoo crumb with all strategies"),
        _ => panic!("expected an auth error"),
    }
}

#[test]
fn request_builders() {
    let q = quote_request("AAPL");
    assert_eq!(q.url, "https://query2.finance.yahoo.com/v10/finance/quoteSummary/AAPL");
    assert_eq!(
        params(&q),
        vec![("modules", "assetProfile,price,summaryDetail,defaultKeyStatistics,calendarEvents,quoteUnadjustedPerformanceOverview")]
    );
    let symbols = vec!["AAPL".to_string(), "MSFT".to_string(), "GOOGL".to_string()];
    let sq = simple_quotes_request(&symbols);
    assert_eq!(sq.url, "https://query1.finance.yahoo.com/v7/finance/quote");
    assert_eq!(params(&sq), vec![("symbols", "AAPL,MSFT,GOOGL")]);
    let c = chart_with_periods_request("MSFT", "1d", -5, 1_700_000_000);
    assert_eq!(params(&c), vec![("interval", "1d"), ("period1", "-5"), ("period2", "1700000000")]);
    let search = search_request("apple", 10);
    assert_eq!(params(&search), vec![("q", "apple"), ("quotesCount", "10")]);
    let modules = vec!["price".to_string(), "summaryDetail".to_string()];
    let qs = quote_summary_request("T", &modules);
    assert_eq!(
        params(&qs),
        vec![("modules", "price,summaryDetail"), ("corsDomain", "finance.yahoo.com"), ("formatted", "false")]
    );
    let query = authenticated_query("cr", &qs.params);
    assert_eq!(query[0], ("crumb".to_string(), "cr".to_string()));
    assert_eq!(query.len(), 4);
}

#[test]
fn option_chain_dates() {
    let r = option_chain_request("AAPL", Some("2024-01-19")).unwrap();
    assert_eq!(r.url, "https://query2.finance.yahoo.com/v7/finance/options/AAPL");
    assert_eq!(params(&r), vec![("date", "1705622400")]);
    let nearest = option_chain_request("AAPL", None).unwrap();
    assert!(nearest.params.is_empty());
    assert_eq!(date_to_timestamp("1970-01-02").unwrap(), 86_400);
    match option_chain_request("AAPL", Some("19/01/2024")) {
        Err(YahooError::ParseError(m)) => assert!(m.starts_with("Invalid date format: ")),
        _ => panic!("expected a parse error"),
    }
}

#[test]
fn retry_and_parse_errors() {
    assert!(should_refresh_and_retry(&YahooError::AuthFailed("x".to_string())));
    assert!(!should_refresh_and_retry(&YahooError::RateLimited));
    match json_parse_error("https://u", "EOF") {
        YahooError::ParseError(m) => assert_eq!(m, "Failed to parse JSON response from https://u: EOF"),
        _ => panic!("expected a parse error"),
    }
    match response_parse_error("options", "bad") {
        YahooError::ParseError(m) => assert_eq!(m, "Failed to parse options response: bad"),
        _ => panic!("expected a parse error"),
    }
}
