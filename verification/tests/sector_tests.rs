use finance_query::json::JsonValue;
use finance_query::sector::{
    etf_to_sector_name, first_sector_quote, get_all_sector_etfs, get_all_sectors,
    get_screener_id_for_sector, parse_companies_from_screener, sector_entries, sector_to_etf,
    Sector,
};
use finance_query::error::YahooError;

fn s(x: &str) -> JsonValue {
    JsonValue::Str(x.to_string())
}

fn obj(pairs: Vec<(&str, JsonValue)>) -> JsonValue {
    JsonValue::Object(pairs.into_iter().map(|(k, v)| (k.to_string(), v)).collect())
}

#[test]
fn test_get_all_sectors() {
    let sectors = get_all_sectors();
    assert_eq!(sectors.len(), 11);
}

#[test]
fn test_sector_to_etf() {
    assert_eq!(sector_to_etf(Sector::Technology), "XLK");
    assert_eq!(sector_to_etf(Sector::Healthcare), "XLV");
    assert_eq!(sector_to_etf(Sector::Energy), "XLE");
}

#[test]
fn test_etf_to_sector_name() {
    assert_eq!(etf_to_sector_name("XLK"), "Technology");
    assert_eq!(etf_to_sector_name("XLV"), "Healthcare");
    assert_eq!(etf_to_sector_name("INVALID"), "Unknown");
}

#[test]
fn every_sector_etf_names_its_sector() {
    for sector in get_all_sectors() {
        assert_eq!(etf_to_sector_name(sector_to_etf(sector)), sector.as_str());
    }
    assert_eq!(etf_to_sector_name("XLC"), "Communication Services");
    assert_eq!(etf_to_sector_name("xlk"), "Unknown");
}

#[test]
fn sector_etfs_follow_sector_order() {
    let etfs = get_all_sector_etfs();
    let sectors = get_all_sectors();
    assert_eq!(etfs.len(), 11);
    for (i, sector) in sectors.iter().enumerate() {
        assert_eq!(etfs[i], sector_to_etf(*sector));
    }
    assert_eq!(etfs[7], "XLRE");
}

#[test]
fn screener_id_is_most_actives() {
    assert_eq!(get_screener_id_for_sector(Sector::Utilities), "most_actives");
}

fn quote_answer(results: Vec<JsonValue>) -> JsonValue {
    obj(vec![("quoteResponse", obj(vec![("result", JsonValue::Array(results))]))])
}

#[test]
fn sector_entries_skip_other_symbols() {
    let data = quote_answer(vec![
        obj(vec![("symbol", s("XLK"))]),
        obj(vec![("symbol", s("AAPL"))]),
        obj(vec![("name", s("no symbol"))]),
        obj(vec![("symbol", s("XLE"))]),
    ]);
    let entries = sector_entries(&data).unwrap();
    assert_eq!(entries, vec![(0, "Technology"), (3, "Energy")]);
}

#[test]
fn sector_entries_need_results() {
    let data = obj(vec![("quoteResponse", obj(vec![]))]);
    match sector_entries(&data) {
        Err(YahooError::ParseError(m)) => assert_eq!(m, "No quote results found"),
        _ => panic!("expected a parse error"),
    }
}

#[test]
fn first_sector_quote_errors() {
    let empty = quote_answer(vec![]);
    match first_sector_quote(&empty) {
        Err(YahooError::ParseError(m)) => assert_eq!(m, "No sector data found"),
        _ => panic!("expected a parse error"),
    }
    let one = quote_answer(vec![obj(vec![("symbol", s("XLK"))])]);
    assert!(first_sector_quote(&one).is_ok());
}

#[test]
fn screener_companies_skip_foreign_and_empty_symbols() {
    let data = obj(vec![(
        "finance",
        obj(vec![(
            "result",
            JsonValue::Array(vec![obj(vec![(
                "quotes",
                JsonValue::Array(vec![
                    obj(vec![
                        ("symbol", s("MSFT")),
                        ("shortName", s("Microsoft")),
                        ("marketCap", JsonValue::Int(3_000_000_000_000)),
                        ("regularMarketPrice", JsonValue::Float(410.5f64.to_bits())),
                    ]),
                    obj(vec![("symbol", s("SHOP.TO")), ("longName", s("Shopify"))]),
                    obj(vec![("symbol", s("")), ("longName", s("Nothing"))]),
                    obj(vec![("symbol", s("NVDA")), ("longName", JsonValue::Null), ("shortName", s("Nvidia"))]),
                ]),
            )])]),
        )]),
    )]);
    let companies = parse_companies_from_screener(&data).unwrap();
    assert_eq!(companies.len(), 2);
    assert_eq!(companies[0].symbol, "MSFT");
    assert_eq!(companies[0].name, "Microsoft");
    assert_eq!(companies[0].market_cap, Some(3_000_000_000_000));
    assert_eq!(
        companies[0].price,
        Some(finance_query::json::Number::Float(410.5f64.to_bits()))
    );
    assert_eq!(companies[1].symbol, "NVDA");
    assert_eq!(companies[1].name, "");
}

#[test]
fn screener_without_quotes_is_an_error() {
    let data = obj(vec![("finance", obj(vec![("result", JsonValue::Array(vec![]))]))]);
    match parse_companies_from_screener(&data) {
        Err(YahooError::ParseError(m)) => assert_eq!(m, "No screener results found"),
        _ => panic!("expected a parse error"),
    }
}
