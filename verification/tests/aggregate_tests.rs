use finance_query::analysts::all_analyst_data;
use finance_query::calendar::full_calendar;
use finance_query::financial::{
    balance_sheet_fields, cash_flow_fields, financials_request, income_statement_fields,
    parse_financials, Frequency, RawNumber,
};
use finance_query::holder::{all_holders, custom_holders, HolderType, InstitutionalHolder};
use finance_query::json::JsonValue;
use finance_query::models::movers::MarketMover;
use finance_query::models::quote::SimpleQuote;
use finance_query::sector::{sector_screener_request, Sector};
use finance_query::streaming::{MoversUpdate, QuotesUpdate};

fn s(x: &str) -> JsonValue {
    JsonValue::Str(x.to_string())
}

fn obj(pairs: Vec<(&str, JsonValue)>) -> JsonValue {
    JsonValue::Object(pairs.into_iter().map(|(k, v)| (k.to_string(), v)).collect())
}

fn summary(modules: Vec<(&str, JsonValue)>) -> JsonValue {
    obj(vec![("quoteSummary", obj(vec![("result", JsonValue::Array(vec![obj(modules)]))]))])
}

fn holder(org: &str, value: Option<i64>) -> JsonValue {
    let mut fields = vec![("organization", s(org)), ("position", JsonValue::Int(10))];
    if let Some(v) = value {
        fields.push(("value", JsonValue::Int(v)));
    }
    obj(fields)
}

fn holders_answer() -> JsonValue {
    summary(vec![
        ("majorHoldersBreakdown", obj(vec![("institutionsCount", JsonValue::Int(7))])),
        (
            "institutionOwnership",
            obj(vec![(
                "ownershipList",
                JsonValue::Array(vec![holder("Vanguard", Some(300)), holder("Other", None), holder("BlackRock", Some(200))]),
            )]),
        ),
        (
            "insiderTransactions",
            obj(vec![(
                "transactions",
                JsonValue::Array(vec![
                    obj(vec![("filerName", s("A")), ("transactionText", s("Purchase at 10"))]),
                    obj(vec![("filerName", s("B")), ("transactionText", s("Sale at 12"))]),
                    obj(vec![("filerName", s("C")), ("transactionText", s("Sale at 13"))]),
                ]),
            )]),
        ),
    ])
}

#[test]
fn all_holders_reads_every_kind() {
    let d = all_holders("AAPL", &holders_answer());
    assert_eq!(d.symbol, "AAPL");
    assert_eq!(d.major_holders.unwrap().institutions_count, Some(7));
    assert_eq!(d.institutional_holders.as_ref().unwrap().len(), 3);
    assert!(d.mutual_fund_holders.is_none());
    assert!(d.insider_purchases.is_none());
    assert!(d.insider_roster.is_none());
    assert_eq!(d.total_institutional_value(), Some(500));
    assert_eq!(d.total_mutual_fund_value(), None);
    assert_eq!(d.insider_buy_count(), 1);
    assert_eq!(d.insider_sell_count(), 2);
}

#[test]
fn custom_holders_reads_only_the_kinds_asked() {
    let json = holders_answer();
    let d = custom_holders("MSFT", &json, &vec![HolderType::InsiderTransactions, HolderType::Major]);
    assert_eq!(d.symbol, "MSFT");
    assert!(d.major_holders.is_some());
    assert_eq!(d.insider_transactions.as_ref().unwrap().len(), 3);
    assert!(d.institutional_holders.is_none());
    assert_eq!(d.total_institutional_value(), None);
    assert_eq!(d.insider_buy_count(), 1);
    let none = custom_holders("MSFT", &json, &vec![]);
    assert!(none.major_holders.is_none() && none.insider_transactions.is_none());
    assert_eq!(none.insider_sell_count(), 0);
}

#[test]
fn holder_values_sum_only_reported_ones() {
    let h = |v: Option<i64>| InstitutionalHolder {
        organization: "X".into(),
        shares: 1,
        date_reported: None,
        percent_held: None,
        value: v,
    };
    let mut d = all_holders("A", &holders_answer());
    d.mutual_fund_holders = Some(vec![h(Some(-5)), h(None), h(Some(12))]);
    assert_eq!(d.total_mutual_fund_value(), Some(7));
}

#[test]
fn all_analyst_data_reads_every_kind() {
    let json = summary(vec![
        (
            "recommendationTrend",
            obj(vec![(
                "trend",
                JsonValue::Array(vec![
                    obj(vec![("period", s("0m")), ("strongBuy", JsonValue::Int(10)), ("buy", JsonValue::Int(5))]),
                    obj(vec![("period", s("-1m")), ("strongBuy", JsonValue::Int(1))]),
                ]),
            )]),
        ),
        (
            "upgradeDowngradeHistory",
            obj(vec![(
                "history",
                JsonValue::Array(vec![
                    obj(vec![("firm", s("F1")), ("action", s("up"))]),
                    obj(vec![("firm", s("F2")), ("action", s("down"))]),
                    obj(vec![("firm", s("F3")), ("action", s("Upgrade"))]),
                ]),
            )]),
        ),
    ]);
    let d = all_analyst_data("AAPL", &json);
    assert_eq!(d.symbol, "AAPL");
    assert_eq!(d.latest_recommendation().unwrap().period, "0m");
    assert_eq!(d.latest_recommendation().unwrap().strong_buy, 10);
    assert_eq!(d.upgrade_count(), 2);
    assert_eq!(d.downgrade_count(), 1);
    assert!(d.price_target.is_none());
    assert!(d.earnings_history.is_none());
    assert!(d.eps_trend.is_none());
    let mut empty = d.clone();
    empty.recommendations = Some(vec![]);
    empty.upgrades_downgrades = None;
    assert!(empty.latest_recommendation().is_none());
    assert_eq!(empty.upgrade_count(), 0);
}

#[test]
fn full_calendar_reads_each_event() {
    let json = summary(vec![(
        "defaultKeyStatistics",
        obj(vec![("lastSplitFactor", s("4:1"))]),
    )]);
    let c = full_calendar("AAPL", &json);
    assert_eq!(c.symbol, "AAPL");
    assert!(c.earnings.is_none());
    assert_eq!(c.split.as_ref().unwrap().split_ratio.as_deref(), Some("4:1"));
    assert!(!c.has_upcoming_events());
}

#[test]
fn financials_request_spans_the_years() {
    let fields = vec!["TotalRevenue", "NetIncome"];
    let r = financials_request("AAPL", &fields, Frequency::Annual, 2, 1_700_000_000);
    assert_eq!(
        r.url,
        "https://query1.finance.yahoo.com/ws/fundamentals-timeseries/v1/finance/timeseries/AAPL"
    );
    let get = |k: &str| r.params.iter().find(|(n, _)| n == k).map(|(_, v)| v.clone());
    assert_eq!(get("period1").as_deref(), Some("1636928000"));
    assert_eq!(get("period2").as_deref(), Some("1700000000"));
    assert_eq!(get("type").as_deref(), Some("annualTotalRevenue,annualNetIncome"));
    assert_eq!(r.params[0], ("merge".to_string(), "false".to_string()));
}

#[test]
fn statement_field_lists() {
    let income = income_statement_fields();
    assert_eq!(income.len(), 29);
    assert_eq!(income[0], "TotalRevenue");
    assert_eq!(income[28], "TotalOperatingIncomeAsReported");
    let balance = balance_sheet_fields();
    assert_eq!(balance.len(), 47);
    assert_eq!(balance[0], "TotalAssets");
    let cash = cash_flow_fields();
    assert_eq!(cash.len(), 46);
    assert_eq!(cash[45], "CapitalExpenditureReported");
}

#[test]
fn latest_is_the_newest_point() {
    let point = |date: &str, raw: JsonValue| {
        obj(vec![("asOfDate", s(date)), ("reportedValue", obj(vec![("raw", raw)]))])
    };
    let item = obj(vec![
        ("meta", obj(vec![("type", JsonValue::Array(vec![s("annualNetIncome")]))])),
        (
            "annualNetIncome",
            JsonValue::Array(vec![point("2022-09-30", JsonValue::Int(1)), point("2023-09-30", JsonValue::Int(2))]),
        ),
    ]);
    let json = obj(vec![("timeseries", obj(vec![("result", JsonValue::Array(vec![item]))]))]);
    let st = parse_financials(&json, "AAPL", "custom", Frequency::Annual);
    assert_eq!(st.latest("NetIncome"), Some(RawNumber::Int(2)));
    assert_eq!(st.latest("TotalRevenue"), None);
}

#[test]
fn screener_request_caps_the_count() {
    let r = sector_screener_request(Sector::Technology, 10);
    assert_eq!(
        r.url,
        "https://query1.finance.yahoo.com/v1/finance/screener/predefined/saved?count=10&scrIds=most_actives"
    );
    assert!(r.params.is_empty());
    let capped = sector_screener_request(Sector::Energy, 100);
    assert!(capped.url.contains("count=25&"));
}

#[test]
fn movers_and_quotes_updates_keep_their_lists() {
    let m = |sym: &str| MarketMover {
        symbol: sym.into(),
        name: "N".into(),
        price: "1.00".into(),
        change: "+0.10".into(),
        percent_change: "+10.00%".into(),
    };
    let u = MoversUpdate::with_timestamp(vec![m("A")], vec![m("G"), m("H")], vec![], 1_000);
    assert_eq!(u.actives[0].symbol, "A");
    assert_eq!(u.gainers.len(), 2);
    assert!(u.losers.is_empty());
    assert_eq!(u.timestamp_ms, 1_000);
    let now = MoversUpdate::new(vec![], vec![m("G")], vec![m("L")]);
    assert_eq!(now.losers[0].symbol, "L");
    assert!(now.timestamp_ms > 1_600_000_000_000);
    let q = SimpleQuote {
        symbol: "AAPL".into(),
        name: "Apple".into(),
        price: "1".into(),
        pre_market_price: None,
        after_hours_price: None,
        change: "0".into(),
        percent_change: "0%".into(),
        logo: None,
    };
    let qu = QuotesUpdate::new(vec![q]);
    assert_eq!(qu.len(), 1);
    assert!(qu.contains_symbol("AAPL"));
}
