use finance_query::holder::{ parse_institutional_holders, parse_insider_purchases, parse_major_holders, parse_mutual_fund_holders, InsiderPurchasesSummary, };
use finance_query::json::Number;
use finance_query::holder::{
    count_kind, parse_insider_roster, parse_insider_transactions, report_date, HolderType,
    InsiderRosterMember, InsiderTransaction,
};
use finance_query::json::JsonValue;

fn s(x: &str) -> JsonValue {
    JsonValue::Str(x.to_string())
}

fn obj(pairs: Vec<(&str, JsonValue)>) -> JsonValue {
    JsonValue::Object(pairs.into_iter().map(|(k, v)| (k.to_string(), v)).collect())
}

fn summary(module: &str, key: &str, items: Vec<JsonValue>) -> JsonValue {
    obj(vec![(
        "quoteSummary",
        obj(vec![(
            "result",
            JsonValue::Array(vec![obj(vec![(module, obj(vec![(key, JsonValue::Array(items))]))])]),
        )]),
    )])
}

fn txn(text: Option<&str>) -> InsiderTransaction {
    InsiderTransaction {
        filer_name: "A".into(),
        filer_relation: None,
        transaction_text: text.map(|t| t.to_string()),
        start_date: None,
        shares: None,
        value: None,
        ownership: None,
    }
}

#[test]
fn holder_modules() {
    assert_eq!(HolderType::Major.as_module(), "majorHoldersBreakdown");
    assert_eq!(HolderType::InsiderPurchases.as_module(), "netSharePurchaseActivity");
    assert_eq!(HolderType::InsiderRoster.as_module(), "insiderHolders");
}

#[test]
fn buys_and_sells() {
    assert!(txn(Some("Purchase at price 10")).is_buy());
    assert!(txn(Some("BUY")).is_buy());
    assert!(!txn(Some("Sale at price 10")).is_buy());
    assert!(txn(Some("Sale at price 10")).is_sell());
    assert!(txn(Some("will SELL")).is_sell());
    assert!(!txn(None).is_sell());
    let txns = vec![txn(Some("Purchase")), txn(Some("Sale")), txn(Some("Sale")), txn(None)];
    assert_eq!(count_kind(&txns, true), 1);
    assert_eq!(count_kind(&txns, false), 2);
}

#[test]
fn total_shares_adds_known_positions() {
    let m = InsiderRosterMember {
        name: "B".into(),
        relation: None,
        url: None,
        transaction_description: None,
        latest_transaction_date: None,
        position_direct: Some(100),
        position_indirect: None,
    };
    assert_eq!(m.total_shares(), 100);
    let both = InsiderRosterMember { position_indirect: Some(-30), ..m };
    assert_eq!(both.total_shares(), 70);
}

#[test]
fn report_dates() {
    assert_eq!(report_date("1700000000"), "2023-11-14");
    assert_eq!(report_date("2023-06-30"), "2023-06-30");
    assert_eq!(report_date("99999999999999999"), "99999999999999999");
}

#[test]
fn insider_transactions_from_summary() {
    let json = summary(
        "insiderTransactions",
        "transactions",
        vec![
            obj(vec![
                ("filerName", s("COOK TIMOTHY D")),
                ("filerRelation", s("Chief Executive Officer")),
                ("transactionText", s("Sale at price 190.00 per share.")),
                ("startDate", JsonValue::Int(1_700_000_000)),
                ("shares", JsonValue::Int(511_000)),
                ("ownership", s("D")),
            ]),
            obj(vec![("shares", JsonValue::Int(1))]),
        ],
    );
    let txns = parse_insider_transactions(&json).unwrap();
    assert_eq!(txns.len(), 1);
    assert_eq!(txns[0].filer_name, "COOK TIMOTHY D");
    assert_eq!(txns[0].start_date.as_deref(), Some("2023-11-14"));
    assert_eq!(txns[0].shares, Some(511_000));
    assert_eq!(txns[0].value, None);
    assert!(txns[0].is_sell());
    let none = summary("insiderTransactions", "transactions", vec![]);
    assert!(parse_insider_transactions(&none).is_none());
}

#[test]
fn insider_roster_from_summary() {
    let json = summary(
        "insiderHolders",
        "holders",
        vec![obj(vec![
            ("name", s("LEVINSON ARTHUR D")),
            ("relation", s("Director")),
            ("latestTransDate", JsonValue::Int(0)),
            ("positionDirect", JsonValue::Int(4_000_000)),
            ("positionIndirect", s("n/a")),
        ])],
    );
    let roster = parse_insider_roster(&json).unwrap();
    assert_eq!(roster.len(), 1);
    assert_eq!(roster[0].latest_transaction_date.as_deref(), Some("1970-01-01"));
    assert_eq!(roster[0].position_indirect, None);
    assert_eq!(roster[0].total_shares(), 4_000_000);
}

#[test]
fn ownership_and_purchases_from_summary() {
    let list = vec![
        obj(vec![
            ("organization", s("Vanguard")),
            ("position", JsonValue::Int(1_300_000_000)),
            ("reportDate", s("1700000000")),
            ("pctHeld", JsonValue::Float(0.083f64.to_bits())),
            ("value", JsonValue::Int(250_000_000_000)),
        ]),
        obj(vec![("organization", s("Blackrock")), ("reportDate", s("2023-09-30"))]),
        obj(vec![("position", JsonValue::Int(5))]),
    ];
    let inst = parse_institutional_holders(&summary("institutionOwnership", "ownershipList", list)).unwrap();
    assert_eq!(inst.len(), 2);
    assert_eq!(inst[0].date_reported.as_deref(), Some("2023-11-14"));
    assert_eq!(inst[0].percent_held, Some(Number::Float(0.083f64.to_bits())));
    assert_eq!(inst[1].shares, 0);
    assert_eq!(inst[1].date_reported.as_deref(), Some("2023-09-30"));
    let funds = parse_mutual_fund_holders(&summary("fundOwnership", "ownershipList", vec![obj(vec![("organization", s("F"))])])).unwrap();
    assert_eq!(funds[0].organization, "F");
    assert!(parse_mutual_fund_holders(&summary("institutionOwnership", "ownershipList", vec![])).is_none());
    let major = obj(vec![(
        "quoteSummary",
        obj(vec![(
            "result",
            JsonValue::Array(vec![obj(vec![
                ("majorHoldersBreakdown", obj(vec![("institutionsCount", JsonValue::Int(6000))])),
                (
                    "netSharePurchaseActivity",
                    obj(vec![
                        ("buyInfoCount", JsonValue::Int(10)),
                        ("sellInfoCount", JsonValue::Int(14)),
                        ("netInfoCount", JsonValue::Int(-4)),
                        ("period", s("6m")),
                    ]),
                ),
            ])]),
        )]),
    )]);
    assert_eq!(parse_major_holders(&major).unwrap().institutions_count, Some(6000));
    let p: InsiderPurchasesSummary = parse_insider_purchases(&major).unwrap();
    assert_eq!(p.net_transactions(), Some(-4));
    assert!(!p.is_net_buying());
    assert_eq!(p.period.as_deref(), Some("6m"));
}
