use finance_query::financial::{build_fields, parse_financials, Frequency, RawNumber};
use finance_query::json::JsonValue;

fn s(x: &str) -> JsonValue {
    JsonValue::Str(x.to_string())
}

fn obj(pairs: Vec<(&str, JsonValue)>) -> JsonValue {
    JsonValue::Object(pairs.into_iter().map(|(k, v)| (k.to_string(), v)).collect())
}

fn point(date: &str, raw: JsonValue, period: Option<&str>) -> JsonValue {
    let mut fields = vec![
        ("asOfDate", s(date)),
        ("reportedValue", obj(vec![("raw", raw), ("fmt", s("fmt"))])),
    ];
    if let Some(p) = period {
        fields.push(("periodType", s(p)));
    }
    obj(fields)
}

#[test]
fn field_names_get_prefix() {
    let fields = vec!["TotalRevenue", "NetIncome"];
    assert_eq!(
        build_fields(&fields, Frequency::Quarterly),
        vec!["quarterlyTotalRevenue".to_string(), "quarterlyNetIncome".to_string()]
    );
    assert_eq!(Frequency::Annual.as_prefix(), "annual");
}

#[test]
fn statements_from_timeseries() {
    let item1 = obj(vec![
        ("meta", obj(vec![("type", JsonValue::Array(vec![s("annualTotalRevenue")]))])),
        (
            "annualTotalRevenue",
            JsonValue::Array(vec![
                point("2021-09-30", JsonValue::Int(365), None),
                point("2023-09-30", JsonValue::Float(383.5f64.to_bits()), Some("12M")),
                obj(vec![("asOfDate", s("2024-09-30"))]),
                point("2022-09-30", JsonValue::Null, Some("3M")),
            ]),
        ),
    ]);
    let item2 = obj(vec![
        ("meta", obj(vec![("type", JsonValue::Array(vec![s("annualNetIncome"), s("annualEmpty")]))])),
        ("annualNetIncome", JsonValue::Array(vec![point("2023-09-30", JsonValue::Int(97), None)])),
        ("annualEmpty", JsonValue::Array(vec![])),
    ]);
    let item3 = obj(vec![("annualTotalRevenue", JsonValue::Array(vec![]))]);
    let json = obj(vec![(
        "timeseries",
        obj(vec![("result", JsonValue::Array(vec![item1, item2, item3]))]),
    )]);
    let st = parse_financials(&json, "AAPL", "income_statement", Frequency::Annual);
    assert_eq!(st.symbol, "AAPL");
    assert_eq!(st.statement_type, "income_statement");
    assert_eq!(st.frequency, "annual");
    assert_eq!(st.metrics.len(), 2);
    let revenue = st.get_metric("TotalRevenue").unwrap();
    let dates: Vec<&str> = revenue.iter().map(|p| p.date.as_str()).collect();
    assert_eq!(dates, vec!["2023-09-30", "2022-09-30", "2021-09-30"]);
    assert_eq!(revenue[0].raw, RawNumber::Float(383.5f64.to_bits()));
    assert_eq!(revenue[1].raw, RawNumber::Absent);
    assert_eq!(revenue[1].period_type, "3M");
    assert_eq!(revenue[2].period_type, "12M");
    assert_eq!(revenue[2].formatted.as_deref(), Some("fmt"));
    let income = st.get_metric("NetIncome").unwrap();
    assert_eq!(income[0].raw, RawNumber::Int(97));
    assert!(st.get_metric("Empty").is_none());
    assert_eq!(st.metric_names().len(), 2);
}

#[test]
fn later_series_replace_earlier_ones() {
    let item = |date: &str| {
        obj(vec![
            ("meta", obj(vec![("type", JsonValue::Array(vec![s("quarterlyEBIT")]))])),
            ("quarterlyEBIT", JsonValue::Array(vec![point(date, JsonValue::Int(1), None)])),
        ])
    };
    let json = obj(vec![(
        "timeseries",
        obj(vec![("result", JsonValue::Array(vec![item("2020-01-01"), item("2021-01-01")]))]),
    )]);
    let st = parse_financials(&json, "X", "custom", Frequency::Quarterly);
    assert_eq!(st.metrics.len(), 1);
    assert_eq!(st.get_metric("EBIT").unwrap()[0].date, "2021-01-01");
    let empty = parse_financials(&obj(vec![]), "X", "custom", Frequency::Quarterly);
    assert!(empty.metrics.is_empty());
}
