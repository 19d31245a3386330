use finance_query::analysts::{ parse_earnings_history, parse_estimates, parse_eps_trend, parse_growth_estimates, parse_price_targets, EstimateKind, };
use finance_query::json::Number;
use finance_query::analysts::{
    count_changes, parse_eps_revisions, parse_recommendations, parse_upgrades_downgrades,
    AnalysisType, EpsRevisions, RecommendationData, UpgradeDowngrade,
};
use finance_query::json::JsonValue;

fn s(x: &str) -> JsonValue {
    JsonValue::Str(x.to_string())
}

fn obj(pairs: Vec<(&str, JsonValue)>) -> JsonValue {
    JsonValue::Object(pairs.into_iter().map(|(k, v)| (k.to_string(), v)).collect())
}

fn summary(module: &str, key: &str, items: Vec<JsonValue>) -> JsonValue {
    obj(vec![(
        "quoteSummary",
        obj(vec![(
            "result",
            JsonValue::Array(vec![obj(vec![(module, obj(vec![(key, JsonValue::Array(items))]))])]),
        )]),
    )])
}

fn rec(sb: i32, b: i32, h: i32, se: i32, ss: i32) -> RecommendationData {
    RecommendationData {
        period: "0m".to_string(),
        strong_buy: sb,
        buy: b,
        hold: h,
        sell: se,
        strong_sell: ss,
    }
}

#[test]
fn test_recommendation_consensus() {
    let rec = RecommendationData {
        period: "0m".to_string(),
        strong_buy: 10,
        buy: 15,
        hold: 5,
        sell: 2,
        strong_sell: 1,
    };

    assert_eq!(rec.total_analysts(), 33);
    assert_eq!(rec.consensus(), "Strong Buy");
    let bullish_percent = (rec.bullish_count() as f64 / rec.total_analysts() as f64) * 100.0;
    assert!(bullish_percent > 70.0);
}

#[test]
fn consensus_covers_every_case() {
    assert_eq!(rec(3, 3, 0, 2, 1).consensus(), "Buy");
    assert_eq!(rec(1, 1, 9, 1, 1).consensus(), "Hold");
    assert_eq!(rec(0, 0, 0, 0, 0).consensus(), "Hold");
    assert_eq!(rec(1, 1, 0, 2, 1).consensus(), "Sell");
    assert_eq!(rec(0, 1, 0, 2, 1).consensus(), "Strong Sell");
    assert_eq!(rec(4, 3, 0, 2, 1).consensus(), "Strong Buy");
}

#[test]
fn analysis_modules() {
    assert_eq!(AnalysisType::Recommendations.as_module(), "recommendationTrend");
    assert_eq!(AnalysisType::UpgradesDowngrades.as_module(), "upgradeDowngradeHistory");
    assert_eq!(AnalysisType::PriceTargets.as_module(), "financialData");
    assert_eq!(AnalysisType::EarningsHistory.as_module(), "earningsHistory");
    assert_eq!(AnalysisType::EpsRevisions.as_module(), "earningsTrend");
    assert_eq!(AnalysisType::GrowthEstimates.as_module(), "earningsTrend");
}

fn change(action: Option<&str>) -> UpgradeDowngrade {
    UpgradeDowngrade {
        firm: "Firm".to_string(),
        to_grade: None,
        from_grade: None,
        action: action.map(|a| a.to_string()),
        date: None,
    }
}

#[test]
fn upgrades_and_downgrades() {
    assert!(change(Some("Upgrade")).is_upgrade());
    assert!(change(Some("up")).is_upgrade());
    assert!(!change(Some("main")).is_upgrade());
    assert!(!change(None).is_upgrade());
    assert!(change(Some("DOWN")).is_downgrade());
    assert!(change(Some("downgrade")).is_downgrade());
    assert!(!change(Some("upgrade")).is_downgrade());
    let changes = vec![change(Some("up")), change(Some("down")), change(Some("init"))];
    assert_eq!(count_changes(&changes, true), 1);
    assert_eq!(count_changes(&changes, false), 1);
}

#[test]
fn net_revisions() {
    let r = EpsRevisions {
        period: "0q".to_string(),
        up_last_7_days: Some(1),
        up_last_30_days: Some(5),
        down_last_7_days: None,
        down_last_30_days: Some(7),
    };
    assert_eq!(r.net_revisions_30d(), Some(-2));
    let partial = EpsRevisions { down_last_30_days: None, ..r };
    assert_eq!(partial.net_revisions_30d(), None);
}

#[test]
fn recommendations_from_summary() {
    let json = summary(
        "recommendationTrend",
        "trend",
        vec![
            obj(vec![
                ("period", s("0m")),
                ("strongBuy", JsonValue::Int(7)),
                ("buy", JsonValue::Int(21)),
                ("hold", JsonValue::Int(6)),
            ]),
            obj(vec![("strongBuy", JsonValue::Int(1))]),
            obj(vec![("period", s("-1m")), ("sell", JsonValue::Int(4_294_967_298))]),
        ],
    );
    let recs = parse_recommendations(&json).unwrap();
    assert_eq!(recs.len(), 2);
    assert_eq!(recs[0].period, "0m");
    assert_eq!(recs[0].strong_buy, 7);
    assert_eq!(recs[0].buy, 21);
    assert_eq!(recs[0].sell, 0);
    assert_eq!(recs[1].period, "-1m");
    assert_eq!(recs[1].sell, 2);
    let empty = summary("recommendationTrend", "trend", vec![obj(vec![])]);
    assert!(parse_recommendations(&empty).is_none());
    assert!(parse_recommendations(&obj(vec![])).is_none());
}

#[test]
fn upgrades_from_summary() {
    let json = summary(
        "upgradeDowngradeHistory",
        "history",
        vec![
            obj(vec![
                ("firm", s("Morgan Stanley")),
                ("toGrade", s("Overweight")),
                ("action", s("main")),
                ("epochGradeDate", JsonValue::Int(1_700_000_000)),
            ]),
            obj(vec![("toGrade", s("Buy"))]),
        ],
    );
    let changes = parse_upgrades_downgrades(&json).unwrap();
    assert_eq!(changes.len(), 1);
    assert_eq!(changes[0].firm, "Morgan Stanley");
    assert_eq!(changes[0].to_grade.as_deref(), Some("Overweight"));
    assert_eq!(changes[0].from_grade, None);
    assert_eq!(changes[0].date.as_deref(), Some("2023-11-14"));
}

#[test]
fn eps_revisions_from_summary() {
    let json = summary(
        "earningsTrend",
        "trend",
        vec![
            obj(vec![
                ("period", s("0q")),
                (
                    "epsRevisions",
                    obj(vec![("upLast30days", JsonValue::Int(3)), ("downLast30days", JsonValue::Int(1))]),
                ),
            ]),
            obj(vec![("period", s("+1q"))]),
        ],
    );
    let revs = parse_eps_revisions(&json).unwrap();
    assert_eq!(revs.len(), 1);
    assert_eq!(revs[0].up_last_30_days, Some(3));
    assert_eq!(revs[0].up_last_7_days, None);
    assert_eq!(revs[0].net_revisions_30d(), Some(2));
}

#[test]
fn estimates_and_trends_from_summary() {
    let trend = summary(
        "earningsTrend",
        "trend",
        vec![
            obj(vec![
                ("period", s("0q")),
                ("endDate", s("2024-03-31")),
                (
                    "earningsEstimate",
                    obj(vec![("avg", JsonValue::Float(1.5f64.to_bits())), ("numberOfAnalysts", JsonValue::Int(28))]),
                ),
                ("epsTrend", obj(vec![("current", JsonValue::Int(2)), ("30daysAgo", JsonValue::Int(1))])),
                ("growth", JsonValue::Float(0.1f64.to_bits())),
            ]),
            obj(vec![
                ("period", s("+1q")),
                ("revenueEstimate", obj(vec![("yearAgoRevenue", JsonValue::Int(90))])),
                ("growth", obj(vec![("raw", JsonValue::Int(3))])),
            ]),
        ],
    );
    let earnings = parse_estimates(EstimateKind::Earnings, &trend).unwrap();
    assert_eq!(earnings.len(), 1);
    assert_eq!(earnings[0].end_date.as_deref(), Some("2024-03-31"));
    assert_eq!(earnings[0].avg, Some(Number::Float(1.5f64.to_bits())));
    assert_eq!(earnings[0].number_of_analysts, Some(28));
    let revenue = parse_estimates(EstimateKind::Revenue, &trend).unwrap();
    assert_eq!(revenue.len(), 1);
    assert_eq!(revenue[0].period, "+1q");
    assert_eq!(revenue[0].year_ago, Some(Number::Int(90)));
    let eps = parse_eps_trend(&trend).unwrap();
    assert_eq!(eps.len(), 1);
    assert_eq!(eps[0].days_30_ago, Some(Number::Int(1)));
    let growth = parse_growth_estimates(&trend).unwrap();
    assert_eq!(growth.len(), 2);
    assert_eq!(growth[0].stock, Some(Number::Float(0.1f64.to_bits())));
    assert_eq!(growth[1].stock, Some(Number::Int(3)));
    assert_eq!(growth[1].industry, None);
    let history = summary(
        "earningsHistory",
        "history",
        vec![obj(vec![("quarter", s("4Q2023")), ("epsDifference", JsonValue::Float(0.1f64.to_bits()))])],
    );
    let h = parse_earnings_history(&history).unwrap();
    assert_eq!(h[0].quarter.as_deref(), Some("4Q2023"));
    assert_eq!(h[0].eps_actual, None);
    let fin = obj(vec![(
        "quoteSummary",
        obj(vec![(
            "result",
            JsonValue::Array(vec![obj(vec![(
                "financialData",
                obj(vec![("targetMeanPrice", JsonValue::Int(200)), ("numberOfAnalystOpinions", JsonValue::Int(40))]),
            )])]),
        )]),
    )]);
    let pt = parse_price_targets(&fin).unwrap();
    assert_eq!(pt.target_mean, Some(Number::Int(200)));
    assert_eq!(pt.number_of_analysts, Some(40));
    assert_eq!(pt.current_price, None);
    assert!(parse_price_targets(&obj(vec![])).is_none());
}
