use finance_query::json::JsonValue;
use finance_query::news::{
    combine_news, dedup_articles, news_for_query, news_for_symbol, parse_news_from_search,
    sector_news_query, sort_by_recency, NewsArticle, NewsResponse,
};

fn s(x: &str) -> JsonValue {
    JsonValue::Str(x.to_string())
}

fn obj(pairs: Vec<(&str, JsonValue)>) -> JsonValue {
    JsonValue::Object(pairs.into_iter().map(|(k, v)| (k.to_string(), v)).collect())
}

fn article(uuid: Option<&str>, title: &str, time: Option<i64>) -> NewsArticle {
    NewsArticle {
        uuid: uuid.map(|u| u.to_string()),
        title: title.to_string(),
        publisher: None,
        link: "".to_string(),
        publish_time: time,
        publish_time_formatted: None,
        thumbnail_url: None,
        related_tickers: vec![],
    }
}

#[test]
fn test_news_article_relative_time() {
    let now = chrono::Utc::now().timestamp();

    // Test seconds ago
    let article = NewsArticle {
        uuid: None,
        title: "Test".to_string(),
        publisher: None,
        link: "".to_string(),
        publish_time: Some(now - 30),
        publish_time_formatted: None,
        thumbnail_url: None,
        related_tickers: vec![],
    };
    assert!(article.relative_time().contains("s ago"));

    // Test hours ago
    let article = NewsArticle {
        uuid: None,
        title: "Test".to_string(),
        publisher: None,
        link: "".to_string(),
        publish_time: Some(now - 7200),
        publish_time_formatted: None,
        thumbnail_url: None,
        related_tickers: vec![],
    };
    assert!(article.relative_time().contains("h ago"));
}

#[test]
fn test_news_response_filtering() {
    let articles = vec![
        NewsArticle {
            uuid: Some("1".to_string()),
            title: "Apple News".to_string(),
            publisher: Some("Reuters".to_string()),
            link: "".to_string(),
            publish_time: None,
            publish_time_formatted: None,
            thumbnail_url: None,
            related_tickers: vec!["AAPL".to_string()],
        },
        NewsArticle {
            uuid: Some("2".to_string()),
            title: "Google News".to_string(),
            publisher: Some("Bloomberg".to_string()),
            link: "".to_string(),
            publish_time: None,
            publish_time_formatted: None,
            thumbnail_url: None,
            related_tickers: vec!["GOOGL".to_string()],
        },
    ];

    let response = NewsResponse {
        symbol: None,
        query: None,
        articles,
        count: 2,
    };

    assert_eq!(response.from_publisher("Reuters").len(), 1);
    assert_eq!(response.mentioning_ticker("AAPL").len(), 1);
    assert!(!response.is_empty());
}

#[test]
fn filters_ignore_case() {
    let mut a = article(Some("1"), "A", None);
    a.publisher = Some("Reuters UK".to_string());
    a.related_tickers = vec!["msft".to_string(), "AAPL".to_string()];
    let response = NewsResponse { symbol: None, query: None, articles: vec![a], count: 1 };
    assert_eq!(response.from_publisher("reuters").len(), 1);
    assert_eq!(response.from_publisher("AP").len(), 0);
    assert_eq!(response.mentioning_ticker("MSFT").len(), 1);
    assert_eq!(response.mentioning_ticker("GOOG").len(), 0);
}

#[test]
fn relative_time_units() {
    let a = article(None, "t", Some(1_000_000));
    assert_eq!(a.relative_time_at(1_000_030), "30s ago");
    assert_eq!(a.relative_time_at(1_000_000 + 59), "59s ago");
    assert_eq!(a.relative_time_at(1_000_000 + 60), "1m ago");
    assert_eq!(a.relative_time_at(1_000_000 + 3_599), "59m ago");
    assert_eq!(a.relative_time_at(1_000_000 + 7_199), "1h ago");
    assert_eq!(a.relative_time_at(1_000_000 + 7_200), "2h ago");
    assert_eq!(a.relative_time_at(1_000_000 + 86_400 * 3 + 5), "3d ago");
    assert_eq!(a.relative_time_at(999_990), "-10s ago");
    assert_eq!(article(None, "t", None).relative_time_at(5), "Unknown");
}

#[test]
fn formatted_dates() {
    let mut a = article(None, "t", Some(1_700_000_000));
    assert_eq!(a.formatted_date(), "2023-11-14 22:13");
    a.publish_time_formatted = Some("yesterday".to_string());
    assert_eq!(a.formatted_date(), "yesterday");
    assert_eq!(article(None, "t", None).formatted_date(), "Unknown");
}

#[test]
fn news_from_search_answer() {
    let json = obj(vec![(
        "news",
        JsonValue::Array(vec![
            obj(vec![
                ("uuid", s("u1")),
                ("title", s("Earnings beat")),
                ("publisher", s("Reuters")),
                ("link", s("https://example.com/a")),
                ("providerPublishTime", JsonValue::Int(1_700_000_000)),
                (
                    "thumbnail",
                    obj(vec![(
                        "resolutions",
                        JsonValue::Array(vec![obj(vec![("url", s("https://img/1.jpg"))])]),
                    )]),
                ),
                ("relatedTickers", JsonValue::Array(vec![s("AAPL"), JsonValue::Int(3), s("MSFT")])),
            ]),
            obj(vec![("uuid", s("u2"))]),
            obj(vec![("title", s("No link"))]),
        ]),
    )]);
    let articles = parse_news_from_search(&json);
    assert_eq!(articles.len(), 2);
    assert_eq!(articles[0].thumbnail_url.as_deref(), Some("https://img/1.jpg"));
    assert_eq!(articles[0].related_tickers, vec!["AAPL".to_string(), "MSFT".to_string()]);
    assert_eq!(articles[0].publish_time, Some(1_700_000_000));
    assert_eq!(articles[1].link, "");
    assert_eq!(articles[1].uuid, None);
    assert!(parse_news_from_search(&obj(vec![])).is_empty());
}

#[test]
fn dedup_keeps_first_of_each_key() {
    let articles = vec![
        article(Some("1"), "A", Some(10)),
        article(Some("1"), "B", Some(20)),
        article(None, "A", Some(30)),
        article(None, "C", Some(40)),
        article(None, "C", Some(50)),
    ];
    let unique = dedup_articles(&articles);
    let titles: Vec<&str> = unique.iter().map(|a| a.title.as_str()).collect();
    assert_eq!(titles, vec!["A", "A", "C"]);
    assert_eq!(unique[2].publish_time, Some(40));
}

#[test]
fn recency_sort_is_stable() {
    let articles = vec![
        article(Some("a"), "a", Some(5)),
        article(Some("b"), "b", None),
        article(Some("c"), "c", Some(9)),
        article(Some("d"), "d", Some(5)),
        article(Some("e"), "e", Some(0)),
    ];
    let sorted = sort_by_recency(&articles);
    let titles: Vec<&str> = sorted.iter().map(|a| a.title.as_str()).collect();
    assert_eq!(titles, vec!["c", "a", "d", "b", "e"]);
}

#[test]
fn combined_news_of_several_symbols() {
    let batches = vec![
        vec![article(Some("1"), "one", Some(100)), article(Some("2"), "two", Some(300))],
        vec![article(Some("2"), "two again", Some(300)), article(Some("3"), "three", Some(200))],
    ];
    let symbols = vec!["AAPL".to_string(), "MSFT".to_string()];
    let response = combine_news(&symbols, &batches);
    assert_eq!(response.query.as_deref(), Some("AAPL, MSFT"));
    assert_eq!(response.symbol, None);
    assert_eq!(response.count, 3);
    let titles: Vec<&str> = response.articles.iter().map(|a| a.title.as_str()).collect();
    assert_eq!(titles, vec!["two", "three", "one"]);
}

#[test]
fn responses_count_articles() {
    let r = news_for_symbol("AAPL", vec![article(None, "x", None)], 10);
    assert_eq!(r.symbol.as_deref(), Some("AAPL"));
    assert_eq!(r.count, 1);
    let q = news_for_query("oil", vec![], 5);
    assert_eq!(q.query.as_deref(), Some("oil"));
    assert!(q.is_empty());
    assert_eq!(sector_news_query("technology"), "technology stocks");
}

#[test]
fn responses_keep_at_most_count_articles() {
    let r = news_for_symbol(
        "AAPL",
        vec![article(None, "first", None), article(None, "second", None), article(None, "third", None)],
        2,
    );
    let titles: Vec<&str> = r.articles.iter().map(|a| a.title.as_str()).collect();
    assert_eq!(titles, vec!["first", "second"]);
    assert_eq!(r.count, 2);
    let q = news_for_query("oil", vec![article(None, "a", None), article(None, "b", None)], 1);
    assert_eq!(q.count, 1);
    assert_eq!(q.articles[0].title, "a");
    assert!(news_for_query("oil", vec![article(None, "a", None)], 0).is_empty());
}
