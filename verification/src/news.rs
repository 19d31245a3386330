//! News articles from Yahoo Finance searches, and what is done with them:
//! filtering, merging the news of several symbols, and dating.

use vstd::prelude::*;
use vstd::string::*;
use crate::client::requests::{join, spec_join, strings_view};
use crate::collect::{keep_some, lemma_keep_some_take, lemma_take_all};
use crate::dates::{spec_utc_date_minute, unix_now_millis, utc_date_minute};
use crate::decimal::{i64_to_string, spec_int_decimal};
use crate::json::{
    deref_opt, opt_view, spec_i64_member, spec_str_member, i64_member, str_member, JsonValue,
};
use crate::order::{is_index_permutation, stable_order_i64, stably_ordered_i64};
use crate::text::{
    contains, eq_ignore_ascii_case, spec_contains, spec_eq_ignore_ascii_case, spec_to_lowercase,
    str_eq, to_lowercase,
};

verus! {

/// A news article.
#[derive(Debug, Clone)]
pub struct NewsArticle {
    pub uuid: Option<String>,
    pub title: String,
    pub publisher: Option<String>,
    pub link: String,
    pub publish_time: Option<i64>,
    pub publish_time_formatted: Option<String>,
    pub thumbnail_url: Option<String>,
    pub related_tickers: Vec<String>,
}

/// A news article with its texts as character sequences.
pub struct NewsArticleView {
    pub uuid: Option<Seq<char>>,
    pub title: Seq<char>,
    pub publisher: Option<Seq<char>>,
    pub link: Seq<char>,
    pub publish_time: Option<i64>,
    pub publish_time_formatted: Option<Seq<char>>,
    pub thumbnail_url: Option<Seq<char>>,
    pub related_tickers: Seq<Seq<char>>,
}

impl View for NewsArticle {
    type V = NewsArticleView;

    open spec fn view(&self) -> NewsArticleView {
        NewsArticleView {
            uuid: opt_view(self.uuid),
            title: self.title@,
            publisher: opt_view(self.publisher),
            link: self.link@,
            publish_time: self.publish_time,
            publish_time_formatted: opt_view(self.publish_time_formatted),
            thumbnail_url: opt_view(self.thumbnail_url),
            related_tickers: strings_view(self.related_tickers@),
        }
    }
}

/// Articles viewed one by one.
pub open spec fn articles_view(v: Seq<NewsArticle>) -> Seq<NewsArticleView> {
    v.map_values(|a: NewsArticle| a@)
}

fn copy_opt(o: &Option<String>) -> (r: Option<String>)
    ensures
        opt_view(r) == opt_view(*o),
{
    match o {
        Some(s) => Some(s.clone()),
        None => None,
    }
}

fn copy_strings(v: &Vec<String>) -> (r: Vec<String>)
    ensures
        strings_view(r@) == strings_view(v@),
{
    let mut r: Vec<String> = Vec::new();
    let mut i: usize = 0;
    while i < v.len()
        invariant
            i <= v@.len(),
            strings_view(r@) == strings_view(v@.take(i as int)),
        decreases v@.len() - i,
    {
        let ghost before = r@;
        r.push(v[i].clone());
        assert(strings_view(r@) =~= strings_view(before).push(v@[i as int]@));
        assert(strings_view(v@.take(i + 1)) =~= strings_view(v@.take(i as int)).push(
            v@[i as int]@,
        ));
        i = i + 1;
    }
    assert(v@.take(v@.len() as int) =~= v@);
    r
}

/// What an article says of how long ago it was published, `now` being the
/// current Unix time: seconds under a minute, then whole minutes, hours
/// and days; the difference wraps as `i64` subtraction does in release
/// builds.
pub open spec fn spec_relative_time_at(publish_time: Option<i64>, now: i64) -> Seq<char> {
    match publish_time {
        Some(ts) => {
            let diff = now.wrapping_sub(ts);
            if diff < 60 {
                spec_int_decimal(diff as int) + "s ago"@
            } else if diff < 3600 {
                spec_int_decimal(diff as int / 60) + "m ago"@
            } else if diff < 86400 {
                spec_int_decimal(diff as int / 3600) + "h ago"@
            } else {
                spec_int_decimal(diff as int / 86400) + "d ago"@
            }
        },
        None => "Unknown"@,
    }
}

/// A time in milliseconds as whole seconds, rounded down.
pub open spec fn spec_whole_seconds(ms: i64) -> int {
    ms as int / 1000
}

/// The current Unix time in whole seconds (rounded down), by the system
/// clock: some clock reading in milliseconds, divided by 1000 rounding
/// down.
fn unix_now() -> (now: i64)
    ensures
        exists|ms: i64| now == #[trigger] spec_whole_seconds(ms),
{
    let ms = unix_now_millis();
    let now = if ms >= 0 || ms % 1000 == 0 {
        ms / 1000
    } else {
        ms / 1000 - 1
    };
    assert(now == spec_whole_seconds(ms));
    now
}

/// The formatted date of an article: the one given with it, else the UTC
/// minute of its publication, else `Unknown`.
pub open spec fn spec_formatted_date(a: NewsArticleView) -> Seq<char> {
    match a.publish_time_formatted {
        Some(f) => f,
        None => match a.publish_time {
            Some(ts) => match spec_utc_date_minute(ts) {
                Some(d) => d,
                None => "Unknown"@,
            },
            None => "Unknown"@,
        },
    }
}

impl NewsArticle {
    /// A copy of the article.
    pub fn copy(&self) -> (r: NewsArticle)
        ensures
            r@ == self@,
    {
        NewsArticle {
            uuid: copy_opt(&self.uuid),
            title: self.title.clone(),
            publisher: copy_opt(&self.publisher),
            link: self.link.clone(),
            publish_time: self.publish_time,
            publish_time_formatted: copy_opt(&self.publish_time_formatted),
            thumbnail_url: copy_opt(&self.thumbnail_url),
            related_tickers: copy_strings(&self.related_tickers),
        }
    }

    /// Get the publish date as a formatted string.
    pub fn formatted_date(&self) -> (r: String)
        ensures
            r@ == spec_formatted_date(self@),
    {
        if let Some(formatted) = &self.publish_time_formatted {
            return formatted.clone();
        }
        match self.publish_time {
            Some(ts) => match utc_date_minute(ts) {
                Some(d) => d,
                None => "Unknown".to_owned(),
            },
            None => "Unknown".to_owned(),
        }
    }

    /// How long ago the article was published, at Unix time `now`.
    pub fn relative_time_at(&self, now: i64) -> (r: String)
        ensures
            r@ == spec_relative_time_at(self.publish_time, now),
    {
        match self.publish_time {
            Some(ts) => {
                let diff = now.wrapping_sub(ts);
                let (n, unit) = if diff < 60 {
                    (diff, "s ago")
                } else if diff < 3600 {
                    (diff / 60, "m ago")
                } else if diff < 86400 {
                    (diff / 3600, "h ago")
                } else {
                    (diff / 86400, "d ago")
                };
                let mut s = i64_to_string(n);
                s.append(unit);
                s
            },
            None => "Unknown".to_owned(),
        }
    }

    /// Get relative time (e.g., "2 hours ago"), by the system clock.
    pub fn relative_time(&self) -> (r: String)
        ensures
            exists|now: i64| r@ == spec_relative_time_at(self.publish_time, now),
    {
        let now = unix_now();
        self.relative_time_at(now)
    }
}

/// The article comes from a publisher whose name contains `publisher`,
/// ignoring case.
pub open spec fn from_publisher_pred(publisher: Seq<char>) -> spec_fn(NewsArticle) -> bool {
    |a: NewsArticle|
        match opt_view(a.publisher) {
            Some(p) => spec_contains(spec_to_lowercase(p), spec_to_lowercase(publisher)),
            None => false,
        }
}

/// The article lists `ticker` among its related tickers, ignoring ASCII
/// case.
pub open spec fn mentions_ticker_pred(ticker: Seq<char>) -> spec_fn(NewsArticle) -> bool {
    |a: NewsArticle|
        exists|i: int|
            0 <= i < a.related_tickers@.len() && spec_eq_ignore_ascii_case(
                #[trigger] a.related_tickers@[i]@,
                ticker,
            )
}

/// The articles of `v` that satisfy `pred`, in order.
pub open spec fn select(v: Seq<NewsArticle>, pred: spec_fn(NewsArticle) -> bool) -> Seq<NewsArticle>
    decreases v.len(),
{
    if v.len() == 0 {
        Seq::empty()
    } else {
        let kept = select(v.drop_last(), pred);
        if pred(v.last()) {
            kept.push(v.last())
        } else {
            kept
        }
    }
}

/// News response containing multiple articles.
#[derive(Debug, Clone)]
pub struct NewsResponse {
    pub symbol: Option<String>,
    pub query: Option<String>,
    pub articles: Vec<NewsArticle>,
    pub count: usize,
}

/// The referenced articles, as values.
pub open spec fn deref_all(v: Seq<&NewsArticle>) -> Seq<NewsArticle> {
    v.map_values(|a: &NewsArticle| *a)
}

fn publisher_matches(a: &NewsArticle, lower_publisher: &str) -> (r: bool)
    ensures
        r == match opt_view(a.publisher) {
            Some(p) => spec_contains(spec_to_lowercase(p), lower_publisher@),
            None => false,
        },
{
    match &a.publisher {
        Some(p) => {
            let lp = to_lowercase(p.as_str());
            contains(lp.as_str(), lower_publisher)
        },
        None => false,
    }
}

fn ticker_matches(a: &NewsArticle, ticker: &str) -> (r: bool)
    ensures
        r == mentions_ticker_pred(ticker@)(*a),
{
    let n = a.related_tickers.len();
    let mut i: usize = 0;
    while i < n
        invariant
            n == a.related_tickers@.len(),
            i <= n,
            forall|j: int|
                0 <= j < i ==> !spec_eq_ignore_ascii_case(
                    #[trigger] a.related_tickers@[j]@,
                    ticker@,
                ),
        decreases n - i,
    {
        if eq_ignore_ascii_case(a.related_tickers[i].as_str(), ticker) {
            return true;
        }
        i = i + 1;
    }
    false
}

impl NewsResponse {
    /// Get articles from a specific publisher.
    pub fn from_publisher(&self, publisher: &str) -> (r: Vec<&NewsArticle>)
        ensures
            deref_all(r@) == select(self.articles@, from_publisher_pred(publisher@)),
    {
        let lower = to_lowercase(publisher);
        let mut out: Vec<&NewsArticle> = Vec::new();
        let mut i: usize = 0;
        while i < self.articles.len()
            invariant
                i <= self.articles@.len(),
                lower@ == spec_to_lowercase(publisher@),
                deref_all(out@) == select(
                    self.articles@.take(i as int),
                    from_publisher_pred(publisher@),
                ),
            decreases self.articles@.len() - i,
        {
            let a = &self.articles[i];
            assert(self.articles@.take(i + 1).drop_last() =~= self.articles@.take(i as int));
            let ghost before = out@;
            if publisher_matches(a, lower.as_str()) {
                out.push(a);
                assert(deref_all(out@) =~= deref_all(before).push(*a));
            }
            i = i + 1;
        }
        assert(self.articles@.take(self.articles@.len() as int) =~= self.articles@);
        out
    }

    /// Get articles mentioning a specific ticker.
    pub fn mentioning_ticker(&self, ticker: &str) -> (r: Vec<&NewsArticle>)
        ensures
            deref_all(r@) == select(self.articles@, mentions_ticker_pred(ticker@)),
    {
        let mut out: Vec<&NewsArticle> = Vec::new();
        let mut i: usize = 0;
        while i < self.articles.len()
            invariant
                i <= self.articles@.len(),
                deref_all(out@) == select(
                    self.articles@.take(i as int),
                    mentions_ticker_pred(ticker@),
                ),
            decreases self.articles@.len() - i,
        {
            let a = &self.articles[i];
            assert(self.articles@.take(i + 1).drop_last() =~= self.articles@.take(i as int));
            let ghost before = out@;
            if ticker_matches(a, ticker) {
                out.push(a);
                assert(deref_all(out@) =~= deref_all(before).push(*a));
            }
            i = i + 1;
        }
        assert(self.articles@.take(self.articles@.len() as int) =~= self.articles@);
        out
    }

    /// Check if there are any articles.
    pub fn is_empty(&self) -> (r: bool)
        ensures
            r == (self.articles@.len() == 0),
    {
        self.articles.len() == 0
    }
}

/// The thumbnail of a search result: the address of its first resolution.
pub open spec fn spec_thumbnail(item: JsonValue) -> Option<Seq<char>> {
    match item.spec_get("thumbnail"@) {
        Some(t) => match t.spec_get("resolutions"@) {
            Some(r) => match r.spec_as_array() {
                Some(arr) => if arr.len() > 0 {
                    spec_str_member(arr[0], "url"@)
                } else {
                    None
                },
                None => None,
            },
            None => None,
        },
        None => None,
    }
}

fn thumbnail(item: &JsonValue) -> (r: Option<String>)
    ensures
        opt_view(r) == spec_thumbnail(*item),
{
    let t = item.get("thumbnail")?;
    let res = t.get("resolutions")?;
    let arr = res.as_array()?;
    if arr.len() > 0 {
        str_member(&arr[0], "url")
    } else {
        None
    }
}

/// The text of a value, if it is one.
pub open spec fn spec_text_of(v: JsonValue) -> Option<Seq<char>> {
    v.spec_as_str()
}

/// `spec_text_of` as a function value.
pub open spec fn text_of_fn() -> spec_fn(JsonValue) -> Option<Seq<char>> {
    |v: JsonValue| spec_text_of(v)
}

/// The related tickers of a search result: the texts among them.
pub open spec fn spec_related_tickers(item: JsonValue) -> Seq<Seq<char>> {
    match item.spec_get("relatedTickers"@) {
        Some(t) => match t.spec_as_array() {
            Some(arr) => keep_some(arr.map_values(text_of_fn())),
            None => Seq::empty(),
        },
        None => Seq::empty(),
    }
}

fn related_tickers(item: &JsonValue) -> (r: Vec<String>)
    ensures
        strings_view(r@) == spec_related_tickers(*item),
{
    let mut out: Vec<String> = Vec::new();
    match item.get("relatedTickers") {
        Some(t) => match t.as_array() {
            Some(arr) => {
                let mut i: usize = 0;
                while i < arr.len()
                    invariant
                        i <= arr@.len(),
                        strings_view(out@) == keep_some(
                            arr@.take(i as int).map_values(text_of_fn()),
                        ),
                    decreases arr@.len() - i,
                {
                    proof {
                        lemma_keep_some_take(arr@, text_of_fn(), i as int);
                    }
                    let ghost before = out@;
                    match arr[i].as_str() {
                        Some(s) => {
                            out.push(s.to_owned());
                            assert(strings_view(out@) =~= strings_view(before).push(s@));
                        },
                        None => {},
                    }
                    i = i + 1;
                }
                proof {
                    lemma_take_all(arr@);
                }
                out
            },
            None => {
                assert(strings_view(out@) =~= Seq::<Seq<char>>::empty());
                out
            },
        },
        None => {
            assert(strings_view(out@) =~= Seq::<Seq<char>>::empty());
            out
        },
    }
}

/// An article read from one search result: results without a title are
/// skipped, and a missing link is empty.
pub open spec fn spec_search_article(item: JsonValue) -> Option<NewsArticleView> {
    match spec_str_member(item, "title"@) {
        None => None,
        Some(title) => Some(
            NewsArticleView {
                uuid: spec_str_member(item, "uuid"@),
                title,
                publisher: spec_str_member(item, "publisher"@),
                link: match spec_str_member(item, "link"@) {
                    Some(l) => l,
                    None => Seq::empty(),
                },
                publish_time: spec_i64_member(item, "providerPublishTime"@),
                publish_time_formatted: None,
                thumbnail_url: spec_thumbnail(item),
                related_tickers: spec_related_tickers(item),
            },
        ),
    }
}

/// `spec_search_article` as a function value.
pub open spec fn search_article_fn() -> spec_fn(JsonValue) -> Option<NewsArticleView> {
    |item: JsonValue| spec_search_article(item)
}

fn search_article(item: &JsonValue) -> (r: Option<NewsArticle>)
    ensures
        match r {
            Some(a) => spec_search_article(*item) == Some(a@),
            None => spec_search_article(*item) is None,
        },
{
    let title = str_member(item, "title")?;
    let link = match str_member(item, "link") {
        Some(l) => l,
        None => String::new(),
    };
    Some(
        NewsArticle {
            uuid: str_member(item, "uuid"),
            title,
            publisher: str_member(item, "publisher"),
            link,
            publish_time: i64_member(item, "providerPublishTime"),
            publish_time_formatted: None,
            thumbnail_url: thumbnail(item),
            related_tickers: related_tickers(item),
        },
    )
}

/// The articles of a search answer, in order.
pub open spec fn spec_parse_news_from_search(json: JsonValue) -> Seq<NewsArticleView> {
    match json.spec_get("news"@) {
        Some(n) => match n.spec_as_array() {
            Some(items) => keep_some(items.map_values(search_article_fn())),
            None => Seq::empty(),
        },
        None => Seq::empty(),
    }
}

/// Parse news articles from a Yahoo Finance search answer.
pub fn parse_news_from_search(json: &JsonValue) -> (r: Vec<NewsArticle>)
    ensures
        articles_view(r@) == spec_parse_news_from_search(*json),
{
    let mut out: Vec<NewsArticle> = Vec::new();
    let items = match json.get("news") {
        Some(n) => match n.as_array() {
            Some(items) => items,
            None => {
                assert(articles_view(out@) =~= Seq::<NewsArticleView>::empty());
                return out;
            },
        },
        None => {
            assert(articles_view(out@) =~= Seq::<NewsArticleView>::empty());
            return out;
        },
    };
    let mut i: usize = 0;
    while i < items.len()
        invariant
            i <= items@.len(),
            articles_view(out@) == keep_some(items@.take(i as int).map_values(search_article_fn())),
        decreases items@.len() - i,
    {
        proof {
            lemma_keep_some_take(items@, search_article_fn(), i as int);
        }
        let ghost before = out@;
        match search_article(&items[i]) {
            Some(a) => {
                out.push(a);
                assert(articles_view(out@) =~= articles_view(before).push(a@));
            },
            None => {},
        }
        i = i + 1;
    }
    proof {
        lemma_take_all(items@);
    }
    out
}

/// The key by which merged news is deduplicated: the id, else the title.
pub open spec fn spec_dedup_key(a: NewsArticleView) -> Seq<char> {
    match a.uuid {
        Some(u) => u,
        None => a.title,
    }
}

/// The deduplication keys of articles.
pub open spec fn dedup_keys(v: Seq<NewsArticleView>) -> Seq<Seq<char>> {
    v.map_values(|a: NewsArticleView| spec_dedup_key(a))
}

/// Some article of `v` has key `k`.
pub open spec fn has_key(v: Seq<NewsArticleView>, k: Seq<char>) -> bool {
    exists|i: int| 0 <= i < v.len() && spec_dedup_key(#[trigger] v[i]) == k
}

/// The articles of `v` whose key was not seen before them, in order.
pub open spec fn spec_dedup(v: Seq<NewsArticleView>) -> Seq<NewsArticleView>
    decreases v.len(),
{
    if v.len() == 0 {
        Seq::empty()
    } else {
        let kept = spec_dedup(v.drop_last());
        if has_key(v.drop_last(), spec_dedup_key(v.last())) {
            kept
        } else {
            kept.push(v.last())
        }
    }
}

/// Deduplicating keeps exactly the keys there were.
pub proof fn lemma_dedup_keys(v: Seq<NewsArticleView>, k: Seq<char>)
    ensures
        has_key(spec_dedup(v), k) <==> has_key(v, k),
    decreases v.len(),
{
    if v.len() > 0 {
        let init = v.drop_last();
        lemma_dedup_keys(init, k);
        let kept = spec_dedup(init);
        if has_key(v, k) {
            let i = choose|i: int| 0 <= i < v.len() && spec_dedup_key(#[trigger] v[i]) == k;
            if i < v.len() - 1 {
                assert(init[i] == v[i]);
                assert(has_key(init, k));
                let j = choose|j: int| 0 <= j < kept.len() && spec_dedup_key(#[trigger] kept[j]) == k;
                if !has_key(init, spec_dedup_key(v.last())) {
                    assert(kept.push(v.last())[j] == kept[j]);
                }
            } else {
                if has_key(init, spec_dedup_key(v.last())) {
                    lemma_dedup_keys(init, spec_dedup_key(v.last()));
                } else {
                    assert(kept.push(v.last())[kept.len() as int] == v.last());
                }
            }
        }
        if has_key(spec_dedup(v), k) {
            let j = choose|j: int|
                0 <= j < spec_dedup(v).len() && spec_dedup_key(#[trigger] spec_dedup(v)[j]) == k;
            if has_key(init, spec_dedup_key(v.last())) {
                assert(has_key(kept, k));
            } else {
                if j < kept.len() {
                    assert(spec_dedup(v)[j] == kept[j]);
                    assert(has_key(kept, k));
                    let i = choose|i: int| 0 <= i < init.len() && spec_dedup_key(#[trigger] init[i]) == k;
                    assert(v[i] == init[i]);
                } else {
                    assert(spec_dedup(v)[j] == v.last());
                    assert(v[v.len() - 1] == v.last());
                }
            }
        }
    }
}

fn dedup_key(a: &NewsArticle) -> (k: &str)
    ensures
        k@ == spec_dedup_key(a@),
{
    match &a.uuid {
        Some(u) => u.as_str(),
        None => a.title.as_str(),
    }
}

/// Keeps the first article of each key (id, else title), in order.
pub fn dedup_articles(articles: &Vec<NewsArticle>) -> (r: Vec<NewsArticle>)
    ensures
        articles_view(r@) == spec_dedup(articles_view(articles@)),
{
    let mut out: Vec<NewsArticle> = Vec::new();
    let mut seen: Vec<String> = Vec::new();
    let mut i: usize = 0;
    while i < articles.len()
        invariant
            i <= articles@.len(),
            articles_view(out@) == spec_dedup(articles_view(articles@.take(i as int))),
            strings_view(seen@) == dedup_keys(articles_view(out@)),
        decreases articles@.len() - i,
    {
        let a = &articles[i];
        let key = dedup_key(a);
        let ghost prefix = articles_view(articles@.take(i as int));
        assert(articles_view(articles@.take(i + 1)) =~= prefix.push(a@));
        assert(articles_view(articles@.take(i + 1)).drop_last() =~= prefix);
        let mut found = false;
        let mut j: usize = 0;
        while j < seen.len()
            invariant
                j <= seen@.len(),
                found == exists|t: int| 0 <= t < j && #[trigger] seen@[t]@ == key@,
            decreases seen@.len() - j,
        {
            if str_eq(seen[j].as_str(), key) {
                found = true;
            }
            j = j + 1;
        }
        proof {
            let kept = articles_view(out@);
            lemma_dedup_keys(prefix, key@);
            assert(seen@.len() == kept.len()) by {
                assert(strings_view(seen@).len() == dedup_keys(kept).len());
            }
            if found {
                let t = choose|t: int| 0 <= t < seen@.len() && #[trigger] seen@[t]@ == key@;
                assert(strings_view(seen@)[t] == seen@[t]@);
                assert(dedup_keys(kept)[t] == spec_dedup_key(kept[t]));
                assert(spec_dedup_key(kept[t]) == key@);
                assert(has_key(kept, key@));
            } else {
                if has_key(kept, key@) {
                    let t = choose|t: int| 0 <= t < kept.len() && spec_dedup_key(#[trigger] kept[t]) == key@;
                    assert(strings_view(seen@)[t] == seen@[t]@);
                    assert(dedup_keys(kept)[t] == spec_dedup_key(kept[t]));
                    assert(seen@[t]@ == key@);
                }
            }
        }
        if !found {
            let ghost before_out = out@;
            let ghost before_seen = seen@;
            seen.push(key.to_owned());
            out.push(a.copy());
            proof {
                assert(articles_view(out@) =~= articles_view(before_out).push(a@));
                assert(strings_view(seen@) =~= strings_view(before_seen).push(key@));
                assert(dedup_keys(articles_view(out@)) =~= dedup_keys(articles_view(before_out)).push(
                    spec_dedup_key(a@),
                ));
            }
        }
        i = i + 1;
    }
    assert(articles@.take(articles@.len() as int) =~= articles@);
    out
}

/// The key by which merged news is ordered: its publication time, with
/// unknown times as zero.
pub open spec fn spec_recency_key(a: NewsArticleView) -> i64 {
    match a.publish_time {
        Some(t) => t,
        None => 0,
    }
}

/// The recency keys of articles.
pub open spec fn recency_keys(v: Seq<NewsArticleView>) -> Seq<i64> {
    v.map_values(|a: NewsArticleView| spec_recency_key(a))
}

/// `r` is `v` listed most recent first, articles of equal time keeping
/// their order.
pub open spec fn is_by_recency(r: Seq<NewsArticleView>, v: Seq<NewsArticleView>) -> bool {
    exists|p: Seq<usize>|
        is_index_permutation(p, v.len()) && stably_ordered_i64(p, recency_keys(v), true) && r
            == Seq::new(v.len(), |k: int| v[p[k] as int])
}

/// Lists articles most recent first (a stable sort on the publication
/// time, unknown times counting as zero).
pub fn sort_by_recency(articles: &Vec<NewsArticle>) -> (r: Vec<NewsArticle>)
    ensures
        is_by_recency(articles_view(r@), articles_view(articles@)),
{
    let ghost v = articles_view(articles@);
    let mut keys: Vec<i64> = Vec::new();
    let mut i: usize = 0;
    while i < articles.len()
        invariant
            i <= articles@.len(),
            v == articles_view(articles@),
            keys@ == recency_keys(v.take(i as int)),
        decreases articles@.len() - i,
    {
        let k = match articles[i].publish_time {
            Some(t) => t,
            None => 0,
        };
        let ghost before = keys@;
        keys.push(k);
        assert(recency_keys(v.take(i + 1)) =~= recency_keys(v.take(i as int)).push(k));
        i = i + 1;
    }
    assert(v.take(v.len() as int) =~= v);
    let p = stable_order_i64(&keys, true);
    let mut out: Vec<NewsArticle> = Vec::new();
    let mut k: usize = 0;
    while k < p.len()
        invariant
            k <= p@.len(),
            p@.len() == articles@.len(),
            v == articles_view(articles@),
            is_index_permutation(p@, keys@.len()),
            keys@.len() == articles@.len(),
            articles_view(out@) == Seq::new(k as nat, |t: int| v[p@[t] as int]),
        decreases p@.len() - k,
    {
        assert(p@[k as int] < articles@.len());
        let ghost before = out@;
        let c = articles[p[k]].copy();
        assert(c@ == v[p@[k as int] as int]);
        out.push(c);
        assert(articles_view(out@) =~= articles_view(before).push(c@));
        assert(articles_view(out@) =~= Seq::new((k + 1) as nat, |t: int| v[p@[t] as int]));
        k = k + 1;
    }
    assert(is_index_permutation(p@, v.len()) && stably_ordered_i64(p@, recency_keys(v), true)
        && articles_view(out@) == Seq::new(v.len(), |t: int| v[p@[t] as int]));
    out
}

/// The articles of several responses, one after the other.
pub open spec fn spec_concat(batches: Seq<Seq<NewsArticleView>>) -> Seq<NewsArticleView>
    decreases batches.len(),
{
    if batches.len() == 0 {
        Seq::empty()
    } else {
        spec_concat(batches.drop_last()) + batches.last()
    }
}

/// Batches of articles viewed one by one.
pub open spec fn batches_view(b: Seq<Vec<NewsArticle>>) -> Seq<Seq<NewsArticleView>> {
    b.map_values(|v: Vec<NewsArticle>| articles_view(v@))
}

/// The first `count` articles (all of them when there are fewer).
pub open spec fn spec_first_articles(articles: Seq<NewsArticleView>, count: usize) -> Seq<
    NewsArticleView,
> {
    if count < articles.len() {
        articles.take(count as int)
    } else {
        articles
    }
}

/// The articles kept, at most `count`, in order.
fn first_articles(articles: Vec<NewsArticle>, count: usize) -> (r: Vec<NewsArticle>)
    ensures
        articles_view(r@) == spec_first_articles(articles_view(articles@), count),
        r@.len() <= count,
{
    let mut kept = articles;
    let ghost before = kept@;
    kept.truncate(count);
    assert(articles_view(kept@) =~= spec_first_articles(articles_view(before), count));
    kept
}

/// The articles of a response for one symbol: at most `count`, the first
/// ones, in order.
pub fn news_for_symbol(symbol: &str, articles: Vec<NewsArticle>, count: usize) -> (r: NewsResponse)
    ensures
        opt_view(r.symbol) == Some(symbol@),
        r.query is None,
        articles_view(r.articles@) == spec_first_articles(articles_view(articles@), count),
        r.articles@.len() <= count,
        r.count == r.articles@.len(),
{
    let kept = first_articles(articles, count);
    let n = kept.len();
    NewsResponse { symbol: Some(symbol.to_owned()), query: None, articles: kept, count: n }
}

/// The articles of a response to a search: at most `count`, the first
/// ones, in order.
pub fn news_for_query(query: &str, articles: Vec<NewsArticle>, count: usize) -> (r: NewsResponse)
    ensures
        r.symbol is None,
        opt_view(r.query) == Some(query@),
        articles_view(r.articles@) == spec_first_articles(articles_view(articles@), count),
        r.articles@.len() <= count,
        r.count == r.articles@.len(),
{
    let kept = first_articles(articles, count);
    let n = kept.len();
    NewsResponse { symbol: None, query: Some(query.to_owned()), articles: kept, count: n }
}

/// The news of several symbols as one response: the articles of every
/// symbol that answered, in order, each id (else title) kept once, most
/// recent first; the query names the symbols.
pub fn combine_news(symbols: &Vec<String>, batches: &Vec<Vec<NewsArticle>>) -> (r: NewsResponse)
    ensures
        r.symbol is None,
        opt_view(r.query) == Some(spec_join(strings_view(symbols@), ", "@)),
        is_by_recency(articles_view(r.articles@), spec_dedup(spec_concat(batches_view(batches@)))),
        r.count == r.articles@.len(),
{
    let mut all: Vec<NewsArticle> = Vec::new();
    let mut b: usize = 0;
    while b < batches.len()
        invariant
            b <= batches@.len(),
            articles_view(all@) == spec_concat(batches_view(batches@.take(b as int))),
        decreases batches@.len() - b,
    {
        let batch = &batches[b];
        let ghost start = all@;
        let mut i: usize = 0;
        while i < batch.len()
            invariant
                i <= batch@.len(),
                articles_view(all@) == articles_view(start) + articles_view(
                    batch@.take(i as int),
                ),
            decreases batch@.len() - i,
        {
            let ghost before = all@;
            all.push(batch[i].copy());
            assert(articles_view(all@) =~= articles_view(before).push(batch@[i as int]@));
            assert(articles_view(batch@.take(i + 1)) =~= articles_view(batch@.take(i as int)).push(
                batch@[i as int]@,
            ));
            i = i + 1;
        }
        proof {
            assert(batch@.take(batch@.len() as int) =~= batch@);
            let bv = batches_view(batches@.take(b + 1));
            assert(bv.drop_last() =~= batches_view(batches@.take(b as int)));
            assert(bv.last() == articles_view(batch@));
        }
        b = b + 1;
    }
    assert(batches@.take(batches@.len() as int) =~= batches@);
    let unique = dedup_articles(&all);
    let sorted = sort_by_recency(&unique);
    let query = join(symbols, ", ");
    let count = sorted.len();
    NewsResponse { symbol: None, query: Some(query), articles: sorted, count }
}

/// The search query for the news of a sector.
pub fn sector_news_query(sector: &str) -> (q: String)
    ensures
        q@ == sector@ + " stocks"@,
{
    let mut q = sector.to_owned();
    q.append(" stocks");
    q
}

/// The search query for general market news.
pub const MARKET_NEWS_QUERY: &'static str = "stock market";

/// The search query for trending news.
pub const TRENDING_NEWS_QUERY: &'static str = "trending stocks today";

/// Merging news keeps exactly the keys of the articles merged.
pub proof fn law_merged_news_keeps_every_key(v: Seq<NewsArticleView>, k: Seq<char>)
    ensures
        has_key(spec_dedup(v), k) <==> has_key(v, k),
{
    lemma_dedup_keys(v, k);
}

/// Merging news lists each key (id, else title) at most once.
pub proof fn law_merged_news_keys_unique(v: Seq<NewsArticleView>)
    ensures
        forall|i: int, j: int|
            0 <= i < j < spec_dedup(v).len() ==> spec_dedup_key(#[trigger] spec_dedup(v)[i])
                != spec_dedup_key(#[trigger] spec_dedup(v)[j]),
    decreases v.len(),
{
    if v.len() > 0 {
        let init = v.drop_last();
        law_merged_news_keys_unique(init);
        let kept = spec_dedup(init);
        if !has_key(init, spec_dedup_key(v.last())) {
            lemma_dedup_keys(init, spec_dedup_key(v.last()));
            let d = spec_dedup(v);
            assert forall|i: int, j: int| 0 <= i < j < d.len() implies spec_dedup_key(
                #[trigger] d[i],
            ) != spec_dedup_key(#[trigger] d[j]) by {
                assert(d[i] == kept[i]);
                if j < kept.len() {
                    assert(d[j] == kept[j]);
                } else {
                    assert(d[j] == v.last());
                    if spec_dedup_key(kept[i]) == spec_dedup_key(v.last()) {
                        assert(has_key(kept, spec_dedup_key(v.last())));
                    }
                }
            }
        }
    }
}

/// An article read from a search result exists exactly when the result has
/// a title; its id, title, publisher, link (empty when absent) and
/// publication time are the result's members of the same names (`uuid`,
/// `title`, `publisher`, `link`, `providerPublishTime`).
pub proof fn law_search_article_reads_own_keys(item: JsonValue)
    ensures
        spec_search_article(item) is None <==> spec_str_member(item, "title"@) is None,
        spec_search_article(item) matches Some(a) ==> {
            &&& a.uuid == spec_str_member(item, "uuid"@)
            &&& Some(a.title) == spec_str_member(item, "title"@)
            &&& a.publisher == spec_str_member(item, "publisher"@)
            &&& (spec_str_member(item, "link"@) matches Some(l) ==> a.link == l)
            &&& (spec_str_member(item, "link"@) is None ==> a.link.len() == 0)
            &&& a.publish_time == spec_i64_member(item, "providerPublishTime"@)
        },
{
}

} // verus!
