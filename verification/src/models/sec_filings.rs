//! Exhibits of SEC filings.

use vstd::prelude::*;
use crate::collect::{keep_some, lemma_keep_some_take, lemma_take_all};
use crate::dates::{parse_ymd, spec_parse_ymd, spec_utc_date, utc_date};
use crate::error::YahooError;
use crate::json::opt_view;

verus! {

/// An exhibit within an SEC filing.
#[derive(Debug, Clone)]
pub struct SecExhibit {
    pub exhibit_type: String,
    pub url: String,
}

/// A text of the answer, empty when absent.
pub open spec fn or_empty(s: Option<Seq<char>>) -> Seq<char> {
    match s {
        Some(t) => t,
        None => Seq::empty(),
    }
}

impl SecExhibit {
    /// An exhibit from the type and address the answer gives, each empty
    /// when absent.
    pub fn from_parts(exhibit_type: Option<String>, url: Option<String>) -> (e: SecExhibit)
        ensures
            e.exhibit_type@ == or_empty(opt_view(exhibit_type)),
            e.url@ == or_empty(opt_view(url)),
    {
        SecExhibit {
            exhibit_type: match exhibit_type {
                Some(t) => t,
                None => String::new(),
            },
            url: match url {
                Some(u) => u,
                None => String::new(),
            },
        }
    }
}

/// The date of a filing as the answer gives it: text `YYYY-MM-DD`, a Unix
/// time, or an object whose `raw` member may hold a Unix time.
#[derive(Debug, Clone)]
pub enum SecDate {
    Text(String),
    Timestamp(i64),
    Object(Option<i64>),
}

/// A Unix time `chrono` can represent, kept; others dropped.
pub open spec fn spec_valid_ts(ts: i64) -> Option<i64> {
    if spec_utc_date(ts) is Some {
        Some(ts)
    } else {
        None
    }
}

/// The Unix time of a filing date: the UTC midnight of a text date, or
/// the time given; nothing when it cannot be read.
pub open spec fn spec_sec_date(d: SecDate) -> Option<i64> {
    match d {
        SecDate::Text(s) => match spec_parse_ymd(s@) {
            Ok(t) => Some(t),
            Err(_) => None,
        },
        SecDate::Timestamp(ts) => spec_valid_ts(ts),
        SecDate::Object(raw) => match raw {
            Some(ts) => spec_valid_ts(ts),
            None => None,
        },
    }
}

fn valid_ts(ts: i64) -> (r: Option<i64>)
    ensures
        r == spec_valid_ts(ts),
{
    if utc_date(ts).is_some() {
        Some(ts)
    } else {
        None
    }
}

/// Reads the date of a filing.
pub fn parse_sec_date(d: &SecDate) -> (r: Option<i64>)
    ensures
        r == spec_sec_date(*d),
{
    match d {
        SecDate::Text(s) => match parse_ymd(s.as_str()) {
            Ok(t) => Some(t),
            Err(_) => None,
        },
        SecDate::Timestamp(ts) => valid_ts(*ts),
        SecDate::Object(raw) => match raw {
            Some(ts) => valid_ts(*ts),
            None => None,
        },
    }
}

/// A filing as the answer gives it.
#[derive(Debug, Clone)]
pub struct RawFiling {
    pub date: SecDate,
    pub filing_type: Option<String>,
    pub title: Option<String>,
    pub edgar_url: Option<String>,
    pub exhibits: Option<Vec<(Option<String>, Option<String>)>>,
}

/// An SEC filing, dated by a Unix time in seconds.
#[derive(Debug, Clone)]
pub struct SecFiling {
    pub date: i64,
    pub filing_type: String,
    pub title: String,
    pub url: String,
    pub exhibits: Vec<SecExhibit>,
}

/// The filings of a symbol.
#[derive(Debug, Clone)]
pub struct SecFilingsResponse {
    pub symbol: String,
    pub filings: Vec<SecFiling>,
}

/// An exhibit viewed as texts.
pub open spec fn exhibit_view(e: SecExhibit) -> (Seq<char>, Seq<char>) {
    (e.exhibit_type@, e.url@)
}

/// The exhibit the answer's type and address give.
pub open spec fn spec_exhibit(x: (Option<String>, Option<String>)) -> (Seq<char>, Seq<char>) {
    (or_empty(opt_view(x.0)), or_empty(opt_view(x.1)))
}

/// A filing viewed as texts.
pub struct SecFilingView {
    pub date: i64,
    pub filing_type: Seq<char>,
    pub title: Seq<char>,
    pub url: Seq<char>,
    pub exhibits: Seq<(Seq<char>, Seq<char>)>,
}

impl View for SecFiling {
    type V = SecFilingView;

    open spec fn view(&self) -> SecFilingView {
        SecFilingView {
            date: self.date,
            filing_type: self.filing_type@,
            title: self.title@,
            url: self.url@,
            exhibits: self.exhibits@.map_values(|e: SecExhibit| exhibit_view(e)),
        }
    }
}

/// A filing read from the answer: filings whose date cannot be read are
/// dropped; missing texts are empty and missing exhibits none.
pub open spec fn spec_filing(f: RawFiling) -> Option<SecFilingView> {
    match spec_sec_date(f.date) {
        None => None,
        Some(date) => Some(
            SecFilingView {
                date,
                filing_type: or_empty(opt_view(f.filing_type)),
                title: or_empty(opt_view(f.title)),
                url: or_empty(opt_view(f.edgar_url)),
                exhibits: match f.exhibits {
                    Some(xs) => xs@.map_values(|x: (Option<String>, Option<String>)| spec_exhibit(x)),
                    None => Seq::empty(),
                },
            },
        ),
    }
}

/// `spec_filing` as a function value.
pub open spec fn filing_fn() -> spec_fn(RawFiling) -> Option<SecFilingView> {
    |f: RawFiling| spec_filing(f)
}

/// Filings viewed one by one.
pub open spec fn filings_view(v: Seq<SecFiling>) -> Seq<SecFilingView> {
    v.map_values(|f: SecFiling| f@)
}

fn copy_opt(o: &Option<String>) -> (r: Option<String>)
    ensures
        opt_view(r) == opt_view(*o),
{
    match o {
        Some(s) => Some(s.clone()),
        None => None,
    }
}

fn text_or_empty(o: &Option<String>) -> (r: String)
    ensures
        r@ == or_empty(opt_view(*o)),
{
    match o {
        Some(s) => s.clone(),
        None => String::new(),
    }
}

fn filing_from(f: &RawFiling) -> (r: Option<SecFiling>)
    ensures
        match r {
            Some(x) => spec_filing(*f) == Some(x@),
            None => spec_filing(*f) is None,
        },
{
    let date = parse_sec_date(&f.date)?;
    let mut exhibits: Vec<SecExhibit> = Vec::new();
    match &f.exhibits {
        Some(xs) => {
            let mut i: usize = 0;
            while i < xs.len()
                invariant
                    i <= xs@.len(),
                    exhibits@.map_values(|e: SecExhibit| exhibit_view(e)) == xs@.take(
                        i as int,
                    ).map_values(|x: (Option<String>, Option<String>)| spec_exhibit(x)),
                decreases xs@.len() - i,
            {
                let e = SecExhibit::from_parts(copy_opt(&xs[i].0), copy_opt(&xs[i].1));
                let ghost before = exhibits@;
                exhibits.push(e);
                assert(exhibits@.map_values(|e: SecExhibit| exhibit_view(e)) =~= before.map_values(
                    |e: SecExhibit| exhibit_view(e),
                ).push(exhibit_view(e)));
                assert(xs@.take(i + 1).map_values(
                    |x: (Option<String>, Option<String>)| spec_exhibit(x),
                ) =~= xs@.take(i as int).map_values(
                    |x: (Option<String>, Option<String>)| spec_exhibit(x),
                ).push(spec_exhibit(xs@[i as int])));
                i = i + 1;
            }
            assert(xs@.take(xs@.len() as int) =~= xs@);
        },
        None => {
            assert(exhibits@.map_values(|e: SecExhibit| exhibit_view(e)) =~= Seq::<
                (Seq<char>, Seq<char>),
            >::empty());
        },
    }
    Some(
        SecFiling {
            date,
            filing_type: text_or_empty(&f.filing_type),
            title: text_or_empty(&f.title),
            url: text_or_empty(&f.edgar_url),
            exhibits,
        },
    )
}

impl SecFilingsResponse {
    /// The filings of a symbol from the filings of an answer's first result
    /// (absent when the answer has none).
    pub fn from_filings(symbol: String, filings: Option<&Vec<RawFiling>>) -> (r: Result<
        SecFilingsResponse,
        YahooError,
    >)
        ensures
            match filings {
                None => r matches Err(YahooError::ParseError(m)) && m@
                    == "No SEC filings data in response"@,
                Some(fs) => r matches Ok(resp) && resp.symbol == symbol && filings_view(
                    resp.filings@,
                ) == keep_some(fs@.map_values(filing_fn())),
            },
    {
        let fs = match filings {
            Some(fs) => fs,
            None => {
                return Err(YahooError::ParseError("No SEC filings data in response".to_owned()));
            },
        };
        let mut out: Vec<SecFiling> = Vec::new();
        let mut i: usize = 0;
        while i < fs.len()
            invariant
                i <= fs@.len(),
                filings_view(out@) == keep_some(fs@.take(i as int).map_values(filing_fn())),
            decreases fs@.len() - i,
        {
            proof {
                lemma_keep_some_take(fs@, filing_fn(), i as int);
            }
            let ghost before = out@;
            match filing_from(&fs[i]) {
                Some(x) => {
                    out.push(x);
                    assert(filings_view(out@) =~= filings_view(before).push(x@));
                },
                None => {},
            }
            i = i + 1;
        }
        proof {
            lemma_take_all(fs@);
        }
        Ok(SecFilingsResponse { symbol, filings: out })
    }
}

} // verus!
