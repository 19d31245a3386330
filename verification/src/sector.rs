//! Market sectors and the SPDR sector ETFs that stand for them.

use vstd::prelude::*;
use crate::client::requests::Request;
use crate::decimal::{spec_nat_decimal, u64_to_string};
use crate::error::YahooError;
use crate::json::{opt_view, spec_i64_member, spec_number_member, i64_member, number_member, JsonValue, Number};
use crate::streaming::{result_identity, spec_result_name, text_or_empty};
use crate::text::{contains, spec_contains, str_eq};

verus! {

/// Market sectors tracked through their representative SPDR sector ETFs.
#[derive(Debug, Clone, Copy, PartialEq, Eq, Structural)]
pub enum Sector {
    Technology,
    Healthcare,
    FinancialServices,
    ConsumerCyclical,
    Industrials,
    ConsumerDefensive,
    Energy,
    RealEstate,
    Utilities,
    BasicMaterials,
    Communication,
}

/// Ticker of the ETF that stands for a sector.
pub open spec fn spec_sector_etf(sector: Sector) -> Seq<char> {
    match sector {
        Sector::Technology => "XLK"@,
        Sector::Healthcare => "XLV"@,
        Sector::FinancialServices => "XLF"@,
        Sector::ConsumerCyclical => "XLY"@,
        Sector::Industrials => "XLI"@,
        Sector::ConsumerDefensive => "XLP"@,
        Sector::Energy => "XLE"@,
        Sector::RealEstate => "XLRE"@,
        Sector::Utilities => "XLU"@,
        Sector::BasicMaterials => "XLB"@,
        Sector::Communication => "XLC"@,
    }
}

/// Map sector to its representative ETF symbol.
pub fn sector_to_etf(sector: Sector) -> (etf: &'static str)
    ensures
        etf@ == spec_sector_etf(sector),
{
    match sector {
        Sector::Technology => "XLK",
        Sector::Healthcare => "XLV",
        Sector::FinancialServices => "XLF",
        Sector::ConsumerCyclical => "XLY",
        Sector::Industrials => "XLI",
        Sector::ConsumerDefensive => "XLP",
        Sector::Energy => "XLE",
        Sector::RealEstate => "XLRE",
        Sector::Utilities => "XLU",
        Sector::BasicMaterials => "XLB",
        Sector::Communication => "XLC",
    }
}

/// The eleven sectors, in their usual order.
pub open spec fn spec_all_sectors() -> Seq<Sector> {
    seq![
        Sector::Technology,
        Sector::Healthcare,
        Sector::FinancialServices,
        Sector::ConsumerCyclical,
        Sector::Industrials,
        Sector::ConsumerDefensive,
        Sector::Energy,
        Sector::RealEstate,
        Sector::Utilities,
        Sector::BasicMaterials,
        Sector::Communication,
    ]
}

/// The display name of a sector.
pub open spec fn spec_sector_name(sector: Sector) -> Seq<char> {
    match sector {
        Sector::Technology => "Technology"@,
        Sector::Healthcare => "Healthcare"@,
        Sector::FinancialServices => "Financial Services"@,
        Sector::ConsumerCyclical => "Consumer Cyclical"@,
        Sector::Industrials => "Industrials"@,
        Sector::ConsumerDefensive => "Consumer Defensive"@,
        Sector::Energy => "Energy"@,
        Sector::RealEstate => "Real Estate"@,
        Sector::Utilities => "Utilities"@,
        Sector::BasicMaterials => "Basic Materials"@,
        Sector::Communication => "Communication Services"@,
    }
}

impl Sector {
    /// Every sector, in the usual order.
    pub fn all() -> (v: Vec<Sector>)
        ensures
            v@ == spec_all_sectors(),
    {
        let v = vec![
            Sector::Technology,
            Sector::Healthcare,
            Sector::FinancialServices,
            Sector::ConsumerCyclical,
            Sector::Industrials,
            Sector::ConsumerDefensive,
            Sector::Energy,
            Sector::RealEstate,
            Sector::Utilities,
            Sector::BasicMaterials,
            Sector::Communication,
        ];
        assert(v@ =~= spec_all_sectors());
        v
    }

    /// The display name of the sector.
    pub fn as_str(&self) -> (s: &'static str)
        ensures
            s@ == spec_sector_name(*self),
    {
        match self {
            Sector::Technology => "Technology",
            Sector::Healthcare => "Healthcare",
            Sector::FinancialServices => "Financial Services",
            Sector::ConsumerCyclical => "Consumer Cyclical",
            Sector::Industrials => "Industrials",
            Sector::ConsumerDefensive => "Consumer Defensive",
            Sector::Energy => "Energy",
            Sector::RealEstate => "Real Estate",
            Sector::Utilities => "Utilities",
            Sector::BasicMaterials => "Basic Materials",
            Sector::Communication => "Communication Services",
        }
    }
}

/// Get all available sectors.
pub fn get_all_sectors() -> (v: Vec<Sector>)
    ensures
        v@ == spec_all_sectors(),
{
    Sector::all()
}

/// The ETF symbols of all sectors, in the order of the sectors.
pub open spec fn spec_all_sector_etfs() -> Seq<Seq<char>> {
    spec_all_sectors().map_values(|s: Sector| spec_sector_etf(s))
}

/// Get all sector ETF symbols.
pub fn get_all_sector_etfs() -> (v: Vec<&'static str>)
    ensures
        v@.map_values(|e: &str| e@) == spec_all_sector_etfs(),
{
    let v = vec!["XLK", "XLV", "XLF", "XLY", "XLI", "XLP", "XLE", "XLRE", "XLU", "XLB", "XLC"];
    assert(v@.map_values(|e: &str| e@) =~= spec_all_sector_etfs());
    v
}

/// The sector name an ETF symbol stands for, or `Unknown`.
pub open spec fn spec_etf_sector_name(etf: Seq<char>) -> Seq<char> {
    if etf == "XLK"@ {
        "Technology"@
    } else if etf == "XLV"@ {
        "Healthcare"@
    } else if etf == "XLF"@ {
        "Financial Services"@
    } else if etf == "XLY"@ {
        "Consumer Cyclical"@
    } else if etf == "XLI"@ {
        "Industrials"@
    } else if etf == "XLP"@ {
        "Consumer Defensive"@
    } else if etf == "XLE"@ {
        "Energy"@
    } else if etf == "XLRE"@ {
        "Real Estate"@
    } else if etf == "XLU"@ {
        "Utilities"@
    } else if etf == "XLB"@ {
        "Basic Materials"@
    } else if etf == "XLC"@ {
        "Communication Services"@
    } else {
        "Unknown"@
    }
}

/// Map an ETF symbol to its sector name.
pub fn etf_to_sector_name(etf: &str) -> (name: &'static str)
    ensures
        name@ == spec_etf_sector_name(etf@),
{
    if str_eq(etf, "XLK") {
        "Technology"
    } else if str_eq(etf, "XLV") {
        "Healthcare"
    } else if str_eq(etf, "XLF") {
        "Financial Services"
    } else if str_eq(etf, "XLY") {
        "Consumer Cyclical"
    } else if str_eq(etf, "XLI") {
        "Industrials"
    } else if str_eq(etf, "XLP") {
        "Consumer Defensive"
    } else if str_eq(etf, "XLE") {
        "Energy"
    } else if str_eq(etf, "XLRE") {
        "Real Estate"
    } else if str_eq(etf, "XLU") {
        "Utilities"
    } else if str_eq(etf, "XLB") {
        "Basic Materials"
    } else if str_eq(etf, "XLC") {
        "Communication Services"
    } else {
        "Unknown"
    }
}

/// Get the screener ID for a sector: Yahoo Finance has no screener per
/// sector, so the most active stocks stand in for every sector.
pub fn get_screener_id_for_sector(sector: Sector) -> (id: &'static str)
    ensures
        id@ == "most_actives"@,
{
    "most_actives"
}

/// The ETF of every sector leads back to the sector: its name is the
/// sector's display name.
pub proof fn law_etf_names_its_sector(sector: Sector)
    ensures
        spec_etf_sector_name(spec_sector_etf(sector)) == spec_sector_name(sector),
{
    reveal_strlit("XLK");
    reveal_strlit("XLV");
    reveal_strlit("XLF");
    reveal_strlit("XLY");
    reveal_strlit("XLI");
    reveal_strlit("XLP");
    reveal_strlit("XLE");
    reveal_strlit("XLRE");
    reveal_strlit("XLU");
    reveal_strlit("XLB");
    reveal_strlit("XLC");
    assert("XLK"@[2] == 'K');
    assert("XLV"@[2] == 'V');
    assert("XLF"@[2] == 'F');
    assert("XLY"@[2] == 'Y');
    assert("XLI"@[2] == 'I');
    assert("XLP"@[2] == 'P');
    assert("XLE"@[2] == 'E');
    assert("XLRE"@.len() == 4);
    assert("XLU"@[2] == 'U');
    assert("XLB"@[2] == 'B');
    assert("XLC"@[2] == 'C');
}

/// Every sector is listed once by `get_all_sectors`.
pub proof fn law_all_sectors_listed_once(sector: Sector)
    ensures
        spec_all_sectors().contains(sector),
        forall|i: int, j: int|
            0 <= i < j < spec_all_sectors().len() ==> spec_all_sectors()[i] != spec_all_sectors()[j],
{
    let all = spec_all_sectors();
    match sector {
        Sector::Technology => assert(all[0] == sector),
        Sector::Healthcare => assert(all[1] == sector),
        Sector::FinancialServices => assert(all[2] == sector),
        Sector::ConsumerCyclical => assert(all[3] == sector),
        Sector::Industrials => assert(all[4] == sector),
        Sector::ConsumerDefensive => assert(all[5] == sector),
        Sector::Energy => assert(all[6] == sector),
        Sector::RealEstate => assert(all[7] == sector),
        Sector::Utilities => assert(all[8] == sector),
        Sector::BasicMaterials => assert(all[9] == sector),
        Sector::Communication => assert(all[10] == sector),
    }
}

/// The sector ETFs are eleven distinct symbols; each names a sector, and
/// any symbol outside the list names none (`Unknown`).
pub proof fn law_sector_etf_list(x: Seq<char>)
    ensures
        spec_all_sector_etfs().len() == 11,
        forall|i: int, j: int|
            0 <= i < j < spec_all_sector_etfs().len() ==> spec_all_sector_etfs()[i]
                != spec_all_sector_etfs()[j],
        spec_all_sector_etfs().contains(x) ==> spec_etf_sector_name(x) != "Unknown"@,
        !spec_all_sector_etfs().contains(x) ==> spec_etf_sector_name(x) == "Unknown"@,
{
    reveal_strlit("XLK");
    reveal_strlit("XLV");
    reveal_strlit("XLF");
    reveal_strlit("XLY");
    reveal_strlit("XLI");
    reveal_strlit("XLP");
    reveal_strlit("XLE");
    reveal_strlit("XLRE");
    reveal_strlit("XLU");
    reveal_strlit("XLB");
    reveal_strlit("XLC");
    reveal_strlit("Unknown");
    reveal_strlit("Technology");
    reveal_strlit("Healthcare");
    reveal_strlit("Financial Services");
    reveal_strlit("Consumer Cyclical");
    reveal_strlit("Industrials");
    reveal_strlit("Consumer Defensive");
    reveal_strlit("Energy");
    reveal_strlit("Real Estate");
    reveal_strlit("Utilities");
    reveal_strlit("Basic Materials");
    reveal_strlit("Communication Services");
    let all = spec_all_sector_etfs();
    assert(all[0] == "XLK"@);
    assert(all[1] == "XLV"@);
    assert(all[2] == "XLF"@);
    assert(all[3] == "XLY"@);
    assert(all[4] == "XLI"@);
    assert(all[5] == "XLP"@);
    assert(all[6] == "XLE"@);
    assert(all[7] == "XLRE"@);
    assert(all[8] == "XLU"@);
    assert(all[9] == "XLB"@);
    assert(all[10] == "XLC"@);
    assert forall|i: int, j: int| 0 <= i < j < all.len() implies all[i] != all[j] by {
        assert(all[i][2] != all[j][2]);
    }
    if all.contains(x) {
        let k = choose|k: int| 0 <= k < all.len() && all[k] == x;
        let unknown_len = "Unknown"@.len();
        if k == 0 {
            assert(spec_etf_sector_name(x).len() != unknown_len);
        } else if k == 1 {
            assert(spec_etf_sector_name(x).len() != unknown_len);
        } else if k == 2 {
            assert(spec_etf_sector_name(x).len() != unknown_len);
        } else if k == 3 {
            assert(spec_etf_sector_name(x).len() != unknown_len);
        } else if k == 4 {
            assert(spec_etf_sector_name(x).len() != unknown_len);
        } else if k == 5 {
            assert(spec_etf_sector_name(x).len() != unknown_len);
        } else if k == 6 {
            assert(spec_etf_sector_name(x).len() != unknown_len);
        } else if k == 7 {
            assert(spec_etf_sector_name(x).len() != unknown_len);
        } else if k == 8 {
            assert(spec_etf_sector_name(x).len() != unknown_len);
        } else if k == 9 {
            assert(spec_etf_sector_name(x).len() != unknown_len);
        } else {
            assert(spec_etf_sector_name(x).len() != unknown_len);
        }
    } else {
        assert(x != all[0]);
        assert(x != all[1]);
        assert(x != all[2]);
        assert(x != all[3]);
        assert(x != all[4]);
        assert(x != all[5]);
        assert(x != all[6]);
        assert(x != all[7]);
        assert(x != all[8]);
        assert(x != all[9]);
        assert(x != all[10]);
    }
}

/// The results of a quote answer, or the error when it has none.
pub open spec fn spec_quote_response_results(data: JsonValue) -> Option<Seq<JsonValue>> {
    match data.spec_get("quoteResponse"@) {
        Some(qr) => match qr.spec_get("result"@) {
            Some(r) => r.spec_as_array(),
            None => None,
        },
        None => None,
    }
}

fn quote_response_results(data: &JsonValue) -> (r: Result<&Vec<JsonValue>, YahooError>)
    ensures
        match spec_quote_response_results(*data) {
            Some(items) => r matches Ok(v) && v@ == items,
            None => r matches Err(YahooError::ParseError(m)) && m@ == "No quote results found"@,
        },
{
    let found = match data.get("quoteResponse") {
        Some(qr) => match qr.get("result") {
            Some(r) => r.as_array(),
            None => None,
        },
        None => None,
    };
    match found {
        Some(v) => Ok(v),
        None => Err(YahooError::ParseError("No quote results found".to_owned())),
    }
}

/// The quote a sector's performance is read from: the first result of a
/// quote answer.
pub fn first_sector_quote(data: &JsonValue) -> (r: Result<&JsonValue, YahooError>)
    ensures
        match spec_quote_response_results(*data) {
            None => r matches Err(YahooError::ParseError(m)) && m@ == "No quote results found"@,
            Some(items) => if items.len() > 0 {
                r matches Ok(q) && *q == items[0]
            } else {
                r matches Err(YahooError::ParseError(m)) && m@ == "No sector data found"@
            },
        },
{
    let results = quote_response_results(data)?;
    if results.len() > 0 {
        Ok(&results[0])
    } else {
        Err(YahooError::ParseError("No sector data found".to_owned()))
    }
}

/// The results of a quote answer that are sector ETFs: each position
/// with its sector name, in order.
pub open spec fn spec_sector_entries(items: Seq<JsonValue>) -> Seq<(usize, Seq<char>)>
    decreases items.len(),
{
    if items.len() == 0 {
        Seq::empty()
    } else {
        let kept = spec_sector_entries(items.drop_last());
        let name = spec_etf_sector_name(text_or_empty(items.last().spec_get("symbol"@)));
        if name == "Unknown"@ {
            kept
        } else {
            kept.push(((items.len() - 1) as usize, name))
        }
    }
}

/// The entries viewed as texts.
pub open spec fn entries_view(v: Seq<(usize, &str)>) -> Seq<(usize, Seq<char>)> {
    v.map_values(|e: (usize, &str)| (e.0, e.1@))
}

/// The sector ETFs among the results of a quote answer: the position of
/// each and the name of its sector, skipping any other symbol.
pub fn sector_entries(data: &JsonValue) -> (r: Result<Vec<(usize, &'static str)>, YahooError>)
    ensures
        match spec_quote_response_results(*data) {
            Some(items) => r matches Ok(v) && entries_view(v@) == spec_sector_entries(items),
            None => r matches Err(YahooError::ParseError(m)) && m@ == "No quote results found"@,
        },
{
    let results = quote_response_results(data)?;
    let mut out: Vec<(usize, &'static str)> = Vec::new();
    let mut i: usize = 0;
    while i < results.len()
        invariant
            i <= results@.len(),
            entries_view(out@) == spec_sector_entries(results@.take(i as int)),
        decreases results@.len() - i,
    {
        let (symbol, _) = result_identity(&results[i]);
        let name = etf_to_sector_name(symbol.as_str());
        assert(results@.take(i + 1).drop_last() =~= results@.take(i as int));
        assert(results@.take(i + 1).last() == results@[i as int]);
        proof {
            reveal_strlit("Unknown");
        }
        let ghost before = out@;
        if !str_eq(name, "Unknown") {
            out.push((i, name));
            assert(entries_view(out@) =~= entries_view(before).push((i, name@)));
        }
        i = i + 1;
    }
    assert(results@.take(results@.len() as int) =~= results@);
    Ok(out)
}

/// A company within a sector, as a screener lists it.
#[derive(Debug, Clone)]
pub struct SectorCompany {
    pub symbol: String,
    pub name: String,
    pub price: Option<Number>,
    pub change: Option<Number>,
    pub percent_change: Option<Number>,
    pub market_cap: Option<i64>,
}

/// A screener company with its texts as character sequences.
pub struct SectorCompanyView {
    pub symbol: Seq<char>,
    pub name: Seq<char>,
    pub price: Option<Number>,
    pub change: Option<Number>,
    pub percent_change: Option<Number>,
    pub market_cap: Option<i64>,
}

impl View for SectorCompany {
    type V = SectorCompanyView;

    open spec fn view(&self) -> SectorCompanyView {
        SectorCompanyView {
            symbol: self.symbol@,
            name: self.name@,
            price: self.price,
            change: self.change,
            percent_change: self.percent_change,
            market_cap: self.market_cap,
        }
    }
}

/// A screener entry is kept when its symbol is not empty and has no dot
/// (which marks a listing abroad).
pub open spec fn spec_keeps_symbol(symbol: Seq<char>) -> bool {
    symbol.len() > 0 && !spec_contains(symbol, "."@)
}

/// The companies of a screener's quotes, in order.
pub open spec fn spec_companies(quotes: Seq<JsonValue>) -> Seq<SectorCompanyView>
    decreases quotes.len(),
{
    if quotes.len() == 0 {
        Seq::empty()
    } else {
        let kept = spec_companies(quotes.drop_last());
        let q = quotes.last();
        let symbol = text_or_empty(q.spec_get("symbol"@));
        if spec_keeps_symbol(symbol) {
            kept.push(
                SectorCompanyView {
                    symbol,
                    name: spec_result_name(q),
                    price: spec_number_member(q, "regularMarketPrice"@),
                    change: spec_number_member(q, "regularMarketChange"@),
                    percent_change: spec_number_member(q, "regularMarketChangePercent"@),
                    market_cap: spec_i64_member(q, "marketCap"@),
                },
            )
        } else {
            kept
        }
    }
}

/// The quotes of a screener answer (`finance.result[0].quotes`).
pub open spec fn spec_screener_quotes(data: JsonValue) -> Option<Seq<JsonValue>> {
    match data.spec_get("finance"@) {
        Some(f) => match f.spec_get("result"@) {
            Some(r) => match r.spec_at(0) {
                Some(first) => match first.spec_get("quotes"@) {
                    Some(q) => q.spec_as_array(),
                    None => None,
                },
                None => None,
            },
            None => None,
        },
        None => None,
    }
}

/// Companies viewed one by one.
pub open spec fn companies_view(v: Seq<SectorCompany>) -> Seq<SectorCompanyView> {
    v.map_values(|c: SectorCompany| c@)
}

/// The companies a screener answer lists.
pub fn parse_companies_from_screener(data: &JsonValue) -> (r: Result<Vec<SectorCompany>, YahooError>)
    ensures
        match spec_screener_quotes(*data) {
            Some(quotes) => r matches Ok(v) && companies_view(v@) == spec_companies(quotes),
            None => r matches Err(YahooError::ParseError(m)) && m@ == "No screener results found"@,
        },
{
    let found = match data.get("finance") {
        Some(f) => match f.get("result") {
            Some(r) => match r.at(0) {
                Some(first) => match first.get("quotes") {
                    Some(q) => q.as_array(),
                    None => None,
                },
                None => None,
            },
            None => None,
        },
        None => None,
    };
    let quotes = match found {
        Some(q) => q,
        None => {
            return Err(YahooError::ParseError("No screener results found".to_owned()));
        },
    };
    let mut out: Vec<SectorCompany> = Vec::new();
    let mut i: usize = 0;
    while i < quotes.len()
        invariant
            i <= quotes@.len(),
            companies_view(out@) == spec_companies(quotes@.take(i as int)),
        decreases quotes@.len() - i,
    {
        let q = &quotes[i];
        assert(quotes@.take(i + 1).drop_last() =~= quotes@.take(i as int));
        assert(quotes@.take(i + 1).last() == quotes@[i as int]);
        let (symbol, name) = result_identity(q);
        let ghost before = out@;
        if symbol.unicode_len() > 0 && !contains(symbol.as_str(), ".") {
            let c = SectorCompany {
                symbol,
                name,
                price: number_member(q, "regularMarketPrice"),
                change: number_member(q, "regularMarketChange"),
                percent_change: number_member(q, "regularMarketChangePercent"),
                market_cap: i64_member(q, "marketCap"),
            };
            out.push(c);
            assert(companies_view(out@) =~= companies_view(before).push(c@));
        }
        i = i + 1;
    }
    assert(quotes@.take(quotes@.len() as int) =~= quotes@);
    Ok(out)
}


/// The most companies a sector's screener request asks for.
pub const MAX_SECTOR_COMPANIES: usize = 25;

/// The address of the screener request for the top `count` companies of a
/// sector (at most `MAX_SECTOR_COMPANIES`).
pub open spec fn spec_sector_screener_url(count: usize) -> Seq<char> {
    let n: usize = if count < MAX_SECTOR_COMPANIES {
        count
    } else {
        MAX_SECTOR_COMPANIES
    };
    "https://query1.finance.yahoo.com/v1/finance/screener/predefined/saved?count="@
        + spec_nat_decimal(n as nat) + "&scrIds="@ + "most_actives"@
}

/// The screener request for the top `count` companies of a sector: the
/// query is part of the address, and no parameter is added.
pub fn sector_screener_request(sector: Sector, count: usize) -> (r: Request)
    ensures
        r.url@ == spec_sector_screener_url(count),
        r.params@.len() == 0,
{
    let n: usize = if count < MAX_SECTOR_COMPANIES {
        count
    } else {
        MAX_SECTOR_COMPANIES
    };
    let mut url = "https://query1.finance.yahoo.com/v1/finance/screener/predefined/saved?count=".to_owned();
    let digits = u64_to_string(n as u64);
    url.append(digits.as_str());
    url.append("&scrIds=");
    url.append(get_screener_id_for_sector(sector));
    Request { url, params: Vec::new() }
}

} // verus!
