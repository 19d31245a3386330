//! Industries and their leading companies; figures are of any copyable
//! type `P`, which the library only carries.

use vstd::prelude::*;
use crate::json::opt_view;

verus! {

/// A company among an industry's leaders.
#[derive(Debug, Clone)]
pub struct IndustryCompany<P> {
    pub symbol: String,
    pub name: String,
    pub ytd_return: Option<P>,
    pub last_price: Option<P>,
    pub target_price: Option<P>,
    pub growth_estimate: Option<P>,
}

/// A company as the answer lists it.
#[derive(Debug, Clone)]
pub struct RawIndustryCompany<P> {
    pub symbol: Option<String>,
    pub name: Option<String>,
    pub ytd_return: Option<P>,
    pub last_price: Option<P>,
    pub target_price: Option<P>,
    pub growth_estimate: Option<P>,
}

/// An industry with its leading companies.
#[derive(Debug, Clone)]
pub struct Industry<P> {
    pub key: String,
    pub name: String,
    pub sector_key: Option<String>,
    pub sector_name: Option<String>,
    pub description: Option<String>,
    pub top_performing_companies: Vec<IndustryCompany<P>>,
    pub top_growth_companies: Vec<IndustryCompany<P>>,
}

/// An industry as the answer gives it.
#[derive(Debug, Clone)]
pub struct IndustryData<P> {
    pub key: Option<String>,
    pub name: Option<String>,
    pub sector_key: Option<String>,
    pub sector_name: Option<String>,
    pub description: Option<String>,
    pub top_performing_companies: Option<Vec<RawIndustryCompany<P>>>,
    pub top_growth_companies: Option<Vec<RawIndustryCompany<P>>>,
}

/// A text of the answer, empty when absent.
pub open spec fn or_empty(s: Option<Seq<char>>) -> Seq<char> {
    match s {
        Some(t) => t,
        None => Seq::empty(),
    }
}

fn text_or_empty(o: Option<String>) -> (r: String)
    ensures
        r@ == or_empty(opt_view(o)),
{
    match o {
        Some(s) => s,
        None => String::new(),
    }
}

/// A leader by performance keeps its return and prices; a leader by growth
/// keeps its return and growth estimate.
pub open spec fn company_matches<P>(c: IndustryCompany<P>, raw: RawIndustryCompany<P>, growth: bool) -> bool {
    &&& c.symbol@ == or_empty(opt_view(raw.symbol))
    &&& c.name@ == or_empty(opt_view(raw.name))
    &&& c.ytd_return == raw.ytd_return
    &&& c.last_price == if growth {
        None
    } else {
        raw.last_price
    }
    &&& c.target_price == if growth {
        None
    } else {
        raw.target_price
    }
    &&& c.growth_estimate == if growth {
        raw.growth_estimate
    } else {
        None
    }
}

/// The companies of a leader list, each matching its entry.
pub open spec fn companies_match<P>(cs: Seq<IndustryCompany<P>>, raws: Option<Seq<RawIndustryCompany<P>>>, growth: bool) -> bool {
    match raws {
        Some(rs) => cs.len() == rs.len() && forall|i: int|
            0 <= i < cs.len() ==> company_matches(#[trigger] cs[i], rs[i], growth),
        None => cs.len() == 0,
    }
}

fn companies_from<P>(raws: Option<Vec<RawIndustryCompany<P>>>, growth: bool) -> (r: Vec<IndustryCompany<P>>)
    ensures
        companies_match(r@, match raws {
            Some(v) => Some(v@),
            None => None,
        }, growth),
{
    let mut out: Vec<IndustryCompany<P>> = Vec::new();
    match raws {
        Some(mut v) => {
            let ghost all = v@;
            let n = v.len();
            let mut i: usize = 0;
            while i < n
                invariant
                    n == all.len(),
                    i <= n,
                    v@ == all.skip(i as int),
                    out@.len() == i,
                    forall|j: int| 0 <= j < i ==> company_matches(#[trigger] out@[j], all[j], growth),
                decreases n - i,
            {
                let c = v.remove(0);
                assert(c == all[i as int]);
                assert(v@ =~= all.skip(i + 1));
                let company = IndustryCompany {
                    symbol: text_or_empty(c.symbol),
                    name: text_or_empty(c.name),
                    ytd_return: c.ytd_return,
                    last_price: if growth {
                        None
                    } else {
                        c.last_price
                    },
                    target_price: if growth {
                        None
                    } else {
                        c.target_price
                    },
                    growth_estimate: if growth {
                        c.growth_estimate
                    } else {
                        None
                    },
                };
                out.push(company);
                i = i + 1;
            }
            out
        },
        None => out,
    }
}

impl<P> Industry<P> {
    /// The industry an answer describes: missing key and name are empty,
    /// missing leader lists are empty.
    pub fn from_data(data: IndustryData<P>) -> (r: Industry<P>)
        ensures
            r.key@ == or_empty(opt_view(data.key)),
            r.name@ == or_empty(opt_view(data.name)),
            r.sector_key == data.sector_key,
            r.sector_name == data.sector_name,
            r.description == data.description,
            companies_match(r.top_performing_companies@, match data.top_performing_companies {
                Some(v) => Some(v@),
                None => None,
            }, false),
            companies_match(r.top_growth_companies@, match data.top_growth_companies {
                Some(v) => Some(v@),
                None => None,
            }, true),
    {
        let IndustryData {
            key,
            name,
            sector_key,
            sector_name,
            description,
            top_performing_companies,
            top_growth_companies,
        } = data;
        Industry {
            key: text_or_empty(key),
            name: text_or_empty(name),
            sector_key,
            sector_name,
            description,
            top_performing_companies: companies_from(top_performing_companies, false),
            top_growth_companies: companies_from(top_growth_companies, true),
        }
    }
}

} // verus!
