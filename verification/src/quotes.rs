//! What the library derives from quote data: the logo address of a company.

use vstd::prelude::*;
use vstd::string::*;
use crate::json::{opt_view, spec_str_member, spec_summary_module, str_member, summary_module, JsonValue};
use crate::split::{lemma_split_nonempty, spec_before_first, spec_split, split_char};
use crate::text::{spec_starts_with, starts_with};

verus! {

/// `s` without any number of leading copies of `p` (`str::trim_start_matches`).
pub open spec fn spec_trim_start_matches(s: Seq<char>, p: Seq<char>) -> Seq<char>
    decreases s.len(),
{
    if p.len() > 0 && spec_starts_with(s, p) {
        spec_trim_start_matches(s.skip(p.len() as int), p)
    } else {
        s
    }
}

/// Removes every leading copy of `p` from `s`.
pub fn trim_start_matches<'a>(s: &'a str, p: &str) -> (r: &'a str)
    ensures
        r@ == spec_trim_start_matches(s@, p@),
{
    let plen = p.unicode_len();
    if plen == 0 {
        return s;
    }
    let n = s.unicode_len();
    let mut start: usize = 0;
    assert(s@.skip(0) =~= s@);
    while plen <= n - start && starts_with(s.substring_char(start, n), p)
        invariant
            n == s@.len(),
            plen == p@.len(),
            plen > 0,
            start <= n,
            spec_trim_start_matches(s@, p@) == spec_trim_start_matches(s@.skip(start as int), p@),
        decreases n - start,
    {
        proof {
            assert(s@.subrange(start as int, n as int) =~= s@.skip(start as int));
            assert(s@.skip(start as int).skip(plen as int) =~= s@.skip(start + plen));
        }
        start = start + plen;
    }
    proof {
        assert(s@.subrange(start as int, n as int) =~= s@.skip(start as int));
        if plen > n - start {
            assert(!spec_starts_with(s@.skip(start as int), p@));
        }
    }
    s.substring_char(start, n)
}

/// The domain of a website address: without scheme and `www.`, up to the
/// first `/`.
pub open spec fn spec_domain(website: Seq<char>) -> Seq<char> {
    spec_before_first(
        spec_trim_start_matches(
            spec_trim_start_matches(spec_trim_start_matches(website, "https://"@), "http://"@),
            "www."@,
        ),
        '/',
    )
}

/// The domain of a website address.
pub fn domain_of(website: &str) -> (d: String)
    ensures
        d@ == spec_domain(website@),
{
    let a = trim_start_matches(website, "https://");
    let b = trim_start_matches(a, "http://");
    let c = trim_start_matches(b, "www.");
    let pieces = split_char(c, '/');
    proof {
        lemma_split_nonempty(c@, '/');
        assert(pieces@.map_values(|p: &str| p@).len() == pieces@.len());
    }
    let first = pieces[0];
    assert(first@ == spec_split(c@, '/')[0]);
    first.to_owned()
}

/// The logo address of a company with a website.
pub open spec fn spec_logo_url(website: Seq<char>) -> Seq<char> {
    "https://logo.clearbit.com/"@ + spec_domain(website)
}

/// The logo address a `quoteSummary` answer with an asset profile leads
/// to: the logo service's image for the domain of the company's website.
pub open spec fn spec_logo_url_from_summary(json: JsonValue) -> Option<Seq<char>> {
    match spec_summary_module(json, "assetProfile"@) {
        Some(profile) => match spec_str_member(profile, "website"@) {
            Some(w) => Some(spec_logo_url(w)),
            None => None,
        },
        None => None,
    }
}

/// The logo address a `quoteSummary` answer with an asset profile leads to.
pub fn logo_url_from_summary(json: &JsonValue) -> (r: Option<String>)
    ensures
        opt_view(r) == spec_logo_url_from_summary(*json),
{
    let profile = summary_module(json, "assetProfile")?;
    let website = str_member(profile, "website")?;
    let domain = domain_of(website.as_str());
    let mut url = "https://logo.clearbit.com/".to_owned();
    url.append(domain.as_str());
    Some(url)
}

} // verus!
