//! Results of a symbol search.

use vstd::prelude::*;

verus! {

/// One symbol found by a search.
#[derive(Debug, Clone)]
pub struct SearchResult {
    pub symbol: String,
    pub name: String,
    pub exchange: Option<String>,
    pub quote_type: Option<String>,
}

/// The symbols found by a search.
#[derive(Debug, Clone)]
pub struct SearchResponse {
    pub results: Vec<SearchResult>,
}

} // verus!
