//! A news item as listed on a quote page.

use vstd::prelude::*;

verus! {

/// A news item.
#[derive(Debug, Clone)]
pub struct News {
    pub title: String,
    pub link: String,
    pub source: String,
    pub img: String,
    pub time: String,
}

} // verus!
