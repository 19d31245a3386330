//! Market movers: the most active stocks, gainers and losers.

use vstd::prelude::*;
use crate::text::str_eq;

verus! {

/// How many movers to fetch per category.
#[derive(Debug, Clone, Copy, PartialEq, Eq, Structural)]
pub enum MoverCount {
    TwentyFive,
    Fifty,
    Hundred,
}

impl MoverCount {
    /// The count as Yahoo Finance writes it.
    pub open spec fn spec_name(self) -> Seq<char> {
        match self {
            MoverCount::TwentyFive => "25"@,
            MoverCount::Fifty => "50"@,
            MoverCount::Hundred => "100"@,
        }
    }

    /// The count named by a text, if any.
    pub open spec fn spec_from_str(s: Seq<char>) -> Option<MoverCount> {
        if s == "25"@ {
            Some(MoverCount::TwentyFive)
        } else if s == "50"@ {
            Some(MoverCount::Fifty)
        } else if s == "100"@ {
            Some(MoverCount::Hundred)
        } else {
            None
        }
    }

    /// The count as Yahoo Finance writes it.
    pub fn as_str(&self) -> (s: &'static str)
        ensures
            s@ == self.spec_name(),
    {
        match self {
            MoverCount::TwentyFive => "25",
            MoverCount::Fifty => "50",
            MoverCount::Hundred => "100",
        }
    }

    /// The count named by a text, if any.
    pub fn from_str(s: &str) -> (r: Option<MoverCount>)
        ensures
            r == Self::spec_from_str(s@),
    {
        if str_eq(s, "25") {
            Some(MoverCount::TwentyFive)
        } else if str_eq(s, "50") {
            Some(MoverCount::Fifty)
        } else if str_eq(s, "100") {
            Some(MoverCount::Hundred)
        } else {
            None
        }
    }
}

impl Default for MoverCount {
    fn default() -> (c: MoverCount)
        ensures
            c == MoverCount::Fifty,
    {
        MoverCount::Fifty
    }
}

/// Reading back the name of a count gives the count.
pub proof fn law_mover_count_round_trip(c: MoverCount)
    ensures
        MoverCount::spec_from_str(c.spec_name()) == Some(c),
{
    reveal_strlit("25");
    reveal_strlit("50");
    reveal_strlit("100");
    assert("25"@[0] != "50"@[0]);
    assert("25"@.len() != "100"@.len());
    assert("50"@.len() != "100"@.len());
}

/// A text that names a count is that count's name.
pub proof fn law_mover_count_names(s: Seq<char>)
    ensures
        MoverCount::spec_from_str(s) matches Some(c) ==> c.spec_name() == s,
{
}

/// A stock among the movers, with its figures as Yahoo Finance formats them.
#[derive(Debug, Clone)]
pub struct MarketMover {
    pub symbol: String,
    pub name: String,
    pub price: String,
    pub change: String,
    pub percent_change: String,
}

} // verus!
