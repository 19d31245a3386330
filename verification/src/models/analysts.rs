//! Analyst data as served by the client.

use vstd::prelude::*;

verus! {

/// Kind of analyst data.
#[derive(Debug, Clone, Copy, PartialEq, Eq, Structural)]
pub enum AnalysisType {
    Recommendations,
    UpgradesDowngrades,
    PriceTargets,
    EarningsEstimate,
    RevenueEstimate,
    EarningsHistory,
}

impl AnalysisType {
    /// The name of the kind.
    pub open spec fn spec_name(self) -> Seq<char> {
        match self {
            AnalysisType::Recommendations => "recommendations"@,
            AnalysisType::UpgradesDowngrades => "upgrades_downgrades"@,
            AnalysisType::PriceTargets => "price_targets"@,
            AnalysisType::EarningsEstimate => "earnings_estimate"@,
            AnalysisType::RevenueEstimate => "revenue_estimate"@,
            AnalysisType::EarningsHistory => "earnings_history"@,
        }
    }

    /// The name of the kind.
    pub fn as_str(&self) -> (s: &'static str)
        ensures
            s@ == self.spec_name(),
    {
        match self {
            AnalysisType::Recommendations => "recommendations",
            AnalysisType::UpgradesDowngrades => "upgrades_downgrades",
            AnalysisType::PriceTargets => "price_targets",
            AnalysisType::EarningsEstimate => "earnings_estimate",
            AnalysisType::RevenueEstimate => "revenue_estimate",
            AnalysisType::EarningsHistory => "earnings_history",
        }
    }
}

/// Analyst recommendation counts for a period; a count may be unknown.
#[derive(Debug, Clone)]
pub struct RecommendationData {
    pub period: String,
    pub strong_buy: Option<i32>,
    pub buy: Option<i32>,
    pub hold: Option<i32>,
    pub sell: Option<i32>,
    pub strong_sell: Option<i32>,
}

/// EPS revisions showing analyst estimate changes.
#[derive(Debug, Clone)]
pub struct EpsRevisions {
    pub period: String,
    pub up_last_7_days: Option<i32>,
    pub up_last_30_days: Option<i32>,
    pub down_last_7_days: Option<i32>,
    pub down_last_30_days: Option<i32>,
}

/// The recommendations for a symbol.
#[derive(Debug, Clone)]
pub struct RecommendationsResponse {
    pub symbol: String,
    pub recommendations: Vec<RecommendationData>,
}

/// The EPS revisions for a symbol.
#[derive(Debug, Clone)]
pub struct EpsRevisionsResponse {
    pub symbol: String,
    pub eps_revisions: Vec<EpsRevisions>,
}

} // verus!
