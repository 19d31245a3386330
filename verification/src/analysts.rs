//! Analyst data of a stock: recommendations, rating changes and estimate
//! revisions, read from `quoteSummary` answers.

use vstd::prelude::*;
use crate::collect::{keep_some, lemma_keep_some_take, lemma_take_all, opt_seq_view};
use crate::dates::{member_date, spec_member_date};
use crate::json::{
    opt_view, spec_i64_member, spec_number_member, spec_str_member, spec_summary_list,
    spec_summary_module, i64_member, number_member, str_member, summary_list, summary_module,
    JsonValue, Number,
};
use crate::text::{contains, spec_contains, spec_to_lowercase, str_eq, to_lowercase};

verus! {

/// Type of analyst data to fetch.
#[derive(Debug, Clone, Copy, PartialEq, Eq, Structural)]
pub enum AnalysisType {
    /// Analyst recommendations (buy/hold/sell)
    Recommendations,
    /// Upgrades and downgrades
    UpgradesDowngrades,
    /// Price targets
    PriceTargets,
    /// Earnings estimates
    EarningsEstimate,
    /// Revenue estimates
    RevenueEstimate,
    /// Earnings history
    EarningsHistory,
    /// EPS trend
    EpsTrend,
    /// EPS revisions
    EpsRevisions,
    /// Growth estimates
    GrowthEstimates,
}

impl AnalysisType {
    /// The `quoteSummary` module that holds this kind of data.
    pub open spec fn spec_module(self) -> Seq<char> {
        match self {
            AnalysisType::Recommendations => "recommendationTrend"@,
            AnalysisType::UpgradesDowngrades => "upgradeDowngradeHistory"@,
            AnalysisType::PriceTargets => "financialData"@,
            AnalysisType::EarningsEstimate => "earningsTrend"@,
            AnalysisType::RevenueEstimate => "earningsTrend"@,
            AnalysisType::EarningsHistory => "earningsHistory"@,
            AnalysisType::EpsTrend => "earningsTrend"@,
            AnalysisType::EpsRevisions => "earningsTrend"@,
            AnalysisType::GrowthEstimates => "earningsTrend"@,
        }
    }

    /// The `quoteSummary` module that holds this kind of data.
    pub fn as_module(&self) -> (m: &'static str)
        ensures
            m@ == self.spec_module(),
    {
        match self {
            AnalysisType::Recommendations => "recommendationTrend",
            AnalysisType::UpgradesDowngrades => "upgradeDowngradeHistory",
            AnalysisType::PriceTargets => "financialData",
            AnalysisType::EarningsEstimate => "earningsTrend",
            AnalysisType::RevenueEstimate => "earningsTrend",
            AnalysisType::EarningsHistory => "earningsHistory",
            AnalysisType::EpsTrend => "earningsTrend",
            AnalysisType::EpsRevisions => "earningsTrend",
            AnalysisType::GrowthEstimates => "earningsTrend",
        }
    }
}

/// Analyst recommendation data for a period.
#[derive(Debug, Clone)]
pub struct RecommendationData {
    pub period: String,
    pub strong_buy: i32,
    pub buy: i32,
    pub hold: i32,
    pub sell: i32,
    pub strong_sell: i32,
}

/// The consensus of a recommendation.
#[derive(Debug, Clone, Copy, PartialEq, Eq, Structural)]
pub enum Consensus {
    StrongBuy,
    Buy,
    Hold,
    Sell,
    StrongSell,
}

/// The label of a consensus.
pub open spec fn spec_consensus_label(c: Consensus) -> Seq<char> {
    match c {
        Consensus::StrongBuy => "Strong Buy"@,
        Consensus::Buy => "Buy"@,
        Consensus::Hold => "Hold"@,
        Consensus::Sell => "Sell"@,
        Consensus::StrongSell => "Strong Sell"@,
    }
}

impl RecommendationData {
    /// Analysts who rate buy or strong buy.
    pub open spec fn spec_bullish(self) -> int {
        self.strong_buy + self.buy
    }

    /// Analysts who rate sell or strong sell.
    pub open spec fn spec_bearish(self) -> int {
        self.sell + self.strong_sell
    }

    /// All analysts.
    pub open spec fn spec_total(self) -> int {
        self.strong_buy + self.buy + self.hold + self.sell + self.strong_sell
    }

    /// The consensus: a side that outnumbers the other more than twice is
    /// strong, one that merely outnumbers it carries the consensus, and a
    /// tie is a hold.
    pub open spec fn spec_consensus(self) -> Consensus {
        let bullish = self.spec_bullish();
        let bearish = self.spec_bearish();
        if bullish > bearish * 2 {
            Consensus::StrongBuy
        } else if bullish > bearish {
            Consensus::Buy
        } else if bearish > bullish * 2 {
            Consensus::StrongSell
        } else if bearish > bullish {
            Consensus::Sell
        } else {
            Consensus::Hold
        }
    }

    /// The running sums of the five counts, added in order, fit in an `i32`.
    pub open spec fn total_fits(self) -> bool {
        &&& i32::MIN <= self.spec_bullish() <= i32::MAX
        &&& i32::MIN <= self.strong_buy + self.buy + self.hold <= i32::MAX
        &&& i32::MIN <= self.strong_buy + self.buy + self.hold + self.sell <= i32::MAX
        &&& i32::MIN <= self.spec_total() <= i32::MAX
    }

    /// The buy side fits in an `i32`.
    pub open spec fn bullish_fits(self) -> bool {
        i32::MIN <= self.spec_bullish() <= i32::MAX
    }

    /// What the consensus computes fits in an `i32`: both sides, the sell
    /// side doubled, and the buy side doubled when the comparisons reach
    /// it (the buy side does not outnumber the sell side).
    pub open spec fn consensus_fits(self) -> bool {
        &&& i32::MIN <= self.spec_bullish() <= i32::MAX
        &&& i32::MIN <= self.spec_bearish() <= i32::MAX
        &&& i32::MIN <= self.spec_bearish() * 2 <= i32::MAX
        &&& self.spec_bullish() <= self.spec_bearish() ==> i32::MIN <= self.spec_bullish() * 2
            <= i32::MAX
    }

    /// Get total number of analysts.
    pub fn total_analysts(&self) -> (n: i32)
        requires
            self.total_fits(),
        ensures
            n == self.spec_total(),
    {
        self.strong_buy + self.buy + self.hold + self.sell + self.strong_sell
    }

    /// Number of analysts who rate buy or strong buy.
    pub fn bullish_count(&self) -> (n: i32)
        requires
            self.bullish_fits(),
        ensures
            n == self.spec_bullish(),
    {
        self.strong_buy + self.buy
    }

    /// The consensus of the ratings.
    pub fn consensus_kind(&self) -> (c: Consensus)
        requires
            self.consensus_fits(),
        ensures
            c == self.spec_consensus(),
    {
        let bullish = self.strong_buy + self.buy;
        let bearish = self.sell + self.strong_sell;
        if bullish > bearish * 2 {
            Consensus::StrongBuy
        } else if bullish > bearish {
            Consensus::Buy
        } else if bearish > bullish * 2 {
            Consensus::StrongSell
        } else if bearish > bullish {
            Consensus::Sell
        } else {
            Consensus::Hold
        }
    }

    /// Get consensus rating as a string.
    pub fn consensus(&self) -> (s: &'static str)
        requires
            self.consensus_fits(),
        ensures
            s@ == spec_consensus_label(self.spec_consensus()),
    {
        match self.consensus_kind() {
            Consensus::StrongBuy => "Strong Buy",
            Consensus::Buy => "Buy",
            Consensus::Hold => "Hold",
            Consensus::Sell => "Sell",
            Consensus::StrongSell => "Strong Sell",
        }
    }
}

/// A recommendation with its period as a character sequence.
pub struct RecommendationDataView {
    pub period: Seq<char>,
    pub strong_buy: i32,
    pub buy: i32,
    pub hold: i32,
    pub sell: i32,
    pub strong_sell: i32,
}

impl View for RecommendationData {
    type V = RecommendationDataView;

    open spec fn view(&self) -> RecommendationDataView {
        RecommendationDataView {
            period: self.period@,
            strong_buy: self.strong_buy,
            buy: self.buy,
            hold: self.hold,
            sell: self.sell,
            strong_sell: self.strong_sell,
        }
    }
}

/// A count of the answer: absent counts are zero, and the number is cut
/// to `i32` as `as i32` does.
pub open spec fn spec_count(item: JsonValue, key: Seq<char>) -> i32 {
    match spec_i64_member(item, key) {
        Some(n) => n as i32,
        None => 0,
    }
}

fn count_member(item: &JsonValue, key: &str) -> (n: i32)
    ensures
        n == spec_count(*item, key@),
{
    match i64_member(item, key) {
        Some(n) => n as i32,
        None => 0,
    }
}

/// A recommendation read from one entry of the trend: entries without a
/// period are skipped.
pub open spec fn spec_recommendation(item: JsonValue) -> Option<RecommendationDataView> {
    match spec_str_member(item, "period"@) {
        None => None,
        Some(period) => Some(
            RecommendationDataView {
                period,
                strong_buy: spec_count(item, "strongBuy"@),
                buy: spec_count(item, "buy"@),
                hold: spec_count(item, "hold"@),
                sell: spec_count(item, "sell"@),
                strong_sell: spec_count(item, "strongSell"@),
            },
        ),
    }
}

/// `spec_recommendation` as a function value.
pub open spec fn recommendation_fn() -> spec_fn(JsonValue) -> Option<RecommendationDataView> {
    |item: JsonValue| spec_recommendation(item)
}

/// Recommendations viewed entry by entry.
pub open spec fn recommendations_view(v: Seq<RecommendationData>) -> Seq<RecommendationDataView> {
    v.map_values(|x: RecommendationData| x@)
}

fn recommendation_from(item: &JsonValue) -> (r: Option<RecommendationData>)
    ensures
        match r {
            Some(x) => spec_recommendation(*item) == Some(x@),
            None => spec_recommendation(*item) is None,
        },
{
    let period = str_member(item, "period")?;
    Some(
        RecommendationData {
            period,
            strong_buy: count_member(item, "strongBuy"),
            buy: count_member(item, "buy"),
            hold: count_member(item, "hold"),
            sell: count_member(item, "sell"),
            strong_sell: count_member(item, "strongSell"),
        },
    )
}

/// The recommendation trend of a `quoteSummary` answer, or nothing when
/// it is empty.
pub open spec fn spec_parse_recommendations(json: JsonValue) -> Option<Seq<RecommendationDataView>> {
    match spec_summary_list(json, "recommendationTrend"@, "trend"@) {
        Some(items) => {
            let kept = keep_some(items.map_values(recommendation_fn()));
            if kept.len() == 0 {
                None
            } else {
                Some(kept)
            }
        },
        None => None,
    }
}

/// Parse recommendations from a `quoteSummary` answer.
pub fn parse_recommendations(json: &JsonValue) -> (r: Option<Vec<RecommendationData>>)
    ensures
        match r {
            Some(v) => spec_parse_recommendations(*json) == Some(recommendations_view(v@)),
            None => spec_parse_recommendations(*json) is None,
        },
{
    let items = summary_list(json, "recommendationTrend", "trend")?;
    let mut out: Vec<RecommendationData> = Vec::new();
    let mut i: usize = 0;
    while i < items.len()
        invariant
            i <= items@.len(),
            recommendations_view(out@) == keep_some(
                items@.take(i as int).map_values(recommendation_fn()),
            ),
        decreases items@.len() - i,
    {
        proof {
            lemma_keep_some_take(items@, recommendation_fn(), i as int);
        }
        let ghost before = out@;
        match recommendation_from(&items[i]) {
            Some(x) => {
                out.push(x);
                assert(recommendations_view(out@) =~= recommendations_view(before).push(x@));
            },
            None => {},
        }
        i = i + 1;
    }
    proof {
        lemma_take_all(items@);
    }
    if out.len() == 0 {
        None
    } else {
        Some(out)
    }
}

/// An upgrade or downgrade from an analyst firm.
#[derive(Debug, Clone)]
pub struct UpgradeDowngrade {
    pub firm: String,
    pub to_grade: Option<String>,
    pub from_grade: Option<String>,
    pub action: Option<String>,
    pub date: Option<String>,
}

/// A rating change with its texts as character sequences.
pub struct UpgradeDowngradeView {
    pub firm: Seq<char>,
    pub to_grade: Option<Seq<char>>,
    pub from_grade: Option<Seq<char>>,
    pub action: Option<Seq<char>>,
    pub date: Option<Seq<char>>,
}

impl View for UpgradeDowngrade {
    type V = UpgradeDowngradeView;

    open spec fn view(&self) -> UpgradeDowngradeView {
        UpgradeDowngradeView {
            firm: self.firm@,
            to_grade: opt_view(self.to_grade),
            from_grade: opt_view(self.from_grade),
            action: opt_view(self.action),
            date: opt_view(self.date),
        }
    }
}

/// The lowercase action contains `word` or is exactly `short`.
pub open spec fn action_is(action: Option<Seq<char>>, word: Seq<char>, short: Seq<char>) -> bool {
    match action {
        Some(a) => spec_contains(spec_to_lowercase(a), word) || spec_to_lowercase(a) == short,
        None => false,
    }
}

fn action_matches(action: &Option<String>, word: &str, short: &str) -> (r: bool)
    ensures
        r == action_is(opt_view(*action), word@, short@),
{
    match action {
        Some(a) => {
            let lower = to_lowercase(a.as_str());
            contains(lower.as_str(), word) || str_eq(lower.as_str(), short)
        },
        None => false,
    }
}

impl UpgradeDowngrade {
    /// An upgrade: the action speaks of one, or is `up`.
    pub open spec fn spec_is_upgrade(self) -> bool {
        action_is(opt_view(self.action), "upgrade"@, "up"@)
    }

    /// A downgrade: the action speaks of one, or is `down`.
    pub open spec fn spec_is_downgrade(self) -> bool {
        action_is(opt_view(self.action), "downgrade"@, "down"@)
    }

    /// Check if this is an upgrade.
    pub fn is_upgrade(&self) -> (r: bool)
        ensures
            r == self.spec_is_upgrade(),
    {
        action_matches(&self.action, "upgrade", "up")
    }

    /// Check if this is a downgrade.
    pub fn is_downgrade(&self) -> (r: bool)
        ensures
            r == self.spec_is_downgrade(),
    {
        action_matches(&self.action, "downgrade", "down")
    }
}

/// The number of rating changes that are upgrades (`upgrades`) or
/// downgrades.
pub open spec fn spec_count_changes(v: Seq<UpgradeDowngrade>, upgrades: bool) -> nat
    decreases v.len(),
{
    if v.len() == 0 {
        0
    } else {
        let last = v.last();
        let hit = if upgrades {
            last.spec_is_upgrade()
        } else {
            last.spec_is_downgrade()
        };
        spec_count_changes(v.drop_last(), upgrades) + if hit {
            1nat
        } else {
            0nat
        }
    }
}

/// Counts the upgrades (`upgrades`) or the downgrades among rating changes.
pub fn count_changes(changes: &Vec<UpgradeDowngrade>, upgrades: bool) -> (n: usize)
    ensures
        n == spec_count_changes(changes@, upgrades),
{
    let mut n: usize = 0;
    let mut i: usize = 0;
    while i < changes.len()
        invariant
            i <= changes@.len(),
            n == spec_count_changes(changes@.take(i as int), upgrades),
            n <= i,
        decreases changes@.len() - i,
    {
        assert(changes@.take(i + 1).drop_last() =~= changes@.take(i as int));
        let hit = if upgrades {
            changes[i].is_upgrade()
        } else {
            changes[i].is_downgrade()
        };
        if hit {
            n = n + 1;
        }
        i = i + 1;
    }
    assert(changes@.take(changes@.len() as int) =~= changes@);
    n
}

/// A rating change read from one entry of the history: entries without a
/// firm are skipped.
pub open spec fn spec_upgrade_downgrade(item: JsonValue) -> Option<UpgradeDowngradeView> {
    match spec_str_member(item, "firm"@) {
        None => None,
        Some(firm) => Some(
            UpgradeDowngradeView {
                firm,
                to_grade: spec_str_member(item, "toGrade"@),
                from_grade: spec_str_member(item, "fromGrade"@),
                action: spec_str_member(item, "action"@),
                date: spec_member_date(item, "epochGradeDate"@),
            },
        ),
    }
}

/// `spec_upgrade_downgrade` as a function value.
pub open spec fn upgrade_downgrade_fn() -> spec_fn(JsonValue) -> Option<UpgradeDowngradeView> {
    |item: JsonValue| spec_upgrade_downgrade(item)
}

/// Rating changes viewed entry by entry.
pub open spec fn changes_view(v: Seq<UpgradeDowngrade>) -> Seq<UpgradeDowngradeView> {
    v.map_values(|x: UpgradeDowngrade| x@)
}

fn upgrade_downgrade_from(item: &JsonValue) -> (r: Option<UpgradeDowngrade>)
    ensures
        match r {
            Some(x) => spec_upgrade_downgrade(*item) == Some(x@),
            None => spec_upgrade_downgrade(*item) is None,
        },
{
    let firm = str_member(item, "firm")?;
    Some(
        UpgradeDowngrade {
            firm,
            to_grade: str_member(item, "toGrade"),
            from_grade: str_member(item, "fromGrade"),
            action: str_member(item, "action"),
            date: member_date(item, "epochGradeDate"),
        },
    )
}

/// The rating changes of a `quoteSummary` answer, or nothing when there
/// are none.
pub open spec fn spec_parse_upgrades_downgrades(json: JsonValue) -> Option<
    Seq<UpgradeDowngradeView>,
> {
    match spec_summary_list(json, "upgradeDowngradeHistory"@, "history"@) {
        Some(items) => {
            let kept = keep_some(items.map_values(upgrade_downgrade_fn()));
            if kept.len() == 0 {
                None
            } else {
                Some(kept)
            }
        },
        None => None,
    }
}

/// Parse upgrades/downgrades from a `quoteSummary` answer.
pub fn parse_upgrades_downgrades(json: &JsonValue) -> (r: Option<Vec<UpgradeDowngrade>>)
    ensures
        match r {
            Some(v) => spec_parse_upgrades_downgrades(*json) == Some(changes_view(v@)),
            None => spec_parse_upgrades_downgrades(*json) is None,
        },
{
    let items = summary_list(json, "upgradeDowngradeHistory", "history")?;
    let mut out: Vec<UpgradeDowngrade> = Vec::new();
    let mut i: usize = 0;
    while i < items.len()
        invariant
            i <= items@.len(),
            changes_view(out@) == keep_some(
                items@.take(i as int).map_values(upgrade_downgrade_fn()),
            ),
        decreases items@.len() - i,
    {
        proof {
            lemma_keep_some_take(items@, upgrade_downgrade_fn(), i as int);
        }
        let ghost before = out@;
        match upgrade_downgrade_from(&items[i]) {
            Some(x) => {
                out.push(x);
                assert(changes_view(out@) =~= changes_view(before).push(x@));
            },
            None => {},
        }
        i = i + 1;
    }
    proof {
        lemma_take_all(items@);
    }
    if out.len() == 0 {
        None
    } else {
        Some(out)
    }
}

/// EPS revisions data.
#[derive(Debug, Clone)]
pub struct EpsRevisions {
    pub period: String,
    pub up_last_7_days: Option<i32>,
    pub up_last_30_days: Option<i32>,
    pub down_last_7_days: Option<i32>,
    pub down_last_30_days: Option<i32>,
}

/// EPS revisions with the period as a character sequence.
pub struct EpsRevisionsView {
    pub period: Seq<char>,
    pub up_last_7_days: Option<i32>,
    pub up_last_30_days: Option<i32>,
    pub down_last_7_days: Option<i32>,
    pub down_last_30_days: Option<i32>,
}

impl View for EpsRevisions {
    type V = EpsRevisionsView;

    open spec fn view(&self) -> EpsRevisionsView {
        EpsRevisionsView {
            period: self.period@,
            up_last_7_days: self.up_last_7_days,
            up_last_30_days: self.up_last_30_days,
            down_last_7_days: self.down_last_7_days,
            down_last_30_days: self.down_last_30_days,
        }
    }
}

impl EpsRevisions {
    /// Upward minus downward revisions over 30 days, when both are known.
    pub open spec fn spec_net_revisions_30d(self) -> Option<int> {
        match (self.up_last_30_days, self.down_last_30_days) {
            (Some(up), Some(down)) => Some(up - down),
            _ => None,
        }
    }

    /// Get net revisions (up - down) for last 30 days.
    pub fn net_revisions_30d(&self) -> (r: Option<i32>)
        requires
            match self.spec_net_revisions_30d() {
                Some(n) => i32::MIN <= n <= i32::MAX,
                None => true,
            },
        ensures
            match self.spec_net_revisions_30d() {
                Some(n) => r == Some(n as i32),
                None => r is None,
            },
    {
        match (self.up_last_30_days, self.down_last_30_days) {
            (Some(up), Some(down)) => Some(up - down),
            _ => None,
        }
    }
}

/// An optional count of the answer, cut to `i32` as `as i32` does.
pub open spec fn spec_opt_count(item: JsonValue, key: Seq<char>) -> Option<i32> {
    match spec_i64_member(item, key) {
        Some(n) => Some(n as i32),
        None => None,
    }
}

fn opt_count_member(item: &JsonValue, key: &str) -> (r: Option<i32>)
    ensures
        r == spec_opt_count(*item, key@),
{
    match i64_member(item, key) {
        Some(n) => Some(n as i32),
        None => None,
    }
}

/// EPS revisions read from one entry of the earnings trend: entries
/// without a period or without revisions are skipped.
pub open spec fn spec_eps_revisions(item: JsonValue) -> Option<EpsRevisionsView> {
    match (spec_str_member(item, "period"@), item.spec_get("epsRevisions"@)) {
        (Some(period), Some(rev)) => Some(
            EpsRevisionsView {
                period,
                up_last_7_days: spec_opt_count(rev, "upLast7days"@),
                up_last_30_days: spec_opt_count(rev, "upLast30days"@),
                down_last_7_days: spec_opt_count(rev, "downLast7days"@),
                down_last_30_days: spec_opt_count(rev, "downLast30days"@),
            },
        ),
        _ => None,
    }
}

/// `spec_eps_revisions` as a function value.
pub open spec fn eps_revisions_fn() -> spec_fn(JsonValue) -> Option<EpsRevisionsView> {
    |item: JsonValue| spec_eps_revisions(item)
}

/// EPS revisions viewed entry by entry.
pub open spec fn revisions_view(v: Seq<EpsRevisions>) -> Seq<EpsRevisionsView> {
    v.map_values(|x: EpsRevisions| x@)
}

fn eps_revisions_from(item: &JsonValue) -> (r: Option<EpsRevisions>)
    ensures
        match r {
            Some(x) => spec_eps_revisions(*item) == Some(x@),
            None => spec_eps_revisions(*item) is None,
        },
{
    let period = str_member(item, "period")?;
    let rev = item.get("epsRevisions")?;
    Some(
        EpsRevisions {
            period,
            up_last_7_days: opt_count_member(rev, "upLast7days"),
            up_last_30_days: opt_count_member(rev, "upLast30days"),
            down_last_7_days: opt_count_member(rev, "downLast7days"),
            down_last_30_days: opt_count_member(rev, "downLast30days"),
        },
    )
}

/// The EPS revisions of a `quoteSummary` answer, or nothing when there are
/// none.
pub open spec fn spec_parse_eps_revisions(json: JsonValue) -> Option<Seq<EpsRevisionsView>> {
    match spec_summary_list(json, "earningsTrend"@, "trend"@) {
        Some(items) => {
            let kept = keep_some(items.map_values(eps_revisions_fn()));
            if kept.len() == 0 {
                None
            } else {
                Some(kept)
            }
        },
        None => None,
    }
}

/// Parse EPS revisions from the earnings trend of a `quoteSummary` answer.
pub fn parse_eps_revisions(json: &JsonValue) -> (r: Option<Vec<EpsRevisions>>)
    ensures
        match r {
            Some(v) => spec_parse_eps_revisions(*json) == Some(revisions_view(v@)),
            None => spec_parse_eps_revisions(*json) is None,
        },
{
    let items = summary_list(json, "earningsTrend", "trend")?;
    let mut out: Vec<EpsRevisions> = Vec::new();
    let mut i: usize = 0;
    while i < items.len()
        invariant
            i <= items@.len(),
            revisions_view(out@) == keep_some(items@.take(i as int).map_values(eps_revisions_fn())),
        decreases items@.len() - i,
    {
        proof {
            lemma_keep_some_take(items@, eps_revisions_fn(), i as int);
        }
        let ghost before = out@;
        match eps_revisions_from(&items[i]) {
            Some(x) => {
                out.push(x);
                assert(revisions_view(out@) =~= revisions_view(before).push(x@));
            },
            None => {},
        }
        i = i + 1;
    }
    proof {
        lemma_take_all(items@);
    }
    if out.len() == 0 {
        None
    } else {
        Some(out)
    }
}

/// Price target data from analysts.
#[derive(Debug, Clone, Copy)]
pub struct PriceTarget {
    pub current_price: Option<Number>,
    pub target_mean: Option<Number>,
    pub target_median: Option<Number>,
    pub target_low: Option<Number>,
    pub target_high: Option<Number>,
    pub number_of_analysts: Option<i32>,
}

/// The price targets of a `quoteSummary` answer's financial data.
pub open spec fn spec_parse_price_targets(json: JsonValue) -> Option<PriceTarget> {
    match spec_summary_module(json, "financialData"@) {
        Some(f) => Some(
            PriceTarget {
                current_price: spec_number_member(f, "currentPrice"@),
                target_mean: spec_number_member(f, "targetMeanPrice"@),
                target_median: spec_number_member(f, "targetMedianPrice"@),
                target_low: spec_number_member(f, "targetLowPrice"@),
                target_high: spec_number_member(f, "targetHighPrice"@),
                number_of_analysts: spec_opt_count(f, "numberOfAnalystOpinions"@),
            },
        ),
        None => None,
    }
}

/// Parse price targets from a `quoteSummary` answer.
pub fn parse_price_targets(json: &JsonValue) -> (r: Option<PriceTarget>)
    ensures
        r == spec_parse_price_targets(*json),
{
    let f = summary_module(json, "financialData")?;
    Some(
        PriceTarget {
            current_price: number_member(f, "currentPrice"),
            target_mean: number_member(f, "targetMeanPrice"),
            target_median: number_member(f, "targetMedianPrice"),
            target_low: number_member(f, "targetLowPrice"),
            target_high: number_member(f, "targetHighPrice"),
            number_of_analysts: opt_count_member(f, "numberOfAnalystOpinions"),
        },
    )
}

/// Historical earnings data.
#[derive(Debug, Clone)]
pub struct EarningsHistoryItem {
    pub quarter: Option<String>,
    pub date: Option<String>,
    pub eps_actual: Option<Number>,
    pub eps_estimate: Option<Number>,
    pub surprise: Option<Number>,
    pub surprise_percent: Option<Number>,
}

/// An earnings history entry with its texts as character sequences.
pub struct EarningsHistoryItemView {
    pub quarter: Option<Seq<char>>,
    pub date: Option<Seq<char>>,
    pub eps_actual: Option<Number>,
    pub eps_estimate: Option<Number>,
    pub surprise: Option<Number>,
    pub surprise_percent: Option<Number>,
}

impl View for EarningsHistoryItem {
    type V = EarningsHistoryItemView;

    open spec fn view(&self) -> EarningsHistoryItemView {
        EarningsHistoryItemView {
            quarter: opt_view(self.quarter),
            date: opt_view(self.date),
            eps_actual: self.eps_actual,
            eps_estimate: self.eps_estimate,
            surprise: self.surprise,
            surprise_percent: self.surprise_percent,
        }
    }
}

/// An earnings history entry read from the answer (every entry gives one).
pub open spec fn spec_history_item(item: JsonValue) -> Option<EarningsHistoryItemView> {
    Some(
        EarningsHistoryItemView {
            quarter: spec_str_member(item, "quarter"@),
            date: spec_str_member(item, "quarterDate"@),
            eps_actual: spec_number_member(item, "epsActual"@),
            eps_estimate: spec_number_member(item, "epsEstimate"@),
            surprise: spec_number_member(item, "epsDifference"@),
            surprise_percent: spec_number_member(item, "surprisePercent"@),
        },
    )
}

/// `spec_history_item` as a function value.
pub open spec fn history_item_fn() -> spec_fn(JsonValue) -> Option<EarningsHistoryItemView> {
    |item: JsonValue| spec_history_item(item)
}

/// Earnings history entries viewed one by one.
pub open spec fn history_view(v: Seq<EarningsHistoryItem>) -> Seq<EarningsHistoryItemView> {
    v.map_values(|x: EarningsHistoryItem| x@)
}

/// The earnings history of a `quoteSummary` answer, or nothing when it is
/// empty.
pub open spec fn spec_parse_earnings_history(json: JsonValue) -> Option<Seq<EarningsHistoryItemView>> {
    match spec_summary_list(json, "earningsHistory"@, "history"@) {
        Some(items) => {
            let kept = keep_some(items.map_values(history_item_fn()));
            if kept.len() == 0 {
                None
            } else {
                Some(kept)
            }
        },
        None => None,
    }
}

/// Parse earnings history from a `quoteSummary` answer.
pub fn parse_earnings_history(json: &JsonValue) -> (r: Option<Vec<EarningsHistoryItem>>)
    ensures
        match r {
            Some(v) => spec_parse_earnings_history(*json) == Some(history_view(v@)),
            None => spec_parse_earnings_history(*json) is None,
        },
{
    let items = summary_list(json, "earningsHistory", "history")?;
    let mut out: Vec<EarningsHistoryItem> = Vec::new();
    let mut i: usize = 0;
    while i < items.len()
        invariant
            i <= items@.len(),
            history_view(out@) == keep_some(items@.take(i as int).map_values(history_item_fn())),
        decreases items@.len() - i,
    {
        proof {
            lemma_keep_some_take(items@, history_item_fn(), i as int);
        }
        let item = &items[i];
        let x = EarningsHistoryItem {
            quarter: str_member(item, "quarter"),
            date: str_member(item, "quarterDate"),
            eps_actual: number_member(item, "epsActual"),
            eps_estimate: number_member(item, "epsEstimate"),
            surprise: number_member(item, "epsDifference"),
            surprise_percent: number_member(item, "surprisePercent"),
        };
        let ghost before = out@;
        out.push(x);
        assert(history_view(out@) =~= history_view(before).push(x@));
        i = i + 1;
    }
    proof {
        lemma_take_all(items@);
    }
    if out.len() == 0 {
        None
    } else {
        Some(out)
    }
}

/// An earnings or revenue estimate for a period.
#[derive(Debug, Clone)]
pub struct Estimate {
    pub period: String,
    pub end_date: Option<String>,
    pub avg: Option<Number>,
    pub low: Option<Number>,
    pub high: Option<Number>,
    pub year_ago: Option<Number>,
    pub number_of_analysts: Option<i32>,
    pub growth: Option<Number>,
}

/// An estimate with its texts as character sequences.
pub struct EstimateView {
    pub period: Seq<char>,
    pub end_date: Option<Seq<char>>,
    pub avg: Option<Number>,
    pub low: Option<Number>,
    pub high: Option<Number>,
    pub year_ago: Option<Number>,
    pub number_of_analysts: Option<i32>,
    pub growth: Option<Number>,
}

impl View for Estimate {
    type V = EstimateView;

    open spec fn view(&self) -> EstimateView {
        EstimateView {
            period: self.period@,
            end_date: opt_view(self.end_date),
            avg: self.avg,
            low: self.low,
            high: self.high,
            year_ago: self.year_ago,
            number_of_analysts: self.number_of_analysts,
            growth: self.growth,
        }
    }
}

/// Which estimates of the earnings trend are read: earnings (per-share
/// figures, year-ago EPS) or revenue (year-ago revenue).
#[derive(Debug, Clone, Copy, PartialEq, Eq, Structural)]
pub enum EstimateKind {
    Earnings,
    Revenue,
}

/// The member of a trend entry that holds an estimate kind, and the name
/// of its year-ago figure.
pub open spec fn spec_estimate_keys(kind: EstimateKind) -> (Seq<char>, Seq<char>) {
    match kind {
        EstimateKind::Earnings => ("earningsEstimate"@, "yearAgoEps"@),
        EstimateKind::Revenue => ("revenueEstimate"@, "yearAgoRevenue"@),
    }
}

/// An estimate read from one entry of the earnings trend: entries without
/// a period or without the estimate are skipped.
pub open spec fn spec_estimate(kind: EstimateKind, item: JsonValue) -> Option<EstimateView> {
    let (member, year_ago) = spec_estimate_keys(kind);
    match (spec_str_member(item, "period"@), item.spec_get(member)) {
        (Some(period), Some(e)) => Some(
            EstimateView {
                period,
                end_date: spec_str_member(item, "endDate"@),
                avg: spec_number_member(e, "avg"@),
                low: spec_number_member(e, "low"@),
                high: spec_number_member(e, "high"@),
                year_ago: spec_number_member(e, year_ago),
                number_of_analysts: spec_opt_count(e, "numberOfAnalysts"@),
                growth: spec_number_member(e, "growth"@),
            },
        ),
        _ => None,
    }
}

/// `spec_estimate` of one kind as a function value.
pub open spec fn estimate_fn(kind: EstimateKind) -> spec_fn(JsonValue) -> Option<EstimateView> {
    |item: JsonValue| spec_estimate(kind, item)
}

/// Estimates viewed one by one.
pub open spec fn estimates_view(v: Seq<Estimate>) -> Seq<EstimateView> {
    v.map_values(|x: Estimate| x@)
}

fn estimate_from(kind: EstimateKind, item: &JsonValue) -> (r: Option<Estimate>)
    ensures
        match r {
            Some(x) => spec_estimate(kind, *item) == Some(x@),
            None => spec_estimate(kind, *item) is None,
        },
{
    let (member, year_ago) = match kind {
        EstimateKind::Earnings => ("earningsEstimate", "yearAgoEps"),
        EstimateKind::Revenue => ("revenueEstimate", "yearAgoRevenue"),
    };
    let period = str_member(item, "period")?;
    let e = item.get(member)?;
    Some(
        Estimate {
            period,
            end_date: str_member(item, "endDate"),
            avg: number_member(e, "avg"),
            low: number_member(e, "low"),
            high: number_member(e, "high"),
            year_ago: number_member(e, year_ago),
            number_of_analysts: opt_count_member(e, "numberOfAnalysts"),
            growth: number_member(e, "growth"),
        },
    )
}

/// The estimates of one kind in the earnings trend of a `quoteSummary`
/// answer, or nothing when there are none.
pub open spec fn spec_parse_estimates(kind: EstimateKind, json: JsonValue) -> Option<Seq<EstimateView>> {
    match spec_summary_list(json, "earningsTrend"@, "trend"@) {
        Some(items) => {
            let kept = keep_some(items.map_values(estimate_fn(kind)));
            if kept.len() == 0 {
                None
            } else {
                Some(kept)
            }
        },
        None => None,
    }
}

/// Parse earnings or revenue estimates from the earnings trend.
pub fn parse_estimates(kind: EstimateKind, json: &JsonValue) -> (r: Option<Vec<Estimate>>)
    ensures
        match r {
            Some(v) => spec_parse_estimates(kind, *json) == Some(estimates_view(v@)),
            None => spec_parse_estimates(kind, *json) is None,
        },
{
    let items = summary_list(json, "earningsTrend", "trend")?;
    let mut out: Vec<Estimate> = Vec::new();
    let mut i: usize = 0;
    while i < items.len()
        invariant
            i <= items@.len(),
            estimates_view(out@) == keep_some(items@.take(i as int).map_values(estimate_fn(kind))),
        decreases items@.len() - i,
    {
        proof {
            lemma_keep_some_take(items@, estimate_fn(kind), i as int);
        }
        let ghost before = out@;
        match estimate_from(kind, &items[i]) {
            Some(x) => {
                out.push(x);
                assert(estimates_view(out@) =~= estimates_view(before).push(x@));
            },
            None => {},
        }
        i = i + 1;
    }
    proof {
        lemma_take_all(items@);
    }
    if out.len() == 0 {
        None
    } else {
        Some(out)
    }
}

/// EPS trend showing estimate changes over time.
#[derive(Debug, Clone)]
pub struct EpsTrend {
    pub period: String,
    pub current: Option<Number>,
    pub days_7_ago: Option<Number>,
    pub days_30_ago: Option<Number>,
    pub days_60_ago: Option<Number>,
    pub days_90_ago: Option<Number>,
}

/// An EPS trend with its period as a character sequence.
pub struct EpsTrendView {
    pub period: Seq<char>,
    pub current: Option<Number>,
    pub days_7_ago: Option<Number>,
    pub days_30_ago: Option<Number>,
    pub days_60_ago: Option<Number>,
    pub days_90_ago: Option<Number>,
}

impl View for EpsTrend {
    type V = EpsTrendView;

    open spec fn view(&self) -> EpsTrendView {
        EpsTrendView {
            period: self.period@,
            current: self.current,
            days_7_ago: self.days_7_ago,
            days_30_ago: self.days_30_ago,
            days_60_ago: self.days_60_ago,
            days_90_ago: self.days_90_ago,
        }
    }
}

/// An EPS trend read from one entry of the earnings trend: entries without
/// a period or without a trend are skipped.
pub open spec fn spec_eps_trend(item: JsonValue) -> Option<EpsTrendView> {
    match (spec_str_member(item, "period"@), item.spec_get("epsTrend"@)) {
        (Some(period), Some(e)) => Some(
            EpsTrendView {
                period,
                current: spec_number_member(e, "current"@),
                days_7_ago: spec_number_member(e, "7daysAgo"@),
                days_30_ago: spec_number_member(e, "30daysAgo"@),
                days_60_ago: spec_number_member(e, "60daysAgo"@),
                days_90_ago: spec_number_member(e, "90daysAgo"@),
            },
        ),
        _ => None,
    }
}

/// `spec_eps_trend` as a function value.
pub open spec fn eps_trend_fn() -> spec_fn(JsonValue) -> Option<EpsTrendView> {
    |item: JsonValue| spec_eps_trend(item)
}

/// EPS trends viewed one by one.
pub open spec fn trends_view(v: Seq<EpsTrend>) -> Seq<EpsTrendView> {
    v.map_values(|x: EpsTrend| x@)
}

fn eps_trend_from(item: &JsonValue) -> (r: Option<EpsTrend>)
    ensures
        match r {
            Some(x) => spec_eps_trend(*item) == Some(x@),
            None => spec_eps_trend(*item) is None,
        },
{
    let period = str_member(item, "period")?;
    let e = item.get("epsTrend")?;
    Some(
        EpsTrend {
            period,
            current: number_member(e, "current"),
            days_7_ago: number_member(e, "7daysAgo"),
            days_30_ago: number_member(e, "30daysAgo"),
            days_60_ago: number_member(e, "60daysAgo"),
            days_90_ago: number_member(e, "90daysAgo"),
        },
    )
}

/// The EPS trends of a `quoteSummary` answer, or nothing when there are
/// none.
pub open spec fn spec_parse_eps_trend(json: JsonValue) -> Option<Seq<EpsTrendView>> {
    match spec_summary_list(json, "earningsTrend"@, "trend"@) {
        Some(items) => {
            let kept = keep_some(items.map_values(eps_trend_fn()));
            if kept.len() == 0 {
                None
            } else {
                Some(kept)
            }
        },
        None => None,
    }
}

/// Parse the EPS trend from the earnings trend of a `quoteSummary` answer.
pub fn parse_eps_trend(json: &JsonValue) -> (r: Option<Vec<EpsTrend>>)
    ensures
        match r {
            Some(v) => spec_parse_eps_trend(*json) == Some(trends_view(v@)),
            None => spec_parse_eps_trend(*json) is None,
        },
{
    let items = summary_list(json, "earningsTrend", "trend")?;
    let mut out: Vec<EpsTrend> = Vec::new();
    let mut i: usize = 0;
    while i < items.len()
        invariant
            i <= items@.len(),
            trends_view(out@) == keep_some(items@.take(i as int).map_values(eps_trend_fn())),
        decreases items@.len() - i,
    {
        proof {
            lemma_keep_some_take(items@, eps_trend_fn(), i as int);
        }
        let ghost before = out@;
        match eps_trend_from(&items[i]) {
            Some(x) => {
                out.push(x);
                assert(trends_view(out@) =~= trends_view(before).push(x@));
            },
            None => {},
        }
        i = i + 1;
    }
    proof {
        lemma_take_all(items@);
    }
    if out.len() == 0 {
        None
    } else {
        Some(out)
    }
}

/// Growth estimate comparing stock to peers; only the stock's growth is
/// in the answer this is read from.
#[derive(Debug, Clone)]
pub struct GrowthEstimate {
    pub period: String,
    pub stock: Option<Number>,
    pub industry: Option<Number>,
    pub sector: Option<Number>,
    pub index: Option<Number>,
}

/// A growth estimate with its period as a character sequence.
pub struct GrowthEstimateView {
    pub period: Seq<char>,
    pub stock: Option<Number>,
    pub industry: Option<Number>,
    pub sector: Option<Number>,
    pub index: Option<Number>,
}

impl View for GrowthEstimate {
    type V = GrowthEstimateView;

    open spec fn view(&self) -> GrowthEstimateView {
        GrowthEstimateView {
            period: self.period@,
            stock: self.stock,
            industry: self.industry,
            sector: self.sector,
            index: self.index,
        }
    }
}

/// The stock's growth: the value itself when it is a fractional number,
/// else its `raw` member.
pub open spec fn spec_stock_growth(g: JsonValue) -> Option<Number> {
    match g {
        JsonValue::Float(b) => Some(Number::Float(b)),
        _ => spec_number_member(g, "raw"@),
    }
}

/// A growth estimate read from one entry of the earnings trend: entries
/// without a period or without growth are skipped.
pub open spec fn spec_growth(item: JsonValue) -> Option<GrowthEstimateView> {
    match (spec_str_member(item, "period"@), item.spec_get("growth"@)) {
        (Some(period), Some(g)) => Some(
            GrowthEstimateView {
                period,
                stock: spec_stock_growth(g),
                industry: None,
                sector: None,
                index: None,
            },
        ),
        _ => None,
    }
}

/// `spec_growth` as a function value.
pub open spec fn growth_fn() -> spec_fn(JsonValue) -> Option<GrowthEstimateView> {
    |item: JsonValue| spec_growth(item)
}

/// Growth estimates viewed one by one.
pub open spec fn growth_view(v: Seq<GrowthEstimate>) -> Seq<GrowthEstimateView> {
    v.map_values(|x: GrowthEstimate| x@)
}

fn growth_from(item: &JsonValue) -> (r: Option<GrowthEstimate>)
    ensures
        match r {
            Some(x) => spec_growth(*item) == Some(x@),
            None => spec_growth(*item) is None,
        },
{
    let period = str_member(item, "period")?;
    let g = item.get("growth")?;
    let stock = match g {
        JsonValue::Float(b) => Some(Number::Float(*b)),
        _ => number_member(g, "raw"),
    };
    Some(GrowthEstimate { period, stock, industry: None, sector: None, index: None })
}

/// The growth estimates of a `quoteSummary` answer, or nothing when there
/// are none.
pub open spec fn spec_parse_growth_estimates(json: JsonValue) -> Option<Seq<GrowthEstimateView>> {
    match spec_summary_list(json, "earningsTrend"@, "trend"@) {
        Some(items) => {
            let kept = keep_some(items.map_values(growth_fn()));
            if kept.len() == 0 {
                None
            } else {
                Some(kept)
            }
        },
        None => None,
    }
}

/// Parse growth estimates from the earnings trend of a `quoteSummary`
/// answer.
pub fn parse_growth_estimates(json: &JsonValue) -> (r: Option<Vec<GrowthEstimate>>)
    ensures
        match r {
            Some(v) => spec_parse_growth_estimates(*json) == Some(growth_view(v@)),
            None => spec_parse_growth_estimates(*json) is None,
        },
{
    let items = summary_list(json, "earningsTrend", "trend")?;
    let mut out: Vec<GrowthEstimate> = Vec::new();
    let mut i: usize = 0;
    while i < items.len()
        invariant
            i <= items@.len(),
            growth_view(out@) == keep_some(items@.take(i as int).map_values(growth_fn())),
        decreases items@.len() - i,
    {
        proof {
            lemma_keep_some_take(items@, growth_fn(), i as int);
        }
        let ghost before = out@;
        match growth_from(&items[i]) {
            Some(x) => {
                out.push(x);
                assert(growth_view(out@) =~= growth_view(before).push(x@));
            },
            None => {},
        }
        i = i + 1;
    }
    proof {
        lemma_take_all(items@);
    }
    if out.len() == 0 {
        None
    } else {
        Some(out)
    }
}


/// Complete analyst data for a symbol.
#[derive(Debug, Clone)]
pub struct AnalystData {
    pub symbol: String,
    pub recommendations: Option<Vec<RecommendationData>>,
    pub upgrades_downgrades: Option<Vec<UpgradeDowngrade>>,
    pub price_target: Option<PriceTarget>,
    pub earnings_estimates: Option<Vec<Estimate>>,
    pub revenue_estimates: Option<Vec<Estimate>>,
    pub earnings_history: Option<Vec<EarningsHistoryItem>>,
    pub eps_trend: Option<Vec<EpsTrend>>,
    pub eps_revisions: Option<Vec<EpsRevisions>>,
    pub growth_estimates: Option<Vec<GrowthEstimate>>,
}

/// The upgrades (`upgrades`) or downgrades among an optional list of
/// rating changes.
pub open spec fn spec_opt_count_changes(o: Option<Vec<UpgradeDowngrade>>, upgrades: bool) -> nat {
    match o {
        Some(c) => spec_count_changes(c@, upgrades),
        None => 0,
    }
}

impl AnalystData {
    /// Get the latest recommendation: the first one listed.
    pub fn latest_recommendation(&self) -> (r: Option<&RecommendationData>)
        ensures
            match self.recommendations {
                Some(v) => if v@.len() > 0 {
                    r matches Some(x) && *x == v@[0]
                } else {
                    r is None
                },
                None => r is None,
            },
    {
        match &self.recommendations {
            Some(v) => {
                if v.len() > 0 {
                    Some(&v[0])
                } else {
                    None
                }
            },
            None => None,
        }
    }

    /// Count recent upgrades.
    pub fn upgrade_count(&self) -> (n: usize)
        ensures
            n == spec_opt_count_changes(self.upgrades_downgrades, true),
    {
        match &self.upgrades_downgrades {
            Some(c) => count_changes(c, true),
            None => 0,
        }
    }

    /// Count recent downgrades.
    pub fn downgrade_count(&self) -> (n: usize)
        ensures
            n == spec_opt_count_changes(self.upgrades_downgrades, false),
    {
        match &self.upgrades_downgrades {
            Some(c) => count_changes(c, false),
            None => 0,
        }
    }
}

/// All the analyst data of a `quoteSummary` answer, each kind read as its
/// own parser reads it.
pub fn all_analyst_data(symbol: &str, json: &JsonValue) -> (d: AnalystData)
    ensures
        d.symbol@ == symbol@,
        opt_seq_view(d.recommendations, |v| recommendations_view(v)) == spec_parse_recommendations(
            *json,
        ),
        opt_seq_view(d.upgrades_downgrades, |v| changes_view(v)) == spec_parse_upgrades_downgrades(
            *json,
        ),
        d.price_target == spec_parse_price_targets(*json),
        opt_seq_view(d.earnings_estimates, |v| estimates_view(v)) == spec_parse_estimates(
            EstimateKind::Earnings,
            *json,
        ),
        opt_seq_view(d.revenue_estimates, |v| estimates_view(v)) == spec_parse_estimates(
            EstimateKind::Revenue,
            *json,
        ),
        opt_seq_view(d.earnings_history, |v| history_view(v)) == spec_parse_earnings_history(*json),
        opt_seq_view(d.eps_trend, |v| trends_view(v)) == spec_parse_eps_trend(*json),
        opt_seq_view(d.eps_revisions, |v| revisions_view(v)) == spec_parse_eps_revisions(*json),
        opt_seq_view(d.growth_estimates, |v| growth_view(v)) == spec_parse_growth_estimates(*json),
{
    AnalystData {
        symbol: symbol.to_owned(),
        recommendations: parse_recommendations(json),
        upgrades_downgrades: parse_upgrades_downgrades(json),
        price_target: parse_price_targets(json),
        earnings_estimates: parse_estimates(EstimateKind::Earnings, json),
        revenue_estimates: parse_estimates(EstimateKind::Revenue, json),
        earnings_history: parse_earnings_history(json),
        eps_trend: parse_eps_trend(json),
        eps_revisions: parse_eps_revisions(json),
        growth_estimates: parse_growth_estimates(json),
    }
}

/// A count as the trend entry gives it: the integer cut to `i32`, zero when
/// the entry has none.
pub open spec fn i32_or_zero(n: Option<i64>) -> i32 {
    match n {
        Some(x) => x as i32,
        None => 0,
    }
}

/// A recommendation read from a trend entry has the entry's period, and
/// each of its counts is the count under that count's own key of the
/// entry: `strongBuy`, `buy`, `hold`, `sell`, `strongSell`. An entry
/// without a period gives none.
pub proof fn law_recommendation_counts_read_own_keys(item: JsonValue)
    ensures
        spec_recommendation(item) is None <==> spec_str_member(item, "period"@) is None,
        spec_recommendation(item) matches Some(r) ==> {
            &&& Some(r.period) == spec_str_member(item, "period"@)
            &&& r.strong_buy == i32_or_zero(spec_i64_member(item, "strongBuy"@))
            &&& r.buy == i32_or_zero(spec_i64_member(item, "buy"@))
            &&& r.hold == i32_or_zero(spec_i64_member(item, "hold"@))
            &&& r.sell == i32_or_zero(spec_i64_member(item, "sell"@))
            &&& r.strong_sell == i32_or_zero(spec_i64_member(item, "strongSell"@))
        },
{
}

} // verus!
