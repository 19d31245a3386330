//! Ownership data of a stock: who holds it, and what its insiders trade.

use vstd::prelude::*;
use crate::collect::{keep_some, lemma_keep_some_take, lemma_take_all, lemma_take_contains};
use crate::dates::{member_date, spec_member_date, spec_timestamp_to_date, timestamp_to_date};
use crate::decimal::{parse_i64, spec_parse_i64};
use crate::json::{
    opt_view, spec_i64_member, spec_number_member, spec_str_member, spec_summary_list,
    spec_summary_module, i64_member, number_member, str_member, summary_list, summary_module,
    JsonValue, Number,
};
use crate::text::{contains, spec_contains, spec_to_lowercase, to_lowercase};

verus! {

/// Type of holder data to fetch.
#[derive(Debug, Clone, Copy, PartialEq, Eq, Structural)]
pub enum HolderType {
    /// Major holders breakdown (ownership percentages)
    Major,
    /// Top institutional holders
    Institutional,
    /// Top mutual fund holders
    MutualFund,
    /// Recent insider transactions
    InsiderTransactions,
    /// Insider purchases summary
    InsiderPurchases,
    /// Company insider roster
    InsiderRoster,
}

impl HolderType {
    /// The `quoteSummary` module that holds this kind of data.
    pub open spec fn spec_module(self) -> Seq<char> {
        match self {
            HolderType::Major => "majorHoldersBreakdown"@,
            HolderType::Institutional => "institutionOwnership"@,
            HolderType::MutualFund => "fundOwnership"@,
            HolderType::InsiderTransactions => "insiderTransactions"@,
            HolderType::InsiderPurchases => "netSharePurchaseActivity"@,
            HolderType::InsiderRoster => "insiderHolders"@,
        }
    }

    /// The `quoteSummary` module that holds this kind of data.
    pub fn as_module(&self) -> (m: &'static str)
        ensures
            m@ == self.spec_module(),
    {
        match self {
            HolderType::Major => "majorHoldersBreakdown",
            HolderType::Institutional => "institutionOwnership",
            HolderType::MutualFund => "fundOwnership",
            HolderType::InsiderTransactions => "insiderTransactions",
            HolderType::InsiderPurchases => "netSharePurchaseActivity",
            HolderType::InsiderRoster => "insiderHolders",
        }
    }
}

/// The date a holding was reported: a Unix time in the answer's text
/// becomes its date; other text is kept as it is.
pub open spec fn spec_report_date(s: Seq<char>) -> Seq<char> {
    match spec_parse_i64(s) {
        Some(ts) => spec_timestamp_to_date(ts),
        None => s,
    }
}

/// The date a holding was reported, from the text of the answer.
pub fn report_date(s: &str) -> (r: String)
    ensures
        r@ == spec_report_date(s@),
{
    match parse_i64(s) {
        Some(ts) => timestamp_to_date(ts),
        None => s.to_owned(),
    }
}

/// An insider transaction (buy/sell by company insider).
#[derive(Debug, Clone)]
pub struct InsiderTransaction {
    pub filer_name: String,
    pub filer_relation: Option<String>,
    pub transaction_text: Option<String>,
    pub start_date: Option<String>,
    pub shares: Option<i64>,
    pub value: Option<i64>,
    pub ownership: Option<String>,
}

/// An insider transaction with its texts as character sequences.
pub struct InsiderTransactionView {
    pub filer_name: Seq<char>,
    pub filer_relation: Option<Seq<char>>,
    pub transaction_text: Option<Seq<char>>,
    pub start_date: Option<Seq<char>>,
    pub shares: Option<i64>,
    pub value: Option<i64>,
    pub ownership: Option<Seq<char>>,
}

impl View for InsiderTransaction {
    type V = InsiderTransactionView;

    open spec fn view(&self) -> InsiderTransactionView {
        InsiderTransactionView {
            filer_name: self.filer_name@,
            filer_relation: opt_view(self.filer_relation),
            transaction_text: opt_view(self.transaction_text),
            start_date: opt_view(self.start_date),
            shares: self.shares,
            value: self.value,
            ownership: opt_view(self.ownership),
        }
    }
}

/// The lowercase transaction text contains one of two words.
pub open spec fn text_mentions(text: Option<Seq<char>>, a: Seq<char>, b: Seq<char>) -> bool {
    match text {
        Some(t) => spec_contains(spec_to_lowercase(t), a) || spec_contains(spec_to_lowercase(t), b),
        None => false,
    }
}

fn mentions(text: &Option<String>, a: &str, b: &str) -> (r: bool)
    ensures
        r == text_mentions(opt_view(*text), a@, b@),
{
    match text {
        Some(t) => {
            let lower = to_lowercase(t.as_str());
            contains(lower.as_str(), a) || contains(lower.as_str(), b)
        },
        None => false,
    }
}

impl InsiderTransaction {
    /// A buy: the text speaks of buying or a purchase.
    pub open spec fn spec_is_buy(self) -> bool {
        text_mentions(opt_view(self.transaction_text), "buy"@, "purchase"@)
    }

    /// A sale: the text speaks of selling or a sale.
    pub open spec fn spec_is_sell(self) -> bool {
        text_mentions(opt_view(self.transaction_text), "sell"@, "sale"@)
    }

    /// Check if this is a buy transaction.
    pub fn is_buy(&self) -> (r: bool)
        ensures
            r == self.spec_is_buy(),
    {
        mentions(&self.transaction_text, "buy", "purchase")
    }

    /// Check if this is a sell transaction.
    pub fn is_sell(&self) -> (r: bool)
        ensures
            r == self.spec_is_sell(),
    {
        mentions(&self.transaction_text, "sell", "sale")
    }
}

/// An insider transaction read from one entry of the answer: entries
/// without a filer name are skipped.
pub open spec fn spec_insider_transaction(t: JsonValue) -> Option<InsiderTransactionView> {
    match spec_str_member(t, "filerName"@) {
        None => None,
        Some(name) => Some(
            InsiderTransactionView {
                filer_name: name,
                filer_relation: spec_str_member(t, "filerRelation"@),
                transaction_text: spec_str_member(t, "transactionText"@),
                start_date: spec_member_date(t, "startDate"@),
                shares: spec_i64_member(t, "shares"@),
                value: spec_i64_member(t, "value"@),
                ownership: spec_str_member(t, "ownership"@),
            },
        ),
    }
}

/// `spec_insider_transaction` as a function value.
pub open spec fn insider_transaction_fn() -> spec_fn(JsonValue) -> Option<InsiderTransactionView> {
    |t: JsonValue| spec_insider_transaction(t)
}

/// Transactions viewed entry by entry.
pub open spec fn transactions_view(v: Seq<InsiderTransaction>) -> Seq<InsiderTransactionView> {
    v.map_values(|x: InsiderTransaction| x@)
}

fn insider_transaction_from(t: &JsonValue) -> (r: Option<InsiderTransaction>)
    ensures
        match r {
            Some(x) => spec_insider_transaction(*t) == Some(x@),
            None => spec_insider_transaction(*t) is None,
        },
{
    let filer_name = str_member(t, "filerName")?;
    Some(
        InsiderTransaction {
            filer_name,
            filer_relation: str_member(t, "filerRelation"),
            transaction_text: str_member(t, "transactionText"),
            start_date: member_date(t, "startDate"),
            shares: i64_member(t, "shares"),
            value: i64_member(t, "value"),
            ownership: str_member(t, "ownership"),
        },
    )
}

/// The insider transactions of a `quoteSummary` answer, or nothing when
/// there are none.
pub open spec fn spec_parse_insider_transactions(json: JsonValue) -> Option<
    Seq<InsiderTransactionView>,
> {
    match spec_summary_list(json, "insiderTransactions"@, "transactions"@) {
        Some(items) => {
            let kept = keep_some(items.map_values(insider_transaction_fn()));
            if kept.len() == 0 {
                None
            } else {
                Some(kept)
            }
        },
        None => None,
    }
}

/// Parse insider transactions from a `quoteSummary` answer.
pub fn parse_insider_transactions(json: &JsonValue) -> (r: Option<Vec<InsiderTransaction>>)
    ensures
        match r {
            Some(v) => spec_parse_insider_transactions(*json) == Some(transactions_view(v@)),
            None => spec_parse_insider_transactions(*json) is None,
        },
{
    let items = summary_list(json, "insiderTransactions", "transactions")?;
    let mut out: Vec<InsiderTransaction> = Vec::new();
    let mut i: usize = 0;
    while i < items.len()
        invariant
            i <= items@.len(),
            transactions_view(out@) == keep_some(
                items@.take(i as int).map_values(insider_transaction_fn()),
            ),
        decreases items@.len() - i,
    {
        proof {
            lemma_keep_some_take(items@, insider_transaction_fn(), i as int);
        }
        let ghost before = out@;
        match insider_transaction_from(&items[i]) {
            Some(t) => {
                out.push(t);
                assert(transactions_view(out@) =~= transactions_view(before).push(t@));
            },
            None => {},
        }
        i = i + 1;
    }
    proof {
        lemma_take_all(items@);
    }
    if out.len() == 0 {
        None
    } else {
        Some(out)
    }
}

/// The number of transactions that satisfy `buys` (buys) or sales.
pub open spec fn spec_count_kind(v: Seq<InsiderTransaction>, buys: bool) -> nat
    decreases v.len(),
{
    if v.len() == 0 {
        0
    } else {
        let last = v.last();
        let hit = if buys {
            last.spec_is_buy()
        } else {
            last.spec_is_sell()
        };
        spec_count_kind(v.drop_last(), buys) + if hit {
            1nat
        } else {
            0nat
        }
    }
}

/// Counts the buys (`buys`) or the sales among transactions.
pub fn count_kind(txns: &Vec<InsiderTransaction>, buys: bool) -> (n: usize)
    ensures
        n == spec_count_kind(txns@, buys),
{
    let mut n: usize = 0;
    let mut i: usize = 0;
    while i < txns.len()
        invariant
            i <= txns@.len(),
            n == spec_count_kind(txns@.take(i as int), buys),
            n <= i,
        decreases txns@.len() - i,
    {
        assert(txns@.take(i + 1).drop_last() =~= txns@.take(i as int));
        let hit = if buys {
            txns[i].is_buy()
        } else {
            txns[i].is_sell()
        };
        if hit {
            n = n + 1;
        }
        i = i + 1;
    }
    assert(txns@.take(txns@.len() as int) =~= txns@);
    n
}

/// A company insider (officer, director, etc.).
#[derive(Debug, Clone)]
pub struct InsiderRosterMember {
    pub name: String,
    pub relation: Option<String>,
    pub url: Option<String>,
    pub transaction_description: Option<String>,
    pub latest_transaction_date: Option<String>,
    pub position_direct: Option<i64>,
    pub position_indirect: Option<i64>,
}

/// A company insider with its texts as character sequences.
pub struct InsiderRosterMemberView {
    pub name: Seq<char>,
    pub relation: Option<Seq<char>>,
    pub url: Option<Seq<char>>,
    pub transaction_description: Option<Seq<char>>,
    pub latest_transaction_date: Option<Seq<char>>,
    pub position_direct: Option<i64>,
    pub position_indirect: Option<i64>,
}

impl View for InsiderRosterMember {
    type V = InsiderRosterMemberView;

    open spec fn view(&self) -> InsiderRosterMemberView {
        InsiderRosterMemberView {
            name: self.name@,
            relation: opt_view(self.relation),
            url: opt_view(self.url),
            transaction_description: opt_view(self.transaction_description),
            latest_transaction_date: opt_view(self.latest_transaction_date),
            position_direct: self.position_direct,
            position_indirect: self.position_indirect,
        }
    }
}

/// A position that is absent counts as none.
pub open spec fn or_zero(x: Option<i64>) -> int {
    match x {
        Some(n) => n as int,
        None => 0,
    }
}

impl InsiderRosterMember {
    /// Shares held directly and indirectly.
    pub open spec fn spec_total_shares(self) -> int {
        or_zero(self.position_direct) + or_zero(self.position_indirect)
    }

    /// Get total shares held (direct + indirect).
    pub fn total_shares(&self) -> (n: i64)
        requires
            i64::MIN <= self.spec_total_shares() <= i64::MAX,
        ensures
            n == self.spec_total_shares(),
    {
        let d = match self.position_direct {
            Some(x) => x,
            None => 0,
        };
        let i = match self.position_indirect {
            Some(x) => x,
            None => 0,
        };
        d + i
    }
}

/// An insider read from one entry of the roster: entries without a name
/// are skipped.
pub open spec fn spec_roster_member(h: JsonValue) -> Option<InsiderRosterMemberView> {
    match spec_str_member(h, "name"@) {
        None => None,
        Some(name) => Some(
            InsiderRosterMemberView {
                name,
                relation: spec_str_member(h, "relation"@),
                url: spec_str_member(h, "url"@),
                transaction_description: spec_str_member(h, "transactionDescription"@),
                latest_transaction_date: spec_member_date(h, "latestTransDate"@),
                position_direct: spec_i64_member(h, "positionDirect"@),
                position_indirect: spec_i64_member(h, "positionIndirect"@),
            },
        ),
    }
}

/// `spec_roster_member` as a function value.
pub open spec fn roster_member_fn() -> spec_fn(JsonValue) -> Option<InsiderRosterMemberView> {
    |h: JsonValue| spec_roster_member(h)
}

/// Roster members viewed entry by entry.
pub open spec fn roster_view(v: Seq<InsiderRosterMember>) -> Seq<InsiderRosterMemberView> {
    v.map_values(|x: InsiderRosterMember| x@)
}

fn roster_member_from(h: &JsonValue) -> (r: Option<InsiderRosterMember>)
    ensures
        match r {
            Some(x) => spec_roster_member(*h) == Some(x@),
            None => spec_roster_member(*h) is None,
        },
{
    let name = str_member(h, "name")?;
    Some(
        InsiderRosterMember {
            name,
            relation: str_member(h, "relation"),
            url: str_member(h, "url"),
            transaction_description: str_member(h, "transactionDescription"),
            latest_transaction_date: member_date(h, "latestTransDate"),
            position_direct: i64_member(h, "positionDirect"),
            position_indirect: i64_member(h, "positionIndirect"),
        },
    )
}

/// The insider roster of a `quoteSummary` answer, or nothing when it is
/// empty.
pub open spec fn spec_parse_insider_roster(json: JsonValue) -> Option<Seq<InsiderRosterMemberView>> {
    match spec_summary_list(json, "insiderHolders"@, "holders"@) {
        Some(items) => {
            let kept = keep_some(items.map_values(roster_member_fn()));
            if kept.len() == 0 {
                None
            } else {
                Some(kept)
            }
        },
        None => None,
    }
}

/// Parse the insider roster from a `quoteSummary` answer.
pub fn parse_insider_roster(json: &JsonValue) -> (r: Option<Vec<InsiderRosterMember>>)
    ensures
        match r {
            Some(v) => spec_parse_insider_roster(*json) == Some(roster_view(v@)),
            None => spec_parse_insider_roster(*json) is None,
        },
{
    let items = summary_list(json, "insiderHolders", "holders")?;
    let mut out: Vec<InsiderRosterMember> = Vec::new();
    let mut i: usize = 0;
    while i < items.len()
        invariant
            i <= items@.len(),
            roster_view(out@) == keep_some(items@.take(i as int).map_values(roster_member_fn())),
        decreases items@.len() - i,
    {
        proof {
            lemma_keep_some_take(items@, roster_member_fn(), i as int);
        }
        let ghost before = out@;
        match roster_member_from(&items[i]) {
            Some(m) => {
                out.push(m);
                assert(roster_view(out@) =~= roster_view(before).push(m@));
            },
            None => {},
        }
        i = i + 1;
    }
    proof {
        lemma_take_all(items@);
    }
    if out.len() == 0 {
        None
    } else {
        Some(out)
    }
}

/// Major holders breakdown: the fractions held by insiders and
/// institutions, and how many institutions hold.
#[derive(Debug, Clone, Copy)]
pub struct MajorHoldersBreakdown {
    pub insiders_percent_held: Option<Number>,
    pub institutions_percent_held: Option<Number>,
    pub institutions_float_percent_held: Option<Number>,
    pub institutions_count: Option<i64>,
}

/// The major holders breakdown of a `quoteSummary` answer.
pub open spec fn spec_parse_major_holders(json: JsonValue) -> Option<MajorHoldersBreakdown> {
    match spec_summary_module(json, "majorHoldersBreakdown"@) {
        Some(b) => Some(
            MajorHoldersBreakdown {
                insiders_percent_held: spec_number_member(b, "insidersPercentHeld"@),
                institutions_percent_held: spec_number_member(b, "institutionsPercentHeld"@),
                institutions_float_percent_held: spec_number_member(
                    b,
                    "institutionsFloatPercentHeld"@,
                ),
                institutions_count: spec_i64_member(b, "institutionsCount"@),
            },
        ),
        None => None,
    }
}

/// Parse the major holders breakdown of a `quoteSummary` answer.
pub fn parse_major_holders(json: &JsonValue) -> (r: Option<MajorHoldersBreakdown>)
    ensures
        r == spec_parse_major_holders(*json),
{
    let b = summary_module(json, "majorHoldersBreakdown")?;
    Some(
        MajorHoldersBreakdown {
            insiders_percent_held: number_member(b, "insidersPercentHeld"),
            institutions_percent_held: number_member(b, "institutionsPercentHeld"),
            institutions_float_percent_held: number_member(b, "institutionsFloatPercentHeld"),
            institutions_count: i64_member(b, "institutionsCount"),
        },
    )
}

/// An institutional or mutual fund holder.
#[derive(Debug, Clone)]
pub struct InstitutionalHolder {
    pub organization: String,
    pub shares: i64,
    pub date_reported: Option<String>,
    pub percent_held: Option<Number>,
    pub value: Option<i64>,
}

/// A mutual fund holder has the fields of an institutional one.
pub type MutualFundHolder = InstitutionalHolder;

/// A holder with its texts as character sequences.
pub struct InstitutionalHolderView {
    pub organization: Seq<char>,
    pub shares: i64,
    pub date_reported: Option<Seq<char>>,
    pub percent_held: Option<Number>,
    pub value: Option<i64>,
}

impl View for InstitutionalHolder {
    type V = InstitutionalHolderView;

    open spec fn view(&self) -> InstitutionalHolderView {
        InstitutionalHolderView {
            organization: self.organization@,
            shares: self.shares,
            date_reported: opt_view(self.date_reported),
            percent_held: self.percent_held,
            value: self.value,
        }
    }
}

/// A holder read from one entry of an ownership list: entries without an
/// organization are skipped, a missing position counts as no shares.
pub open spec fn spec_holder(h: JsonValue) -> Option<InstitutionalHolderView> {
    match spec_str_member(h, "organization"@) {
        None => None,
        Some(org) => Some(
            InstitutionalHolderView {
                organization: org,
                shares: match spec_i64_member(h, "position"@) {
                    Some(n) => n,
                    None => 0,
                },
                date_reported: match spec_str_member(h, "reportDate"@) {
                    Some(d) => Some(spec_report_date(d)),
                    None => None,
                },
                percent_held: spec_number_member(h, "pctHeld"@),
                value: spec_i64_member(h, "value"@),
            },
        ),
    }
}

/// `spec_holder` as a function value.
pub open spec fn holder_fn() -> spec_fn(JsonValue) -> Option<InstitutionalHolderView> {
    |h: JsonValue| spec_holder(h)
}

/// Holders viewed one by one.
pub open spec fn holders_view(v: Seq<InstitutionalHolder>) -> Seq<InstitutionalHolderView> {
    v.map_values(|x: InstitutionalHolder| x@)
}

fn holder_from(h: &JsonValue) -> (r: Option<InstitutionalHolder>)
    ensures
        match r {
            Some(x) => spec_holder(*h) == Some(x@),
            None => spec_holder(*h) is None,
        },
{
    let organization = str_member(h, "organization")?;
    let shares = match i64_member(h, "position") {
        Some(n) => n,
        None => 0,
    };
    let date_reported = match str_member(h, "reportDate") {
        Some(d) => Some(report_date(d.as_str())),
        None => None,
    };
    Some(
        InstitutionalHolder {
            organization,
            shares,
            date_reported,
            percent_held: number_member(h, "pctHeld"),
            value: i64_member(h, "value"),
        },
    )
}

/// The holders in the ownership list of module `module` of a
/// `quoteSummary` answer (`institutionOwnership` or `fundOwnership`), or
/// nothing when there are none.
pub open spec fn spec_parse_ownership(json: JsonValue, module: Seq<char>) -> Option<
    Seq<InstitutionalHolderView>,
> {
    match spec_summary_list(json, module, "ownershipList"@) {
        Some(items) => {
            let kept = keep_some(items.map_values(holder_fn()));
            if kept.len() == 0 {
                None
            } else {
                Some(kept)
            }
        },
        None => None,
    }
}

/// Parse the holders of an ownership module of a `quoteSummary` answer.
pub fn parse_ownership(json: &JsonValue, module: &str) -> (r: Option<Vec<InstitutionalHolder>>)
    ensures
        match r {
            Some(v) => spec_parse_ownership(*json, module@) == Some(holders_view(v@)),
            None => spec_parse_ownership(*json, module@) is None,
        },
{
    let items = summary_list(json, module, "ownershipList")?;
    let mut out: Vec<InstitutionalHolder> = Vec::new();
    let mut i: usize = 0;
    while i < items.len()
        invariant
            i <= items@.len(),
            holders_view(out@) == keep_some(items@.take(i as int).map_values(holder_fn())),
        decreases items@.len() - i,
    {
        proof {
            lemma_keep_some_take(items@, holder_fn(), i as int);
        }
        let ghost before = out@;
        match holder_from(&items[i]) {
            Some(x) => {
                out.push(x);
                assert(holders_view(out@) =~= holders_view(before).push(x@));
            },
            None => {},
        }
        i = i + 1;
    }
    proof {
        lemma_take_all(items@);
    }
    if out.len() == 0 {
        None
    } else {
        Some(out)
    }
}

/// Parse institutional holders from a `quoteSummary` answer.
pub fn parse_institutional_holders(json: &JsonValue) -> (r: Option<Vec<InstitutionalHolder>>)
    ensures
        match r {
            Some(v) => spec_parse_ownership(*json, "institutionOwnership"@) == Some(
                holders_view(v@),
            ),
            None => spec_parse_ownership(*json, "institutionOwnership"@) is None,
        },
{
    parse_ownership(json, "institutionOwnership")
}

/// Parse mutual fund holders from a `quoteSummary` answer.
pub fn parse_mutual_fund_holders(json: &JsonValue) -> (r: Option<Vec<MutualFundHolder>>)
    ensures
        match r {
            Some(v) => spec_parse_ownership(*json, "fundOwnership"@) == Some(holders_view(v@)),
            None => spec_parse_ownership(*json, "fundOwnership"@) is None,
        },
{
    parse_ownership(json, "fundOwnership")
}

/// Summary of insider purchase activity.
#[derive(Debug, Clone)]
pub struct InsiderPurchasesSummary {
    pub purchases: Option<i64>,
    pub purchases_shares: Option<i64>,
    pub sales: Option<i64>,
    pub sales_shares: Option<i64>,
    pub net_shares_purchased: Option<i64>,
    pub net_shares_purchased_directly: Option<i64>,
    pub total_insider_shares: Option<i64>,
    pub buy_info_shares: Option<Number>,
    pub sell_info_shares: Option<Number>,
    pub period: Option<String>,
}

impl InsiderPurchasesSummary {
    /// Check if insiders are net buyers.
    pub fn is_net_buying(&self) -> (r: bool)
        ensures
            r == (self.net_shares_purchased matches Some(n) && n > 0),
    {
        match self.net_shares_purchased {
            Some(n) => n > 0,
            None => false,
        }
    }

    /// Get net transaction count (buys - sells).
    pub fn net_transactions(&self) -> (r: Option<i64>)
        requires
            self.purchases is Some && self.sales is Some ==> i64::MIN <= self.purchases->0
                - self.sales->0 <= i64::MAX,
        ensures
            match (self.purchases, self.sales) {
                (Some(p), Some(s)) => r == Some((p - s) as i64),
                _ => r is None,
            },
    {
        match (self.purchases, self.sales) {
            (Some(p), Some(s)) => Some(p - s),
            _ => None,
        }
    }
}

/// The insider purchase summary of a `quoteSummary` answer: counts,
/// shares and the period of the net share purchase activity.
pub open spec fn spec_purchases_fields(a: JsonValue) -> (
    Option<i64>,
    Option<i64>,
    Option<i64>,
    Option<i64>,
    Option<i64>,
    Option<i64>,
    Option<i64>,
    Option<Number>,
    Option<Number>,
    Option<Seq<char>>,
) {
    (
        spec_i64_member(a, "buyInfoCount"@),
        spec_i64_member(a, "buyInfoShares"@),
        spec_i64_member(a, "sellInfoCount"@),
        spec_i64_member(a, "sellInfoShares"@),
        spec_i64_member(a, "netInfoCount"@),
        spec_i64_member(a, "netPercentInsiderShares"@),
        spec_i64_member(a, "totalInsiderShares"@),
        spec_number_member(a, "buyPercentInsiderShares"@),
        spec_number_member(a, "sellPercentInsiderShares"@),
        spec_str_member(a, "period"@),
    )
}

/// `r` is what the insider purchase summary of `json` reads as: nothing
/// without a net share purchase activity, else its fields.
pub open spec fn purchases_parsed(json: JsonValue, r: Option<InsiderPurchasesSummary>) -> bool {
    match spec_summary_module(json, "netSharePurchaseActivity"@) {
        None => r is None,
        Some(a) => r matches Some(p) && (
            p.purchases,
            p.purchases_shares,
            p.sales,
            p.sales_shares,
            p.net_shares_purchased,
            p.net_shares_purchased_directly,
            p.total_insider_shares,
            p.buy_info_shares,
            p.sell_info_shares,
            opt_view(p.period),
        ) == spec_purchases_fields(a),
    }
}

/// Parse the insider purchases summary of a `quoteSummary` answer.
pub fn parse_insider_purchases(json: &JsonValue) -> (r: Option<InsiderPurchasesSummary>)
    ensures
        purchases_parsed(*json, r),
{
    let a = summary_module(json, "netSharePurchaseActivity")?;
    Some(
        InsiderPurchasesSummary {
            purchases: i64_member(a, "buyInfoCount"),
            purchases_shares: i64_member(a, "buyInfoShares"),
            sales: i64_member(a, "sellInfoCount"),
            sales_shares: i64_member(a, "sellInfoShares"),
            net_shares_purchased: i64_member(a, "netInfoCount"),
            net_shares_purchased_directly: i64_member(a, "netPercentInsiderShares"),
            total_insider_shares: i64_member(a, "totalInsiderShares"),
            buy_info_shares: number_member(a, "buyPercentInsiderShares"),
            sell_info_shares: number_member(a, "sellPercentInsiderShares"),
            period: str_member(a, "period"),
        },
    )
}


/// The holders of an optional list, viewed.
pub open spec fn opt_holders_view(o: Option<Vec<InstitutionalHolder>>) -> Option<Seq<InstitutionalHolderView>> {
    match o {
        Some(v) => Some(holders_view(v@)),
        None => None,
    }
}

/// The transactions of an optional list, viewed.
pub open spec fn opt_transactions_view(o: Option<Vec<InsiderTransaction>>) -> Option<Seq<InsiderTransactionView>> {
    match o {
        Some(v) => Some(transactions_view(v@)),
        None => None,
    }
}

/// The insiders of an optional list, viewed.
pub open spec fn opt_roster_view(o: Option<Vec<InsiderRosterMember>>) -> Option<Seq<InsiderRosterMemberView>> {
    match o {
        Some(v) => Some(roster_view(v@)),
        None => None,
    }
}

/// The reported values of holders summed (a holder without one counts
/// nothing).
pub open spec fn spec_value_sum(v: Seq<InstitutionalHolder>) -> int
    decreases v.len(),
{
    if v.len() == 0 {
        0
    } else {
        spec_value_sum(v.drop_last()) + or_zero(v.last().value)
    }
}

/// Every running sum of the holders' values fits in an `i64`.
pub open spec fn value_sums_fit(v: Seq<InstitutionalHolder>) -> bool {
    forall|k: int| 0 <= k <= v.len() ==> i64::MIN <= #[trigger] spec_value_sum(v.take(k)) <= i64::MAX
}

/// The sum of the holders' reported values.
fn value_sum(v: &Vec<InstitutionalHolder>) -> (s: i64)
    requires
        value_sums_fit(v@),
    ensures
        s == spec_value_sum(v@),
{
    let mut s: i64 = 0;
    let mut i: usize = 0;
    assert(v@.take(0) =~= Seq::<InstitutionalHolder>::empty());
    while i < v.len()
        invariant
            i <= v@.len(),
            value_sums_fit(v@),
            s == spec_value_sum(v@.take(i as int)),
        decreases v@.len() - i,
    {
        assert(v@.take(i + 1).drop_last() =~= v@.take(i as int));
        assert(v@.take(i + 1).last() == v@[i as int]);
        assert(i64::MIN <= spec_value_sum(v@.take(i + 1)) <= i64::MAX);
        match v[i].value {
            Some(x) => {
                s = s + x;
            },
            None => {},
        }
        i = i + 1;
    }
    assert(v@.take(v@.len() as int) =~= v@);
    s
}

/// Complete holder data for a symbol.
#[derive(Debug, Clone)]
pub struct HolderData {
    pub symbol: String,
    pub major_holders: Option<MajorHoldersBreakdown>,
    pub institutional_holders: Option<Vec<InstitutionalHolder>>,
    pub mutual_fund_holders: Option<Vec<MutualFundHolder>>,
    pub insider_transactions: Option<Vec<InsiderTransaction>>,
    pub insider_purchases: Option<InsiderPurchasesSummary>,
    pub insider_roster: Option<Vec<InsiderRosterMember>>,
}

/// The sum of the values of an optional list of holders.
pub open spec fn spec_opt_value_sum(o: Option<Vec<InstitutionalHolder>>) -> Option<int> {
    match o {
        Some(v) => Some(spec_value_sum(v@)),
        None => None,
    }
}

/// An optional list of holders whose running sums fit in an `i64`.
pub open spec fn opt_value_sums_fit(o: Option<Vec<InstitutionalHolder>>) -> bool {
    match o {
        Some(v) => value_sums_fit(v@),
        None => true,
    }
}

fn opt_value_sum(o: &Option<Vec<InstitutionalHolder>>) -> (r: Option<i64>)
    requires
        opt_value_sums_fit(*o),
    ensures
        match r {
            Some(t) => spec_opt_value_sum(*o) == Some(t as int),
            None => spec_opt_value_sum(*o) is None,
        },
{
    match o {
        Some(v) => Some(value_sum(v)),
        None => None,
    }
}

/// The buys (`buys`) or sales among an optional list of transactions.
pub open spec fn spec_opt_count_kind(o: Option<Vec<InsiderTransaction>>, buys: bool) -> nat {
    match o {
        Some(t) => spec_count_kind(t@, buys),
        None => 0,
    }
}

impl HolderData {
    /// Get total institutional ownership value.
    pub fn total_institutional_value(&self) -> (r: Option<i64>)
        requires
            opt_value_sums_fit(self.institutional_holders),
        ensures
            match r {
                Some(t) => spec_opt_value_sum(self.institutional_holders) == Some(t as int),
                None => self.institutional_holders is None,
            },
    {
        opt_value_sum(&self.institutional_holders)
    }

    /// Get total mutual fund ownership value.
    pub fn total_mutual_fund_value(&self) -> (r: Option<i64>)
        requires
            opt_value_sums_fit(self.mutual_fund_holders),
        ensures
            match r {
                Some(t) => spec_opt_value_sum(self.mutual_fund_holders) == Some(t as int),
                None => self.mutual_fund_holders is None,
            },
    {
        opt_value_sum(&self.mutual_fund_holders)
    }

    /// Count recent insider buys.
    pub fn insider_buy_count(&self) -> (n: usize)
        ensures
            n == spec_opt_count_kind(self.insider_transactions, true),
    {
        match &self.insider_transactions {
            Some(t) => count_kind(t, true),
            None => 0,
        }
    }

    /// Count recent insider sells.
    pub fn insider_sell_count(&self) -> (n: usize)
        ensures
            n == spec_opt_count_kind(self.insider_transactions, false),
    {
        match &self.insider_transactions {
            Some(t) => count_kind(t, false),
            None => 0,
        }
    }
}

/// Each kind of holder data read from a `quoteSummary` answer.
pub fn all_holders(symbol: &str, json: &JsonValue) -> (d: HolderData)
    ensures
        d.symbol@ == symbol@,
        d.major_holders == spec_parse_major_holders(*json),
        opt_holders_view(d.institutional_holders) == spec_parse_ownership(
            *json,
            "institutionOwnership"@,
        ),
        opt_holders_view(d.mutual_fund_holders) == spec_parse_ownership(*json, "fundOwnership"@),
        opt_transactions_view(d.insider_transactions) == spec_parse_insider_transactions(*json),
        purchases_parsed(*json, d.insider_purchases),
        opt_roster_view(d.insider_roster) == spec_parse_insider_roster(*json),
{
    HolderData {
        symbol: symbol.to_owned(),
        major_holders: parse_major_holders(json),
        institutional_holders: parse_institutional_holders(json),
        mutual_fund_holders: parse_mutual_fund_holders(json),
        insider_transactions: parse_insider_transactions(json),
        insider_purchases: parse_insider_purchases(json),
        insider_roster: parse_insider_roster(json),
    }
}

/// The holder data of the kinds asked for, read from a `quoteSummary`
/// answer; the other kinds are absent.
pub fn custom_holders(symbol: &str, json: &JsonValue, holder_types: &Vec<HolderType>) -> (d: HolderData)
    ensures
        d.symbol@ == symbol@,
        holder_types@.contains(HolderType::Major) ==> d.major_holders == spec_parse_major_holders(
            *json,
        ),
        !holder_types@.contains(HolderType::Major) ==> d.major_holders is None,
        holder_types@.contains(HolderType::Institutional) ==> opt_holders_view(
            d.institutional_holders,
        ) == spec_parse_ownership(*json, "institutionOwnership"@),
        !holder_types@.contains(HolderType::Institutional) ==> d.institutional_holders is None,
        holder_types@.contains(HolderType::MutualFund) ==> opt_holders_view(d.mutual_fund_holders)
            == spec_parse_ownership(*json, "fundOwnership"@),
        !holder_types@.contains(HolderType::MutualFund) ==> d.mutual_fund_holders is None,
        holder_types@.contains(HolderType::InsiderTransactions) ==> opt_transactions_view(
            d.insider_transactions,
        ) == spec_parse_insider_transactions(*json),
        !holder_types@.contains(HolderType::InsiderTransactions) ==> d.insider_transactions is None,
        holder_types@.contains(HolderType::InsiderPurchases) ==> purchases_parsed(
            *json,
            d.insider_purchases,
        ),
        !holder_types@.contains(HolderType::InsiderPurchases) ==> d.insider_purchases is None,
        holder_types@.contains(HolderType::InsiderRoster) ==> opt_roster_view(d.insider_roster)
            == spec_parse_insider_roster(*json),
        !holder_types@.contains(HolderType::InsiderRoster) ==> d.insider_roster is None,
{
    let mut d = HolderData {
        symbol: symbol.to_owned(),
        major_holders: None,
        institutional_holders: None,
        mutual_fund_holders: None,
        insider_transactions: None,
        insider_purchases: None,
        insider_roster: None,
    };
    let ghost ts = holder_types@;
    let mut i: usize = 0;
    while i < holder_types.len()
        invariant
            i <= ts.len(),
            ts == holder_types@,
            d.symbol@ == symbol@,
            ts.take(i as int).contains(HolderType::Major) ==> d.major_holders
                == spec_parse_major_holders(*json),
            !ts.take(i as int).contains(HolderType::Major) ==> d.major_holders is None,
            ts.take(i as int).contains(HolderType::Institutional) ==> opt_holders_view(
                d.institutional_holders,
            ) == spec_parse_ownership(*json, "institutionOwnership"@),
            !ts.take(i as int).contains(HolderType::Institutional) ==> d.institutional_holders is None,
            ts.take(i as int).contains(HolderType::MutualFund) ==> opt_holders_view(
                d.mutual_fund_holders,
            ) == spec_parse_ownership(*json, "fundOwnership"@),
            !ts.take(i as int).contains(HolderType::MutualFund) ==> d.mutual_fund_holders is None,
            ts.take(i as int).contains(HolderType::InsiderTransactions) ==> opt_transactions_view(
                d.insider_transactions,
            ) == spec_parse_insider_transactions(*json),
            !ts.take(i as int).contains(HolderType::InsiderTransactions)
                ==> d.insider_transactions is None,
            ts.take(i as int).contains(HolderType::InsiderPurchases) ==> purchases_parsed(
                *json,
                d.insider_purchases,
            ),
            !ts.take(i as int).contains(HolderType::InsiderPurchases) ==> d.insider_purchases is None,
            ts.take(i as int).contains(HolderType::InsiderRoster) ==> opt_roster_view(
                d.insider_roster,
            ) == spec_parse_insider_roster(*json),
            !ts.take(i as int).contains(HolderType::InsiderRoster) ==> d.insider_roster is None,
        decreases ts.len() - i,
    {
        let t = holder_types[i];
        proof {
            lemma_take_contains(ts, i as int, HolderType::Major);
            lemma_take_contains(ts, i as int, HolderType::Institutional);
            lemma_take_contains(ts, i as int, HolderType::MutualFund);
            lemma_take_contains(ts, i as int, HolderType::InsiderTransactions);
            lemma_take_contains(ts, i as int, HolderType::InsiderPurchases);
            lemma_take_contains(ts, i as int, HolderType::InsiderRoster);
        }
        match t {
            HolderType::Major => d.major_holders = parse_major_holders(json),
            HolderType::Institutional => d.institutional_holders = parse_institutional_holders(json),
            HolderType::MutualFund => d.mutual_fund_holders = parse_mutual_fund_holders(json),
            HolderType::InsiderTransactions => d.insider_transactions = parse_insider_transactions(
                json,
            ),
            HolderType::InsiderPurchases => d.insider_purchases = parse_insider_purchases(json),
            HolderType::InsiderRoster => d.insider_roster = parse_insider_roster(json),
        }
        i = i + 1;
    }
    assert(ts.take(ts.len() as int) =~= ts);
    d
}

/// The major holders breakdown exists exactly when the answer has the
/// module, and each figure is the number under its own key of it:
/// `insidersPercentHeld`, `institutionsPercentHeld`,
/// `institutionsFloatPercentHeld`, and the integer `institutionsCount`.
pub proof fn law_major_holders_read_own_keys(json: JsonValue)
    ensures
        spec_parse_major_holders(json) is Some <==> spec_summary_module(
            json,
            "majorHoldersBreakdown"@,
        ) is Some,
        spec_parse_major_holders(json) matches Some(b) ==> {
            let m = spec_summary_module(json, "majorHoldersBreakdown"@)->0;
            &&& b.insiders_percent_held == spec_number_member(m, "insidersPercentHeld"@)
            &&& b.institutions_percent_held == spec_number_member(m, "institutionsPercentHeld"@)
            &&& b.institutions_float_percent_held == spec_number_member(
                m,
                "institutionsFloatPercentHeld"@,
            )
            &&& b.institutions_count == spec_i64_member(m, "institutionsCount"@)
        },
{
}

} // verus!
