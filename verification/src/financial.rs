//! Financial statements read from the fundamentals time series: one list
//! of dated values per metric.

use vstd::prelude::*;
use vstd::string::*;
use crate::client::requests::{
    fundamentals_timeseries_request, spec_fundamentals_request, strings_view, Request,
};
use crate::collect::{keep_some, lemma_keep_some_take, lemma_take_all};
use crate::json::{opt_view, spec_str_member, str_member, JsonValue};
use crate::order::{
    is_index_permutation, stable_order_text_desc, stably_ordered_text_desc, texts_view,
};
use crate::text::{spec_starts_with, starts_with, str_eq};

verus! {

/// Frequency for financial data.
#[derive(Debug, Clone, Copy, PartialEq, Eq, Structural)]
pub enum Frequency {
    Annual,
    Quarterly,
}

impl Frequency {
    /// The prefix of the field names of this frequency.
    pub open spec fn spec_prefix(self) -> Seq<char> {
        match self {
            Frequency::Annual => "annual"@,
            Frequency::Quarterly => "quarterly"@,
        }
    }

    /// The prefix of the field names of this frequency.
    pub fn as_prefix(&self) -> (p: &'static str)
        ensures
            p@ == self.spec_prefix(),
    {
        match self {
            Frequency::Annual => "annual",
            Frequency::Quarterly => "quarterly",
        }
    }
}

/// Build field names with frequency prefix.
pub fn build_fields(fields: &Vec<&str>, frequency: Frequency) -> (r: Vec<String>)
    ensures
        r@.len() == fields@.len(),
        forall|i: int| 0 <= i < fields@.len() ==> #[trigger] r@[i]@ == frequency.spec_prefix() + fields@[i]@,
{
    let prefix = frequency.as_prefix();
    let mut out: Vec<String> = Vec::new();
    let mut i: usize = 0;
    while i < fields.len()
        invariant
            i <= fields@.len(),
            prefix@ == frequency.spec_prefix(),
            out@.len() == i,
            forall|j: int| 0 <= j < i ==> #[trigger] out@[j]@ == frequency.spec_prefix() + fields@[j]@,
        decreases fields@.len() - i,
    {
        let mut f = prefix.to_owned();
        f.append(fields[i]);
        out.push(f);
        i = i + 1;
    }
    out
}

/// The `raw` number of a reported value, as the answer holds it: an
/// integer, the bits of any other number, or nothing when it is absent or
/// not a number.
#[derive(Debug, Clone, Copy, PartialEq, Eq, Structural)]
pub enum RawNumber {
    Int(i64),
    Float(u64),
    Absent,
}

/// The number `v` holds, if it holds one.
pub open spec fn spec_raw_number(v: Option<JsonValue>) -> RawNumber {
    match v {
        Some(JsonValue::Int(n)) => RawNumber::Int(n),
        Some(JsonValue::Float(b)) => RawNumber::Float(b),
        _ => RawNumber::Absent,
    }
}

fn raw_number(v: Option<&JsonValue>) -> (r: RawNumber)
    ensures
        r == spec_raw_number(crate::json::deref_opt(v)),
{
    match v {
        Some(JsonValue::Int(n)) => RawNumber::Int(*n),
        Some(JsonValue::Float(b)) => RawNumber::Float(*b),
        _ => RawNumber::Absent,
    }
}

/// A single financial data point with date and value.
#[derive(Debug)]
pub struct FinancialDataPoint {
    pub date: String,
    pub period_type: String,
    pub raw: RawNumber,
    pub formatted: Option<String>,
}

/// A data point with its texts as character sequences.
pub struct FinancialDataPointView {
    pub date: Seq<char>,
    pub period_type: Seq<char>,
    pub raw: RawNumber,
    pub formatted: Option<Seq<char>>,
}

impl View for FinancialDataPoint {
    type V = FinancialDataPointView;

    open spec fn view(&self) -> FinancialDataPointView {
        FinancialDataPointView {
            date: self.date@,
            period_type: self.period_type@,
            raw: self.raw,
            formatted: opt_view(self.formatted),
        }
    }
}

/// Data points viewed one by one.
pub open spec fn points_view(v: Seq<FinancialDataPoint>) -> Seq<FinancialDataPointView> {
    v.map_values(|p: FinancialDataPoint| p@)
}

/// The dates of data points.
pub open spec fn point_dates(v: Seq<FinancialDataPointView>) -> Seq<Seq<char>> {
    v.map_values(|p: FinancialDataPointView| p.date)
}

/// `r` is `v` listed most recent date first (dates compared as text),
/// points of equal date keeping their order.
pub open spec fn is_by_date_desc(r: Seq<FinancialDataPointView>, v: Seq<FinancialDataPointView>) -> bool {
    exists|p: Seq<usize>|
        is_index_permutation(p, v.len()) && stably_ordered_text_desc(p, point_dates(v)) && r
            == Seq::new(v.len(), |k: int| v[p[k] as int])
}

/// A data point read from one entry of a metric: it needs a date and a
/// reported value; the period defaults to twelve months.
pub open spec fn spec_point(dp: JsonValue) -> Option<FinancialDataPointView> {
    match (spec_str_member(dp, "asOfDate"@), dp.spec_get("reportedValue"@)) {
        (Some(date), Some(rep)) => Some(
            FinancialDataPointView {
                date,
                period_type: match spec_str_member(dp, "periodType"@) {
                    Some(p) => p,
                    None => "12M"@,
                },
                raw: spec_raw_number(rep.spec_get("raw"@)),
                formatted: spec_str_member(rep, "fmt"@),
            },
        ),
        _ => None,
    }
}

/// `spec_point` as a function value.
pub open spec fn point_fn() -> spec_fn(JsonValue) -> Option<FinancialDataPointView> {
    |dp: JsonValue| spec_point(dp)
}

fn point_from(dp: &JsonValue) -> (r: Option<FinancialDataPoint>)
    ensures
        match r {
            Some(p) => spec_point(*dp) == Some(p@),
            None => spec_point(*dp) is None,
        },
{
    let date = str_member(dp, "asOfDate")?;
    let rep = dp.get("reportedValue")?;
    let period_type = match str_member(dp, "periodType") {
        Some(p) => p,
        None => "12M".to_owned(),
    };
    Some(
        FinancialDataPoint {
            date,
            period_type,
            raw: raw_number(rep.get("raw")),
            formatted: str_member(rep, "fmt"),
        },
    )
}

/// A metric name without its frequency prefix.
pub open spec fn spec_clean_name(name: Seq<char>) -> Seq<char> {
    if spec_starts_with(name, "annual"@) {
        name.skip(6)
    } else if spec_starts_with(name, "quarterly"@) {
        name.skip(9)
    } else {
        name
    }
}

/// A field name built with a frequency's prefix (`build_fields`) comes back
/// as the field itself once the prefix is stripped (the name under which
/// `parse_financials` files its series).
pub proof fn law_field_names_round_trip(field: Seq<char>, frequency: Frequency)
    ensures
        spec_clean_name(frequency.spec_prefix() + field) == field,
{
    reveal_strlit("annual");
    reveal_strlit("quarterly");
    let name = frequency.spec_prefix() + field;
    match frequency {
        Frequency::Annual => {
            assert(name.subrange(0, 6) =~= "annual"@);
            assert(name.skip(6) =~= field);
        },
        Frequency::Quarterly => {
            assert(name[0] == 'q');
            assert("annual"@[0] == 'a');
            assert(!spec_starts_with(name, "annual"@));
            assert(name.subrange(0, 9) =~= "quarterly"@);
            assert(name.skip(9) =~= field);
        },
    }
}

/// A time-series answer with one item listing one type, the name that
/// `build_fields` gives `field` at `frequency`, and holding data points
/// under that name, reads as one metric: `field` itself, with those points.
/// (`parse_financials` holds exactly the metrics of `spec_financial_series`.)
pub proof fn law_built_field_parses_under_its_name(
    json: JsonValue,
    item: JsonValue,
    type_val: JsonValue,
    data: JsonValue,
    field: Seq<char>,
    frequency: Frequency,
)
    requires
        json.spec_get("timeseries"@) matches Some(t) && t.spec_get("result"@) matches Some(r)
            && r.spec_as_array() == Some(seq![item]),
        spec_item_types(item) == Some(seq![type_val]),
        type_val.spec_as_str() == Some(frequency.spec_prefix() + field),
        item.spec_get(frequency.spec_prefix() + field) == Some(data),
        data.spec_as_array() matches Some(arr) && keep_some(arr.map_values(point_fn())).len() > 0,
    ensures
        spec_financial_series(json).dom() == set![field],
        spec_financial_series(json)[field] == keep_some(
            data.spec_as_array()->0.map_values(point_fn()),
        ),
{
    law_field_names_round_trip(field, frequency);
    let pts = keep_some(data.spec_as_array()->0.map_values(point_fn()));
    assert(spec_series(item, type_val) == Some((field, pts)));
    let mapped = seq![type_val].map_values(|t: JsonValue| spec_series(item, t));
    assert(mapped =~= seq![Some((field, pts))]);
    assert(mapped.drop_last() =~= Seq::<Option<(Seq<char>, Seq<FinancialDataPointView>)>>::empty());
    assert(keep_some(mapped.drop_last()) =~= Seq::<(Seq<char>, Seq<FinancialDataPointView>)>::empty());
    assert(mapped.last() == Some((field, pts)));
    assert(keep_some(mapped) =~= seq![(field, pts)]);
    assert(spec_item_series(item) == seq![(field, pts)]);
    let items = seq![item];
    assert(items.drop_last() =~= Seq::<JsonValue>::empty());
    assert(spec_all_series(items.drop_last()) =~= Seq::<(Seq<char>, Seq<FinancialDataPointView>)>::empty());
    assert(items.last() == item);
    assert(spec_all_series(items) =~= Seq::<(Seq<char>, Seq<FinancialDataPointView>)>::empty()
        + seq![(field, pts)]);
    assert(spec_all_series(items) =~= seq![(field, pts)]);
    let all = seq![(field, pts)];
    assert(all.drop_last() =~= Seq::<(Seq<char>, Seq<FinancialDataPointView>)>::empty());
    assert(series_map(all.drop_last()) =~= Map::<Seq<char>, Seq<FinancialDataPointView>>::empty());
    assert(all.last() == (field, pts));
    assert(series_map(all) =~= Map::<Seq<char>, Seq<FinancialDataPointView>>::empty().insert(
        field,
        pts,
    ));
    assert(spec_financial_series(json).dom() =~= set![field]);
}

fn clean_name(name: &str) -> (r: String)
    ensures
        r@ == spec_clean_name(name@),
{
    proof {
        reveal_strlit("annual");
        reveal_strlit("quarterly");
    }
    if starts_with(name, "annual") {
        name.substring_char(6, name.unicode_len()).to_owned()
    } else if starts_with(name, "quarterly") {
        name.substring_char(9, name.unicode_len()).to_owned()
    } else {
        name.to_owned()
    }
}

/// The series named by one entry of an item's `meta.type`: its clean name
/// and its data points, when the entry is a text, the item holds an array
/// under that name, and some entry of it is a data point.
pub open spec fn spec_series(item: JsonValue, type_val: JsonValue) -> Option<
    (Seq<char>, Seq<FinancialDataPointView>),
> {
    match type_val.spec_as_str() {
        Some(name) => match item.spec_get(name) {
            Some(d) => match d.spec_as_array() {
                Some(arr) => {
                    let pts = keep_some(arr.map_values(point_fn()));
                    if pts.len() == 0 {
                        None
                    } else {
                        Some((spec_clean_name(name), pts))
                    }
                },
                None => None,
            },
            None => None,
        },
        None => None,
    }
}

/// The types listed in an item's `meta`.
pub open spec fn spec_item_types(item: JsonValue) -> Option<Seq<JsonValue>> {
    match item.spec_get("meta"@) {
        Some(m) => match m.spec_get("type"@) {
            Some(t) => t.spec_as_array(),
            None => None,
        },
        None => None,
    }
}

/// All series of one item, in the order of its types.
pub open spec fn spec_item_series(item: JsonValue) -> Seq<(Seq<char>, Seq<FinancialDataPointView>)> {
    match spec_item_types(item) {
        Some(types) => keep_some(types.map_values(|t: JsonValue| spec_series(item, t))),
        None => Seq::empty(),
    }
}

/// All series of all items, in order.
pub open spec fn spec_all_series(items: Seq<JsonValue>) -> Seq<
    (Seq<char>, Seq<FinancialDataPointView>),
>
    decreases items.len(),
{
    if items.len() == 0 {
        Seq::empty()
    } else {
        spec_all_series(items.drop_last()) + spec_item_series(items.last())
    }
}

/// The metrics a list of series gives: each name with the points of the
/// last series of that name.
pub open spec fn series_map(s: Seq<(Seq<char>, Seq<FinancialDataPointView>)>) -> Map<
    Seq<char>,
    Seq<FinancialDataPointView>,
>
    decreases s.len(),
{
    if s.len() == 0 {
        Map::empty()
    } else {
        series_map(s.drop_last()).insert(s.last().0, s.last().1)
    }
}

/// The metrics of a time-series answer, each with its data points in the
/// order of the answer.
pub open spec fn spec_financial_series(json: JsonValue) -> Map<
    Seq<char>,
    Seq<FinancialDataPointView>,
> {
    match json.spec_get("timeseries"@) {
        Some(t) => match t.spec_get("result"@) {
            Some(r) => match r.spec_as_array() {
                Some(items) => series_map(spec_all_series(items)),
                None => Map::empty(),
            },
            None => Map::empty(),
        },
        None => Map::empty(),
    }
}

/// Parsed financial statement data: each metric with its data points.
#[derive(Debug)]
pub struct FinancialStatement {
    pub symbol: String,
    pub statement_type: String,
    pub frequency: String,
    pub metrics: Vec<(String, Vec<FinancialDataPoint>)>,
}

/// No metric name occurs twice.
pub open spec fn unique_names(m: Seq<(String, Vec<FinancialDataPoint>)>) -> bool {
    forall|i: int, j: int| 0 <= i < j < m.len() ==> (#[trigger] m[i]).0@ != (#[trigger] m[j]).0@
}

/// The metrics viewed as a map from name to data points.
pub open spec fn metrics_map(m: Seq<(String, Vec<FinancialDataPoint>)>) -> Map<
    Seq<char>,
    Seq<FinancialDataPointView>,
>
    decreases m.len(),
{
    if m.len() == 0 {
        Map::empty()
    } else {
        metrics_map(m.drop_last()).insert(m.last().0@, points_view(m.last().1@))
    }
}

/// Names in the map are exactly the names listed.
pub proof fn lemma_metrics_map_dom(m: Seq<(String, Vec<FinancialDataPoint>)>, k: Seq<char>)
    ensures
        metrics_map(m).contains_key(k) <==> exists|i: int| 0 <= i < m.len() && (#[trigger] m[i]).0@ == k,
    decreases m.len(),
{
    if m.len() > 0 {
        lemma_metrics_map_dom(m.drop_last(), k);
        if metrics_map(m).contains_key(k) && m.last().0@ != k {
            let i = choose|i: int| 0 <= i < m.len() - 1 && (#[trigger] m.drop_last()[i]).0@ == k;
            assert(m[i] == m.drop_last()[i]);
        }
        if exists|i: int| 0 <= i < m.len() && (#[trigger] m[i]).0@ == k {
            let i = choose|i: int| 0 <= i < m.len() && (#[trigger] m[i]).0@ == k;
            if i < m.len() - 1 {
                assert(m.drop_last()[i] == m[i]);
            }
        }
    }
}

/// Replacing the points of a listed name replaces them in the map.
pub proof fn lemma_metrics_map_update(
    m: Seq<(String, Vec<FinancialDataPoint>)>,
    j: int,
    x: (String, Vec<FinancialDataPoint>),
)
    requires
        unique_names(m),
        0 <= j < m.len(),
        x.0@ == m[j].0@,
    ensures
        metrics_map(m.update(j, x)) == metrics_map(m).insert(x.0@, points_view(x.1@)),
    decreases m.len(),
{
    let u = m.update(j, x);
    if j == m.len() - 1 {
        assert(u.drop_last() =~= m.drop_last());
        assert(metrics_map(u) =~= metrics_map(m).insert(x.0@, points_view(x.1@)));
    } else {
        let d = m.drop_last();
        assert(u.drop_last() =~= d.update(j, x));
        lemma_metrics_map_update(d, j, x);
        assert(m.last().0@ != x.0@);
        assert(metrics_map(u) =~= metrics_map(m).insert(x.0@, points_view(x.1@)));
    }
}

/// The stored metrics hold, for each name of `raw`, its points in date
/// order, and no other name.
pub open spec fn holds_sorted(stored: Map<Seq<char>, Seq<FinancialDataPointView>>, raw: Map<Seq<char>, Seq<FinancialDataPointView>>) -> bool {
    &&& stored.dom() == raw.dom()
    &&& forall|k: Seq<char>| #[trigger] raw.contains_key(k) ==> is_by_date_desc(stored[k], raw[k])
}

fn copy_opt(o: &Option<String>) -> (r: Option<String>)
    ensures
        opt_view(r) == opt_view(*o),
{
    match o {
        Some(s) => Some(s.clone()),
        None => None,
    }
}

impl FinancialDataPoint {
    /// A copy of the data point.
    pub fn copy(&self) -> (r: FinancialDataPoint)
        ensures
            r@ == self@,
    {
        FinancialDataPoint {
            date: self.date.clone(),
            period_type: self.period_type.clone(),
            raw: self.raw,
            formatted: copy_opt(&self.formatted),
        }
    }
}

/// Lists data points most recent date first, keeping the order of equal
/// dates.
pub fn sort_points_by_date(points: &Vec<FinancialDataPoint>) -> (r: Vec<FinancialDataPoint>)
    ensures
        is_by_date_desc(points_view(r@), points_view(points@)),
{
    let ghost v = points_view(points@);
    let mut dates: Vec<String> = Vec::new();
    let mut i: usize = 0;
    while i < points.len()
        invariant
            i <= points@.len(),
            v == points_view(points@),
            texts_view(dates@) == point_dates(v.take(i as int)),
        decreases points@.len() - i,
    {
        let ghost before = dates@;
        dates.push(points[i].date.clone());
        assert(texts_view(dates@) =~= texts_view(before).push(points@[i as int].date@));
        assert(point_dates(v.take(i + 1)) =~= point_dates(v.take(i as int)).push(v[i as int].date));
        i = i + 1;
    }
    assert(v.take(v.len() as int) =~= v);
    let p = stable_order_text_desc(&dates);
    let mut out: Vec<FinancialDataPoint> = Vec::new();
    let mut k: usize = 0;
    while k < p.len()
        invariant
            k <= p@.len(),
            p@.len() == points@.len(),
            v == points_view(points@),
            is_index_permutation(p@, dates@.len()),
            dates@.len() == points@.len(),
            points_view(out@) == Seq::new(k as nat, |t: int| v[p@[t] as int]),
        decreases p@.len() - k,
    {
        assert(p@[k as int] < points@.len());
        let ghost before = out@;
        let c = points[p[k]].copy();
        out.push(c);
        assert(points_view(out@) =~= points_view(before).push(c@));
        assert(points_view(out@) =~= Seq::new((k + 1) as nat, |t: int| v[p@[t] as int]));
        k = k + 1;
    }
    assert(is_index_permutation(p@, v.len()) && stably_ordered_text_desc(p@, point_dates(v))
        && points_view(out@) == Seq::new(v.len(), |t: int| v[p@[t] as int]));
    out
}

/// Reads one series of an item (see `spec_series`), its points still in
/// the order of the answer.
fn series_from(item: &JsonValue, type_val: &JsonValue) -> (r: Option<(String, Vec<FinancialDataPoint>)>)
    ensures
        match r {
            Some(s) => spec_series(*item, *type_val) == Some((s.0@, points_view(s.1@))),
            None => spec_series(*item, *type_val) is None,
        },
{
    let name = type_val.as_str()?;
    let d = item.get(name)?;
    let arr = d.as_array()?;
    let mut pts: Vec<FinancialDataPoint> = Vec::new();
    let mut i: usize = 0;
    while i < arr.len()
        invariant
            i <= arr@.len(),
            points_view(pts@) == keep_some(arr@.take(i as int).map_values(point_fn())),
        decreases arr@.len() - i,
    {
        proof {
            lemma_keep_some_take(arr@, point_fn(), i as int);
        }
        let ghost before = pts@;
        match point_from(&arr[i]) {
            Some(p) => {
                pts.push(p);
                assert(points_view(pts@) =~= points_view(before).push(p@));
            },
            None => {},
        }
        i = i + 1;
    }
    proof {
        lemma_take_all(arr@);
    }
    if pts.len() == 0 {
        None
    } else {
        Some((clean_name(name), pts))
    }
}

/// Stores the points of a metric, replacing those of a metric of the same
/// name.
fn store_metric(metrics: &mut Vec<(String, Vec<FinancialDataPoint>)>, name: String, points: Vec<FinancialDataPoint>)
    requires
        unique_names(old(metrics)@),
    ensures
        unique_names(final(metrics)@),
        metrics_map(final(metrics)@) == metrics_map(old(metrics)@).insert(name@, points_view(points@)),
{
    let n = metrics.len();
    let mut j: usize = 0;
    while j < n
        invariant
            n == metrics@.len(),
            metrics@ == old(metrics)@,
            unique_names(metrics@),
            j <= n,
            forall|t: int| 0 <= t < j ==> (#[trigger] metrics@[t]).0@ != name@,
        decreases n - j,
    {
        if str_eq(metrics[j].0.as_str(), name.as_str()) {
            let ghost m = metrics@;
            let ghost x = (name, points);
            proof {
                lemma_metrics_map_update(m, j as int, x);
            }
            metrics.set(j, (name, points));
            proof {
                assert(metrics@ == m.update(j as int, x));
                assert forall|a: int, b: int| 0 <= a < b < metrics@.len() implies (
                #[trigger] metrics@[a]).0@ != (#[trigger] metrics@[b]).0@ by {
                    if a != j && b != j {
                        assert(metrics@[a] == m[a]);
                        assert(metrics@[b] == m[b]);
                    } else if a == j {
                        assert(metrics@[b] == m[b]);
                    } else {
                        assert(metrics@[a] == m[a]);
                    }
                }
            }
            return ;
        }
        j = j + 1;
    }
    let ghost m = metrics@;
    metrics.push((name, points));
    proof {
        assert(metrics@.drop_last() =~= m);
        assert forall|a: int, b: int| 0 <= a < b < metrics@.len() implies (
        #[trigger] metrics@[a]).0@ != (#[trigger] metrics@[b]).0@ by {
            if b < n {
                assert(metrics@[a] == m[a]);
                assert(metrics@[b] == m[b]);
            } else {
                assert(metrics@[a] == m[a]);
            }
        }
    }
}

/// Parse a time-series answer into a financial statement: every metric
/// with its data points, most recent first.
pub fn parse_financials(json: &JsonValue, symbol: &str, statement_type: &str, frequency: Frequency) -> (r:
    FinancialStatement)
    ensures
        r.symbol@ == symbol@,
        r.statement_type@ == statement_type@,
        r.frequency@ == frequency.spec_prefix(),
        unique_names(r.metrics@),
        holds_sorted(metrics_map(r.metrics@), spec_financial_series(*json)),
{
    let mut metrics: Vec<(String, Vec<FinancialDataPoint>)> = Vec::new();
    let ghost mut raw: Map<Seq<char>, Seq<FinancialDataPointView>> = Map::empty();
    assert(metrics_map(metrics@) =~= Map::<Seq<char>, Seq<FinancialDataPointView>>::empty());
    let items_opt = match json.get("timeseries") {
        Some(t) => match t.get("result") {
            Some(r) => r.as_array(),
            None => None,
        },
        None => None,
    };
    if let Some(items) = items_opt {
        let mut i: usize = 0;
        while i < items.len()
            invariant
                i <= items@.len(),
                spec_financial_series(*json) == series_map(spec_all_series(items@)),
                raw == series_map(spec_all_series(items@.take(i as int))),
                unique_names(metrics@),
                holds_sorted(metrics_map(metrics@), raw),
            decreases items@.len() - i,
        {
            let item = &items[i];
            let ghost base = spec_all_series(items@.take(i as int));
            assert(items@.take(i + 1).drop_last() =~= items@.take(i as int));
            let types_opt = match item.get("meta") {
                Some(m) => match m.get("type") {
                    Some(t) => t.as_array(),
                    None => None,
                },
                None => None,
            };
            if let Some(types) = types_opt {
                let ghost f = |t: JsonValue| spec_series(*item, t);
                let mut k: usize = 0;
                while k < types.len()
                    invariant
                        k <= types@.len(),
                        Some(types@) == spec_item_types(*item),
                        f == (|t: JsonValue| spec_series(*item, t)),
                        raw == series_map(base + keep_some(types@.take(k as int).map_values(f))),
                        unique_names(metrics@),
                        holds_sorted(metrics_map(metrics@), raw),
                    decreases types@.len() - k,
                {
                    proof {
                        lemma_keep_some_take(types@, f, k as int);
                    }
                    let ghost prev = base + keep_some(types@.take(k as int).map_values(f));
                    match series_from(item, &types[k]) {
                        Some((name, pts)) => {
                            let sorted = sort_points_by_date(&pts);
                            let ghost old_stored = metrics_map(metrics@);
                            let ghost new_raw = raw.insert(name@, points_view(pts@));
                            store_metric(&mut metrics, name, sorted);
                            proof {
                                let next = base + keep_some(types@.take(k + 1).map_values(f));
                                assert(next =~= prev.push((name@, points_view(pts@))));
                                assert(next.drop_last() =~= prev);
                                assert(series_map(next) == new_raw);
                                assert(metrics_map(metrics@) == old_stored.insert(name@, points_view(sorted@)));
                                assert(metrics_map(metrics@).dom() =~= new_raw.dom());
                                assert forall|key: Seq<char>| #[trigger] new_raw.contains_key(key) implies is_by_date_desc(metrics_map(metrics@)[key], new_raw[key]) by {
                                    if key != name@ {
                                        assert(raw.contains_key(key));
                                    }
                                }
                                raw = new_raw;
                            }
                        },
                        None => {
                            proof {
                                assert(base + keep_some(types@.take(k + 1).map_values(f)) =~= prev);
                            }
                        },
                    }
                    k = k + 1;
                }
                proof {
                    lemma_take_all(types@);
                    assert(spec_item_series(*item) == keep_some(types@.map_values(f)));
                    assert(spec_all_series(items@.take(i + 1)) =~= base + spec_item_series(*item));
                }
            } else {
                proof {
                    assert(spec_item_series(*item) =~= Seq::<(Seq<char>, Seq<FinancialDataPointView>)>::empty());
                    assert(spec_all_series(items@.take(i + 1)) =~= base);
                }
            }
            i = i + 1;
        }
        proof {
            lemma_take_all(items@);
        }
    } else {
        proof {
            assert(spec_financial_series(*json) =~= Map::<Seq<char>, Seq<FinancialDataPointView>>::empty());
        }
    }
    FinancialStatement {
        symbol: symbol.to_owned(),
        statement_type: statement_type.to_owned(),
        frequency: frequency.as_prefix().to_owned(),
        metrics,
    }
}

impl FinancialStatement {
    /// Get a specific metric's data points.
    pub fn get_metric(&self, name: &str) -> (r: Option<&Vec<FinancialDataPoint>>)
        requires
            unique_names(self.metrics@),
        ensures
            match r {
                Some(v) => metrics_map(self.metrics@).contains_key(name@) && metrics_map(
                    self.metrics@,
                )[name@] == points_view(v@),
                None => !metrics_map(self.metrics@).contains_key(name@),
            },
    {
        let n = self.metrics.len();
        let mut i: usize = 0;
        while i < n
            invariant
                n == self.metrics@.len(),
                unique_names(self.metrics@),
                i <= n,
                forall|t: int| 0 <= t < i ==> (#[trigger] self.metrics@[t]).0@ != name@,
            decreases n - i,
        {
            if str_eq(self.metrics[i].0.as_str(), name) {
                proof {
                    lemma_metrics_map_lookup(self.metrics@, i as int);
                }
                return Some(&self.metrics[i].1);
            }
            i = i + 1;
        }
        proof {
            lemma_metrics_map_dom(self.metrics@, name@);
        }
        None
    }

    /// Get the latest value of a metric: the number of its first point.
    pub fn latest(&self, name: &str) -> (r: Option<RawNumber>)
        requires
            unique_names(self.metrics@),
        ensures
            match r {
                Some(x) => metrics_map(self.metrics@).contains_key(name@) && metrics_map(
                    self.metrics@,
                )[name@].len() > 0 && metrics_map(self.metrics@)[name@][0].raw == x,
                None => !metrics_map(self.metrics@).contains_key(name@) || metrics_map(
                    self.metrics@,
                )[name@].len() == 0,
            },
    {
        match self.get_metric(name) {
            Some(points) => {
                if points.len() > 0 {
                    Some(points[0].raw)
                } else {
                    None
                }
            },
            None => None,
        }
    }

    /// Get all available metric names.
    pub fn metric_names(&self) -> (r: Vec<&String>)
        ensures
            r@.len() == self.metrics@.len(),
            forall|i: int| 0 <= i < r@.len() ==> #[trigger] r@[i]@ == self.metrics@[i].0@,
    {
        let mut out: Vec<&String> = Vec::new();
        let mut i: usize = 0;
        while i < self.metrics.len()
            invariant
                i <= self.metrics@.len(),
                out@.len() == i,
                forall|j: int| 0 <= j < i ==> #[trigger] out@[j]@ == self.metrics@[j].0@,
            decreases self.metrics@.len() - i,
        {
            out.push(&self.metrics[i].0);
            i = i + 1;
        }
        out
    }
}

/// The map holds, under a listed name, the points listed with it.
pub proof fn lemma_metrics_map_lookup(m: Seq<(String, Vec<FinancialDataPoint>)>, i: int)
    requires
        unique_names(m),
        0 <= i < m.len(),
    ensures
        metrics_map(m).contains_key(m[i].0@),
        metrics_map(m)[m[i].0@] == points_view(m[i].1@),
    decreases m.len(),
{
    if i < m.len() - 1 {
        let d = m.drop_last();
        assert(d[i] == m[i]);
        lemma_metrics_map_lookup(d, i);
        assert(m.last().0@ != m[i].0@);
    }
}


/// The texts of a list of string slices.
pub open spec fn strs_view(v: Seq<&str>) -> Seq<Seq<char>> {
    v.map_values(|s: &str| s@)
}

/// Field names with the prefix of a frequency.
pub open spec fn spec_prefixed(fields: Seq<Seq<char>>, frequency: Frequency) -> Seq<Seq<char>> {
    fields.map_values(|f: Seq<char>| frequency.spec_prefix() + f)
}

/// Seconds in a year of the period asked for (365 days).
pub const SECONDS_PER_YEAR: i64 = 31_536_000;

/// The income statement fields asked of the fundamentals time series.
pub open spec fn spec_income_statement_fields() -> Seq<Seq<char>> {
    seq![
        "TotalRevenue"@,
        "OperatingRevenue"@,
        "CostOfRevenue"@,
        "GrossProfit"@,
        "OperatingExpense"@,
        "SellingGeneralAndAdministration"@,
        "ResearchAndDevelopment"@,
        "OperatingIncome"@,
        "NetInterestIncome"@,
        "InterestExpense"@,
        "InterestIncome"@,
        "NetNonOperatingInterestIncomeExpense"@,
        "OtherIncomeExpense"@,
        "PretaxIncome"@,
        "TaxProvision"@,
        "NetIncomeCommonStockholders"@,
        "NetIncome"@,
        "DilutedEPS"@,
        "BasicEPS"@,
        "DilutedAverageShares"@,
        "BasicAverageShares"@,
        "EBIT"@,
        "EBITDA"@,
        "ReconciledCostOfRevenue"@,
        "ReconciledDepreciation"@,
        "NetIncomeFromContinuingOperationNetMinorityInterest"@,
        "NormalizedEBITDA"@,
        "TotalExpenses"@,
        "TotalOperatingIncomeAsReported"@,
    ]
}

/// The income statement fields asked of the fundamentals time series.
pub fn income_statement_fields() -> (v: Vec<&'static str>)
    ensures
        strs_view(v@) == spec_income_statement_fields(),
{
    let mut v: Vec<&'static str> = Vec::new();
    v.push("TotalRevenue");
    v.push("OperatingRevenue");
    v.push("CostOfRevenue");
    v.push("GrossProfit");
    v.push("OperatingExpense");
    v.push("SellingGeneralAndAdministration");
    v.push("ResearchAndDevelopment");
    v.push("OperatingIncome");
    v.push("NetInterestIncome");
    v.push("InterestExpense");
    v.push("InterestIncome");
    v.push("NetNonOperatingInterestIncomeExpense");
    v.push("OtherIncomeExpense");
    v.push("PretaxIncome");
    v.push("TaxProvision");
    v.push("NetIncomeCommonStockholders");
    v.push("NetIncome");
    v.push("DilutedEPS");
    v.push("BasicEPS");
    v.push("DilutedAverageShares");
    v.push("BasicAverageShares");
    v.push("EBIT");
    v.push("EBITDA");
    v.push("ReconciledCostOfRevenue");
    v.push("ReconciledDepreciation");
    v.push("NetIncomeFromContinuingOperationNetMinorityInterest");
    v.push("NormalizedEBITDA");
    v.push("TotalExpenses");
    v.push("TotalOperatingIncomeAsReported");
    assert(strs_view(v@) =~= spec_income_statement_fields());
    v
}

/// The balance sheet fields asked of the fundamentals time series.
pub open spec fn spec_balance_sheet_fields() -> Seq<Seq<char>> {
    seq![
        "TotalAssets"@,
        "CurrentAssets"@,
        "CashCashEquivalentsAndShortTermInvestments"@,
        "CashAndCashEquivalents"@,
        "CashFinancial"@,
        "Receivables"@,
        "AccountsReceivable"@,
        "Inventory"@,
        "PrepaidAssets"@,
        "OtherCurrentAssets"@,
        "TotalNonCurrentAssets"@,
        "NetPPE"@,
        "GrossPPE"@,
        "AccumulatedDepreciation"@,
        "Goodwill"@,
        "GoodwillAndOtherIntangibleAssets"@,
        "OtherIntangibleAssets"@,
        "InvestmentsAndAdvances"@,
        "LongTermEquityInvestment"@,
        "OtherNonCurrentAssets"@,
        "TotalLiabilitiesNetMinorityInterest"@,
        "CurrentLiabilities"@,
        "PayablesAndAccruedExpenses"@,
        "AccountsPayable"@,
        "CurrentDebt"@,
        "CurrentDeferredRevenue"@,
        "OtherCurrentLiabilities"@,
        "TotalNonCurrentLiabilitiesNetMinorityInterest"@,
        "LongTermDebt"@,
        "LongTermDebtAndCapitalLeaseObligation"@,
        "NonCurrentDeferredRevenue"@,
        "NonCurrentDeferredTaxesLiabilities"@,
        "OtherNonCurrentLiabilities"@,
        "StockholdersEquity"@,
        "CommonStockEquity"@,
        "CommonStock"@,
        "RetainedEarnings"@,
        "AdditionalPaidInCapital"@,
        "TreasuryStock"@,
        "TotalEquityGrossMinorityInterest"@,
        "WorkingCapital"@,
        "InvestedCapital"@,
        "TangibleBookValue"@,
        "TotalDebt"@,
        "NetDebt"@,
        "ShareIssued"@,
        "OrdinarySharesNumber"@,
    ]
}

/// The balance sheet fields asked of the fundamentals time series.
pub fn balance_sheet_fields() -> (v: Vec<&'static str>)
    ensures
        strs_view(v@) == spec_balance_sheet_fields(),
{
    let mut v: Vec<&'static str> = Vec::new();
    v.push("TotalAssets");
    v.push("CurrentAssets");
    v.push("CashCashEquivalentsAndShortTermInvestments");
    v.push("CashAndCashEquivalents");
    v.push("CashFinancial");
    v.push("Receivables");
    v.push("AccountsReceivable");
    v.push("Inventory");
    v.push("PrepaidAssets");
    v.push("OtherCurrentAssets");
    v.push("TotalNonCurrentAssets");
    v.push("NetPPE");
    v.push("GrossPPE");
    v.push("AccumulatedDepreciation");
    v.push("Goodwill");
    v.push("GoodwillAndOtherIntangibleAssets");
    v.push("OtherIntangibleAssets");
    v.push("InvestmentsAndAdvances");
    v.push("LongTermEquityInvestment");
    v.push("OtherNonCurrentAssets");
    v.push("TotalLiabilitiesNetMinorityInterest");
    v.push("CurrentLiabilities");
    v.push("PayablesAndAccruedExpenses");
    v.push("AccountsPayable");
    v.push("CurrentDebt");
    v.push("CurrentDeferredRevenue");
    v.push("OtherCurrentLiabilities");
    v.push("TotalNonCurrentLiabilitiesNetMinorityInterest");
    v.push("LongTermDebt");
    v.push("LongTermDebtAndCapitalLeaseObligation");
    v.push("NonCurrentDeferredRevenue");
    v.push("NonCurrentDeferredTaxesLiabilities");
    v.push("OtherNonCurrentLiabilities");
    v.push("StockholdersEquity");
    v.push("CommonStockEquity");
    v.push("CommonStock");
    v.push("RetainedEarnings");
    v.push("AdditionalPaidInCapital");
    v.push("TreasuryStock");
    v.push("TotalEquityGrossMinorityInterest");
    v.push("WorkingCapital");
    v.push("InvestedCapital");
    v.push("TangibleBookValue");
    v.push("TotalDebt");
    v.push("NetDebt");
    v.push("ShareIssued");
    v.push("OrdinarySharesNumber");
    assert(strs_view(v@) =~= spec_balance_sheet_fields());
    v
}

/// The cash flow statement fields asked of the fundamentals time series.
pub open spec fn spec_cash_flow_fields() -> Seq<Seq<char>> {
    seq![
        "OperatingCashFlow"@,
        "CashFlowFromContinuingOperatingActivities"@,
        "NetIncomeFromContinuingOperations"@,
        "DepreciationAndAmortization"@,
        "DeferredIncomeTax"@,
        "ChangeInWorkingCapital"@,
        "ChangeInReceivables"@,
        "ChangesInAccountReceivables"@,
        "ChangeInInventory"@,
        "ChangeInAccountPayable"@,
        "ChangeInOtherWorkingCapital"@,
        "StockBasedCompensation"@,
        "OtherNonCashItems"@,
        "InvestingCashFlow"@,
        "CashFlowFromContinuingInvestingActivities"@,
        "NetPPEPurchaseAndSale"@,
        "PurchaseOfPPE"@,
        "SaleOfPPE"@,
        "CapitalExpenditure"@,
        "NetBusinessPurchaseAndSale"@,
        "PurchaseOfBusiness"@,
        "SaleOfBusiness"@,
        "NetInvestmentPurchaseAndSale"@,
        "PurchaseOfInvestment"@,
        "SaleOfInvestment"@,
        "NetOtherInvestingChanges"@,
        "FinancingCashFlow"@,
        "CashFlowFromContinuingFinancingActivities"@,
        "NetIssuancePaymentsOfDebt"@,
        "NetLongTermDebtIssuance"@,
        "LongTermDebtIssuance"@,
        "LongTermDebtPayments"@,
        "NetShortTermDebtIssuance"@,
        "NetCommonStockIssuance"@,
        "CommonStockIssuance"@,
        "CommonStockPayments"@,
        "RepurchaseOfCapitalStock"@,
        "CashDividendsPaid"@,
        "CommonStockDividendPaid"@,
        "NetOtherFinancingCharges"@,
        "EndCashPosition"@,
        "BeginningCashPosition"@,
        "ChangesinCash"@,
        "EffectOfExchangeRateChanges"@,
        "FreeCashFlow"@,
        "CapitalExpenditureReported"@,
    ]
}

/// The cash flow statement fields asked of the fundamentals time series.
pub fn cash_flow_fields() -> (v: Vec<&'static str>)
    ensures
        strs_view(v@) == spec_cash_flow_fields(),
{
    let mut v: Vec<&'static str> = Vec::new();
    v.push("OperatingCashFlow");
    v.push("CashFlowFromContinuingOperatingActivities");
    v.push("NetIncomeFromContinuingOperations");
    v.push("DepreciationAndAmortization");
    v.push("DeferredIncomeTax");
    v.push("ChangeInWorkingCapital");
    v.push("ChangeInReceivables");
    v.push("ChangesInAccountReceivables");
    v.push("ChangeInInventory");
    v.push("ChangeInAccountPayable");
    v.push("ChangeInOtherWorkingCapital");
    v.push("StockBasedCompensation");
    v.push("OtherNonCashItems");
    v.push("InvestingCashFlow");
    v.push("CashFlowFromContinuingInvestingActivities");
    v.push("NetPPEPurchaseAndSale");
    v.push("PurchaseOfPPE");
    v.push("SaleOfPPE");
    v.push("CapitalExpenditure");
    v.push("NetBusinessPurchaseAndSale");
    v.push("PurchaseOfBusiness");
    v.push("SaleOfBusiness");
    v.push("NetInvestmentPurchaseAndSale");
    v.push("PurchaseOfInvestment");
    v.push("SaleOfInvestment");
    v.push("NetOtherInvestingChanges");
    v.push("FinancingCashFlow");
    v.push("CashFlowFromContinuingFinancingActivities");
    v.push("NetIssuancePaymentsOfDebt");
    v.push("NetLongTermDebtIssuance");
    v.push("LongTermDebtIssuance");
    v.push("LongTermDebtPayments");
    v.push("NetShortTermDebtIssuance");
    v.push("NetCommonStockIssuance");
    v.push("CommonStockIssuance");
    v.push("CommonStockPayments");
    v.push("RepurchaseOfCapitalStock");
    v.push("CashDividendsPaid");
    v.push("CommonStockDividendPaid");
    v.push("NetOtherFinancingCharges");
    v.push("EndCashPosition");
    v.push("BeginningCashPosition");
    v.push("ChangesinCash");
    v.push("EffectOfExchangeRateChanges");
    v.push("FreeCashFlow");
    v.push("CapitalExpenditureReported");
    assert(strs_view(v@) =~= spec_cash_flow_fields());
    v
}

/// The fundamentals time-series request for `fields` at `frequency`,
/// covering the `years` years (of 365 days) up to the Unix time `now`.
pub fn financials_request(
    symbol: &str,
    fields: &Vec<&str>,
    frequency: Frequency,
    years: i64,
    now: i64,
) -> (r: Request)
    requires
        i64::MIN <= years * SECONDS_PER_YEAR <= i64::MAX,
        i64::MIN <= now - years * SECONDS_PER_YEAR <= i64::MAX,
    ensures
        r.view_parts() == spec_fundamentals_request(
            symbol@,
            now - years * SECONDS_PER_YEAR,
            now as int,
            spec_prefixed(strs_view(fields@), frequency),
        ),
{
    let period1 = now - years * SECONDS_PER_YEAR;
    let prefixed = build_fields(fields, frequency);
    assert(strings_view(prefixed@) =~= spec_prefixed(strs_view(fields@), frequency));
    fundamentals_timeseries_request(symbol, period1, now, &prefixed)
}

} // verus!
