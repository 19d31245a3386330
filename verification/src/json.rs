//! The JSON documents that Yahoo Finance answers with, as the library reads
//! them: a tree of values whose numbers are kept as `i64` where they are
//! integers in that range, and otherwise by the bits of their `f64` value.

use vstd::prelude::*;
use crate::text::str_eq;

verus! {

/// A JSON value.
#[derive(Debug)]
pub enum JsonValue {
    Null,
    Bool(bool),
    /// A number that is an integer within the range of `i64`.
    Int(i64),
    /// Any other number (fractional, or an integer outside `i64`), by the
    /// bits of its `f64` value (`f64::to_bits`).
    Float(u64),
    Str(String),
    Array(Vec<JsonValue>),
    /// The members of an object, in document order.
    Object(Vec<(String, JsonValue)>),
}

/// The value behind an optional reference.
pub open spec fn deref_opt(r: Option<&JsonValue>) -> Option<JsonValue> {
    match r {
        Some(v) => Some(*v),
        None => None,
    }
}

/// The value of the first member named `key`.
pub open spec fn lookup(fields: Seq<(String, JsonValue)>, key: Seq<char>) -> Option<JsonValue>
    decreases fields.len(),
{
    if fields.len() == 0 {
        None
    } else if fields[0].0@ == key {
        Some(fields[0].1)
    } else {
        lookup(fields.drop_first(), key)
    }
}

impl JsonValue {
    /// The member named `key` of an object; nothing for other values.
    pub open spec fn spec_get(self, key: Seq<char>) -> Option<JsonValue> {
        match self {
            JsonValue::Object(fields) => lookup(fields@, key),
            _ => None,
        }
    }

    /// The element at position `i` of an array; nothing for other values.
    pub open spec fn spec_at(self, i: int) -> Option<JsonValue> {
        match self {
            JsonValue::Array(items) => if 0 <= i < items@.len() {
                Some(items@[i])
            } else {
                None
            },
            _ => None,
        }
    }

    /// The text of a string value.
    pub open spec fn spec_as_str(self) -> Option<Seq<char>> {
        match self {
            JsonValue::Str(s) => Some(s@),
            _ => None,
        }
    }

    /// The value of an integer number.
    pub open spec fn spec_as_i64(self) -> Option<i64> {
        match self {
            JsonValue::Int(n) => Some(n),
            _ => None,
        }
    }

    /// The elements of an array.
    pub open spec fn spec_as_array(self) -> Option<Seq<JsonValue>> {
        match self {
            JsonValue::Array(items) => Some(items@),
            _ => None,
        }
    }

    /// The member named `key` of an object (`Value::get` with a key).
    pub fn get(&self, key: &str) -> (r: Option<&JsonValue>)
        ensures
            deref_opt(r) == self.spec_get(key@),
    {
        match self {
            JsonValue::Object(fields) => {
                let n = fields.len();
                let mut i: usize = 0;
                assert(fields@.skip(0) =~= fields@);
                while i < n
                    invariant
                        n == fields@.len(),
                        i <= n,
                        self.spec_get(key@) == lookup(fields@.skip(i as int), key@),
                    decreases n - i,
                {
                    assert(fields@.skip(i as int).drop_first() =~= fields@.skip(i + 1));
                    assert(fields@.skip(i as int)[0] == fields@[i as int]);
                    if str_eq(fields[i].0.as_str(), key) {
                        assert(fields@.skip(i as int).len() > 0);
                        assert(lookup(fields@.skip(i as int), key@) == Some(fields@[i as int].1));
                        return Some(&fields[i].1);
                    }
                    i = i + 1;
                }
                None
            },
            _ => None,
        }
    }

    /// The element at position `i` of an array (`Value::get` with an index).
    pub fn at(&self, i: usize) -> (r: Option<&JsonValue>)
        ensures
            deref_opt(r) == self.spec_at(i as int),
    {
        match self {
            JsonValue::Array(items) => {
                if i < items.len() {
                    Some(&items[i])
                } else {
                    None
                }
            },
            _ => None,
        }
    }

    /// The text of a string value (`Value::as_str`).
    pub fn as_str(&self) -> (r: Option<&str>)
        ensures
            match r {
                Some(s) => self.spec_as_str() == Some(s@),
                None => self.spec_as_str() is None,
            },
    {
        match self {
            JsonValue::Str(s) => Some(s.as_str()),
            _ => None,
        }
    }

    /// The value of an integer number (`Value::as_i64`).
    pub fn as_i64(&self) -> (r: Option<i64>)
        ensures
            r == self.spec_as_i64(),
    {
        match self {
            JsonValue::Int(n) => Some(*n),
            _ => None,
        }
    }

    /// The elements of an array (`Value::as_array`).
    pub fn as_array(&self) -> (r: Option<&Vec<JsonValue>>)
        ensures
            match r {
                Some(v) => self.spec_as_array() == Some(v@),
                None => self.spec_as_array() is None,
            },
    {
        match self {
            JsonValue::Array(items) => Some(items),
            _ => None,
        }
    }
}

/// The module `module` of the first result of a `quoteSummary` answer.
pub open spec fn spec_summary_module(json: JsonValue, module: Seq<char>) -> Option<JsonValue> {
    match json.spec_get("quoteSummary"@) {
        Some(q) => match q.spec_get("result"@) {
            Some(r) => match r.spec_at(0) {
                Some(first) => first.spec_get(module),
                None => None,
            },
            None => None,
        },
        None => None,
    }
}

/// The module `module` of the first result of a `quoteSummary` answer.
pub fn summary_module<'a>(json: &'a JsonValue, module: &str) -> (r: Option<&'a JsonValue>)
    ensures
        deref_opt(r) == spec_summary_module(*json, module@),
{
    let q = json.get("quoteSummary")?;
    let res = q.get("result")?;
    let first = res.at(0)?;
    first.get(module)
}

/// An optional string member of an object, as an owned string.
pub open spec fn spec_str_member(item: JsonValue, key: Seq<char>) -> Option<Seq<char>> {
    match item.spec_get(key) {
        Some(v) => v.spec_as_str(),
        None => None,
    }
}

/// An optional integer member of an object.
pub open spec fn spec_i64_member(item: JsonValue, key: Seq<char>) -> Option<i64> {
    match item.spec_get(key) {
        Some(v) => v.spec_as_i64(),
        None => None,
    }
}

/// An optional string member of an object, copied out.
pub fn str_member(item: &JsonValue, key: &str) -> (r: Option<String>)
    ensures
        match r {
            Some(s) => spec_str_member(*item, key@) == Some(s@),
            None => spec_str_member(*item, key@) is None,
        },
{
    match item.get(key) {
        Some(v) => match v.as_str() {
            Some(s) => Some(s.to_owned()),
            None => None,
        },
        None => None,
    }
}

/// An optional integer member of an object.
pub fn i64_member(item: &JsonValue, key: &str) -> (r: Option<i64>)
    ensures
        r == spec_i64_member(*item, key@),
{
    match item.get(key) {
        Some(v) => v.as_i64(),
        None => None,
    }
}

/// An optional string member, viewed as a sequence of characters.
pub open spec fn opt_view(s: Option<String>) -> Option<Seq<char>> {
    match s {
        Some(t) => Some(t@),
        None => None,
    }
}

/// The array named `key` inside the module `module` of a `quoteSummary`
/// answer.
pub open spec fn spec_summary_list(json: JsonValue, module: Seq<char>, key: Seq<char>) -> Option<
    Seq<JsonValue>,
> {
    match spec_summary_module(json, module) {
        Some(m) => match m.spec_get(key) {
            Some(l) => l.spec_as_array(),
            None => None,
        },
        None => None,
    }
}

/// The array named `key` inside the module `module` of a `quoteSummary`
/// answer.
pub fn summary_list<'a>(json: &'a JsonValue, module: &str, key: &str) -> (r: Option<
    &'a Vec<JsonValue>,
>)
    ensures
        match r {
            Some(v) => spec_summary_list(*json, module@, key@) == Some(v@),
            None => spec_summary_list(*json, module@, key@) is None,
        },
{
    let m = summary_module(json, module)?;
    let l = m.get(key)?;
    l.as_array()
}

/// A number of an answer: an `i64` integer, or the bits of the `f64`
/// value of any other number.  (What `Value::as_f64` reads as a float.)
#[derive(Debug, Clone, Copy, PartialEq, Eq, Structural)]
pub enum Number {
    Int(i64),
    Float(u64),
}

impl JsonValue {
    /// The number a value holds, if it is a number.
    pub open spec fn spec_as_number(self) -> Option<Number> {
        match self {
            JsonValue::Int(n) => Some(Number::Int(n)),
            JsonValue::Float(b) => Some(Number::Float(b)),
            _ => None,
        }
    }

    /// The number a value holds, if it is a number.
    pub fn as_number(&self) -> (r: Option<Number>)
        ensures
            r == self.spec_as_number(),
    {
        match self {
            JsonValue::Int(n) => Some(Number::Int(*n)),
            JsonValue::Float(b) => Some(Number::Float(*b)),
            _ => None,
        }
    }
}

/// An optional number member of an object.
pub open spec fn spec_number_member(item: JsonValue, key: Seq<char>) -> Option<Number> {
    match item.spec_get(key) {
        Some(v) => v.spec_as_number(),
        None => None,
    }
}

/// An optional number member of an object.
pub fn number_member(item: &JsonValue, key: &str) -> (r: Option<Number>)
    ensures
        r == spec_number_member(*item, key@),
{
    match item.get(key) {
        Some(v) => v.as_number(),
        None => None,
    }
}

} // verus!
