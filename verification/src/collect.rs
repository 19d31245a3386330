//! The items that a `filter_map` keeps.

use vstd::prelude::*;

verus! {

/// The values present in `s`, in order.
pub open spec fn keep_some<T>(s: Seq<Option<T>>) -> Seq<T>
    decreases s.len(),
{
    if s.len() == 0 {
        Seq::empty()
    } else {
        let kept = keep_some(s.drop_last());
        match s.last() {
            Some(x) => kept.push(x),
            None => kept,
        }
    }
}

/// Mapping the first `i + 1` items is mapping the first `i` and then item
/// `i`.
pub proof fn lemma_take_map_push<A, B>(s: Seq<A>, f: spec_fn(A) -> B, i: int)
    requires
        0 <= i < s.len(),
    ensures
        s.take(i + 1).map_values(f) == s.take(i).map_values(f).push(f(s[i])),
{
    assert(s.take(i + 1).map_values(f) =~= s.take(i).map_values(f).push(f(s[i])));
}

/// What `filter_map` keeps of one more item.
pub proof fn lemma_keep_some_push<T>(s: Seq<Option<T>>, x: Option<T>)
    ensures
        keep_some(s.push(x)) == match x {
            Some(v) => keep_some(s).push(v),
            None => keep_some(s),
        },
{
    assert(s.push(x).drop_last() =~= s);
}

/// Keeping what `f` gives for the first `i + 1` items.
pub proof fn lemma_keep_some_take<A, B>(s: Seq<A>, f: spec_fn(A) -> Option<B>, i: int)
    requires
        0 <= i < s.len(),
    ensures
        keep_some(s.take(i + 1).map_values(f)) == match f(s[i]) {
            Some(v) => keep_some(s.take(i).map_values(f)).push(v),
            None => keep_some(s.take(i).map_values(f)),
        },
{
    lemma_take_map_push(s, f, i);
    lemma_keep_some_push(s.take(i).map_values(f), f(s[i]));
}

/// All of a sequence is its first `len` items.
pub proof fn lemma_take_all<A>(s: Seq<A>)
    ensures
        s.take(s.len() as int) == s,
{
    assert(s.take(s.len() as int) =~= s);
}

/// The first `i + 1` items hold `k` exactly when the first `i` do or item
/// `i` is `k`.
pub proof fn lemma_take_contains<T>(s: Seq<T>, i: int, k: T)
    requires
        0 <= i < s.len(),
    ensures
        s.take(i + 1).contains(k) <==> (s.take(i).contains(k) || s[i] == k),
{
    if s.take(i + 1).contains(k) {
        let j = choose|j: int| 0 <= j < i + 1 && #[trigger] s.take(i + 1)[j] == k;
        if j < i {
            assert(s.take(i)[j] == k);
        }
    }
    if s.take(i).contains(k) {
        let j = choose|j: int| 0 <= j < i && #[trigger] s.take(i)[j] == k;
        assert(s.take(i + 1)[j] == k);
    }
    if s[i] == k {
        assert(s.take(i + 1)[i] == k);
    }
}


/// The view `f` of an optional list.
pub open spec fn opt_seq_view<A, B>(o: Option<Vec<A>>, f: spec_fn(Seq<A>) -> Seq<B>) -> Option<Seq<B>> {
    match o {
        Some(v) => Some(f(v@)),
        None => None,
    }
}

} // verus!
