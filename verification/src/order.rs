//! Stable orderings of records by a key.
//!
//! Records are ordered through their positions: the result of an ordering is
//! the sequence of positions `0..n` in the order the records are to be
//! listed.  A stable order keeps records with equal keys in the order
//! they came in, which is what `slice::sort_by_key` and `slice::sort_by` give.

use vstd::prelude::*;
use vstd::string::*;

verus! {

/// `p` lists every position below `n` exactly once.
pub open spec fn is_index_permutation(p: Seq<usize>, n: nat) -> bool {
    &&& p.len() == n
    &&& forall|i: int| 0 <= i < p.len() ==> #[trigger] p[i] < n
    &&& forall|i: int, j: int| 0 <= i < j < p.len() ==> p[i] != p[j]
}

/// The record at position `a` (key `ka`) comes before the one at position
/// `b` (key `kb`) in a stable order that is ascending, or descending when
/// `desc` holds.
pub open spec fn precedes_i64(ka: i64, a: usize, kb: i64, b: usize, desc: bool) -> bool {
    if desc {
        ka > kb || (ka == kb && a < b)
    } else {
        ka < kb || (ka == kb && a < b)
    }
}

/// `p` lists positions so that each comes before all those after it.
pub open spec fn stably_ordered_i64(p: Seq<usize>, keys: Seq<i64>, desc: bool) -> bool {
    forall|i: int, j: int|
        0 <= i < j < p.len() ==> precedes_i64(
            keys[p[i] as int],
            #[trigger] p[i],
            keys[p[j] as int],
            #[trigger] p[j],
            desc,
        )
}

/// A record with key `a` must be listed after every record with key `b`
/// that arrives later.
fn comes_after_i64(a: i64, b: i64, desc: bool) -> (r: bool)
    ensures
        r == if desc {
            a < b
        } else {
            a > b
        },
{
    if desc {
        a < b
    } else {
        a > b
    }
}

/// The stable order of records by integer keys, ascending or (with `desc`)
/// descending: a permutation of the positions in which keys never go the
/// wrong way and equal keys keep the order they came in.
pub fn stable_order_i64(keys: &Vec<i64>, desc: bool) -> (p: Vec<usize>)
    ensures
        is_index_permutation(p@, keys@.len()),
        stably_ordered_i64(p@, keys@, desc),
{
    let n = keys.len();
    let mut p: Vec<usize> = Vec::new();
    let mut k: usize = 0;
    while k < n
        invariant
            n == keys@.len(),
            k <= n,
            is_index_permutation(p@, k as nat),
            stably_ordered_i64(p@, keys@, desc),
        decreases n - k,
    {
        let key = keys[k];
        let mut j: usize = p.len();
        while j > 0 && comes_after_i64(keys[p[j - 1]], key, desc)
            invariant
                n == keys@.len(),
                k < n,
                key == keys@[k as int],
                j <= p@.len(),
                is_index_permutation(p@, k as nat),
                stably_ordered_i64(p@, keys@, desc),
                forall|t: int|
                    j <= t < p@.len() ==> if desc {
                        keys@[#[trigger] p@[t] as int] < key
                    } else {
                        keys@[#[trigger] p@[t] as int] > key
                    },
            decreases j,
        {
            j = j - 1;
        }
        proof {
            // Every record kept before the insertion point precedes `k`.
            assert forall|t: int| 0 <= t < j implies precedes_i64(
                keys@[p@[t] as int],
                #[trigger] p@[t],
                key,
                k,
                desc,
            ) by {
                if t < j - 1 {
                    assert(precedes_i64(
                        keys@[p@[t] as int],
                        p@[t],
                        keys@[p@[j - 1] as int],
                        p@[j - 1],
                        desc,
                    ));
                }
            }
        }
        let ghost old_p = p@;
        p.insert(j, k);
        proof {
            assert(p@ == old_p.insert(j as int, k));
            assert forall|i: int| 0 <= i < p@.len() implies #[trigger] p@[i] < k + 1 by {
                if i < j {
                    assert(p@[i] == old_p[i]);
                } else if i > j {
                    assert(p@[i] == old_p[i - 1]);
                }
            }
            assert forall|a: int, b: int| 0 <= a < b < p@.len() implies p@[a] != p@[b] by {
                if a < j && b < j {
                } else if a < j && b == j {
                    assert(p@[a] == old_p[a]);
                } else if a < j && b > j {
                    assert(p@[a] == old_p[a]);
                    assert(p@[b] == old_p[b - 1]);
                } else if a == j {
                    assert(p@[b] == old_p[b - 1]);
                } else {
                    assert(p@[a] == old_p[a - 1]);
                    assert(p@[b] == old_p[b - 1]);
                }
            }
            assert forall|a: int, b: int| 0 <= a < b < p@.len() implies precedes_i64(
                keys@[p@[a] as int],
                #[trigger] p@[a],
                keys@[p@[b] as int],
                #[trigger] p@[b],
                desc,
            ) by {
                if b < j {
                    assert(p@[a] == old_p[a]);
                    assert(p@[b] == old_p[b]);
                } else if b == j {
                    assert(p@[a] == old_p[a]);
                } else if a < j {
                    assert(p@[a] == old_p[a]);
                    assert(p@[b] == old_p[b - 1]);
                    assert(precedes_i64(keys@[old_p[a] as int], old_p[a], key, k, desc));
                    assert(if desc {
                        keys@[old_p[b - 1] as int] < key
                    } else {
                        keys@[old_p[b - 1] as int] > key
                    });
                } else if a == j {
                    assert(p@[b] == old_p[b - 1]);
                    assert(if desc {
                        keys@[old_p[b - 1] as int] < key
                    } else {
                        keys@[old_p[b - 1] as int] > key
                    });
                } else {
                    assert(p@[a] == old_p[a - 1]);
                    assert(p@[b] == old_p[b - 1]);
                }
            }
        }
        k = k + 1;
    }
    p
}

/// Lexicographic order on texts by code point, as `str::cmp` orders them:
/// `a` comes no later than `b`.
pub open spec fn text_le(a: Seq<char>, b: Seq<char>) -> bool
    decreases a.len(),
{
    if a.len() == 0 {
        true
    } else if b.len() == 0 {
        false
    } else if a[0] != b[0] {
        (a[0] as int) < (b[0] as int)
    } else {
        text_le(a.drop_first(), b.drop_first())
    }
}

/// `text_le` is total.
pub proof fn lemma_text_le_total(a: Seq<char>, b: Seq<char>)
    ensures
        text_le(a, b) || text_le(b, a),
    decreases a.len(),
{
    if a.len() > 0 && b.len() > 0 {
        if a[0] == b[0] {
            lemma_text_le_total(a.drop_first(), b.drop_first());
        } else {
            assert((a[0] as int) != (b[0] as int));
        }
    }
}

/// `text_le` is antisymmetric.
pub proof fn lemma_text_le_antisymmetric(a: Seq<char>, b: Seq<char>)
    requires
        text_le(a, b),
        text_le(b, a),
    ensures
        a == b,
    decreases a.len(),
{
    if a.len() == 0 {
        assert(b.len() == 0);
        assert(a =~= b);
    } else {
        assert(b.len() > 0);
        assert(a[0] == b[0]);
        lemma_text_le_antisymmetric(a.drop_first(), b.drop_first());
        assert(a =~= seq![a[0]] + a.drop_first());
        assert(b =~= seq![b[0]] + b.drop_first());
    }
}

/// `text_le` is transitive.
pub proof fn lemma_text_le_transitive(a: Seq<char>, b: Seq<char>, c: Seq<char>)
    requires
        text_le(a, b),
        text_le(b, c),
    ensures
        text_le(a, c),
    decreases a.len(),
{
    if a.len() > 0 && b.len() > 0 && c.len() > 0 && a[0] == b[0] && b[0] == c[0] {
        lemma_text_le_transitive(a.drop_first(), b.drop_first(), c.drop_first());
    }
}

/// Compares two texts: negative, zero or positive as `a` comes before, is
/// equal to, or comes after `b`.
pub fn compare_text(a: &str, b: &str) -> (r: i8)
    ensures
        r == 0 <==> a@ == b@,
        r < 0 <==> (text_le(a@, b@) && a@ != b@),
        r > 0 <==> (text_le(b@, a@) && a@ != b@),
{
    let n = a.unicode_len();
    let m = b.unicode_len();
    let mut i: usize = 0;
    assert(a@.skip(0) =~= a@);
    assert(b@.skip(0) =~= b@);
    while i < n && i < m
        invariant
            n == a@.len(),
            m == b@.len(),
            i <= n,
            i <= m,
            a@.subrange(0, i as int) == b@.subrange(0, i as int),
            text_le(a@, b@) == text_le(a@.skip(i as int), b@.skip(i as int)),
            text_le(b@, a@) == text_le(b@.skip(i as int), a@.skip(i as int)),
        decreases n - i,
    {
        let x = a.get_char(i);
        let y = b.get_char(i);
        if x != y {
            proof {
                assert(a@.skip(i as int)[0] == x);
                assert(b@.skip(i as int)[0] == y);
                assert(a@[i as int] != b@[i as int]);
            }
            if (x as u32) < (y as u32) {
                return -1;
            } else {
                return 1;
            }
        }
        proof {
            assert(a@.skip(i as int).drop_first() =~= a@.skip(i + 1));
            assert(b@.skip(i as int).drop_first() =~= b@.skip(i + 1));
            assert(a@.subrange(0, i + 1) =~= a@.subrange(0, i as int).push(x));
            assert(b@.subrange(0, i + 1) =~= b@.subrange(0, i as int).push(y));
        }
        i = i + 1;
    }
    proof {
        assert(a@.subrange(0, n as int) =~= a@);
        assert(b@.subrange(0, m as int) =~= b@);
    }
    if n == m {
        proof {
            assert(a@ =~= a@.subrange(0, i as int));
            assert(b@ =~= b@.subrange(0, i as int));
        }
        0
    } else if n < m {
        proof {
            assert(a@.skip(i as int).len() == 0);
            if a@ == b@ {
                assert(a@.len() == b@.len());
            }
            assert(b@.skip(i as int).len() > 0);
        }
        -1
    } else {
        proof {
            assert(b@.skip(i as int).len() == 0);
            assert(a@.skip(i as int).len() > 0);
            if a@ == b@ {
                assert(a@.len() == b@.len());
            }
        }
        1
    }
}

/// The record at position `a` (key `ka`) comes before the one at position
/// `b` (key `kb`) in a stable descending order of texts.
pub open spec fn precedes_text_desc(ka: Seq<char>, a: usize, kb: Seq<char>, b: usize) -> bool {
    (text_le(kb, ka) && ka != kb) || (ka == kb && a < b)
}

/// `p` lists positions in stable descending order of the texts `keys`.
pub open spec fn stably_ordered_text_desc(p: Seq<usize>, keys: Seq<Seq<char>>) -> bool {
    forall|i: int, j: int|
        0 <= i < j < p.len() ==> precedes_text_desc(
            keys[p[i] as int],
            #[trigger] p[i],
            keys[p[j] as int],
            #[trigger] p[j],
        )
}

/// The texts viewed as character sequences.
pub open spec fn texts_view(v: Seq<String>) -> Seq<Seq<char>> {
    v.map_values(|s: String| s@)
}

/// The stable descending order of records by text keys
/// (`sort_by(|a, b| b.key.cmp(&a.key))`).
pub fn stable_order_text_desc(keys: &Vec<String>) -> (p: Vec<usize>)
    ensures
        is_index_permutation(p@, keys@.len()),
        stably_ordered_text_desc(p@, texts_view(keys@)),
{
    let n = keys.len();
    let ghost kv = texts_view(keys@);
    let mut p: Vec<usize> = Vec::new();
    let mut k: usize = 0;
    while k < n
        invariant
            n == keys@.len(),
            kv == texts_view(keys@),
            kv.len() == n,
            k <= n,
            is_index_permutation(p@, k as nat),
            stably_ordered_text_desc(p@, kv),
        decreases n - k,
    {
        let key = keys[k].as_str();
        assert(key@ == kv[k as int]);
        let mut j: usize = p.len();
        while j > 0 && compare_text(keys[p[j - 1]].as_str(), key) < 0
            invariant
                n == keys@.len(),
                kv == texts_view(keys@),
                kv.len() == n,
                k < n,
                key@ == kv[k as int],
                j <= p@.len(),
                is_index_permutation(p@, k as nat),
                stably_ordered_text_desc(p@, kv),
                forall|t: int|
                    j <= t < p@.len() ==> text_le(kv[#[trigger] p@[t] as int], key@) && kv[p@[
                        t
                    ] as int] != key@,
            decreases j,
        {
            assert(keys@[p@[j - 1] as int]@ == kv[p@[j - 1] as int]);
            j = j - 1;
        }
        proof {
            if j > 0 {
                let last = kv[p@[j - 1] as int];
                assert(keys@[p@[j - 1] as int]@ == last);
                // The record just before the insertion point does not come
                // after `k`; neither does any earlier one.
                assert(!(text_le(last, key@) && last != key@));
                lemma_text_le_total(last, key@);
                assert forall|t: int| 0 <= t < j implies precedes_text_desc(
                    kv[p@[t] as int],
                    #[trigger] p@[t],
                    key@,
                    k,
                ) by {
                    let kt = kv[p@[t] as int];
                    if t < j - 1 {
                        assert(precedes_text_desc(kt, p@[t], last, p@[j - 1]));
                        if kt == last {
                        } else {
                            if text_le(kt, key@) {
                                lemma_text_le_transitive(last, kt, key@);
                                lemma_text_le_antisymmetric(last, key@);
                                lemma_text_le_transitive(key@, last, kt);
                                lemma_text_le_antisymmetric(kt, key@);
                            }
                            lemma_text_le_total(kt, key@);
                            if key@ == last {
                            } else {
                                lemma_text_le_transitive(key@, last, kt);
                            }
                        }
                    }
                }
            }
        }
        let ghost old_p = p@;
        p.insert(j, k);
        proof {
            assert(p@ == old_p.insert(j as int, k));
            assert forall|i: int| 0 <= i < p@.len() implies #[trigger] p@[i] < k + 1 by {
                if i < j {
                    assert(p@[i] == old_p[i]);
                } else if i > j {
                    assert(p@[i] == old_p[i - 1]);
                }
            }
            assert forall|a: int, b: int| 0 <= a < b < p@.len() implies p@[a] != p@[b] by {
                if a < j && b < j {
                } else if a < j && b == j {
                    assert(p@[a] == old_p[a]);
                } else if a < j && b > j {
                    assert(p@[a] == old_p[a]);
                    assert(p@[b] == old_p[b - 1]);
                } else if a == j {
                    assert(p@[b] == old_p[b - 1]);
                } else {
                    assert(p@[a] == old_p[a - 1]);
                    assert(p@[b] == old_p[b - 1]);
                }
            }
            assert forall|a: int, b: int| 0 <= a < b < p@.len() implies precedes_text_desc(
                kv[p@[a] as int],
                #[trigger] p@[a],
                kv[p@[b] as int],
                #[trigger] p@[b],
            ) by {
                if b < j {
                    assert(p@[a] == old_p[a]);
                    assert(p@[b] == old_p[b]);
                } else if b == j {
                    assert(p@[a] == old_p[a]);
                } else if a < j {
                    assert(p@[a] == old_p[a]);
                    assert(p@[b] == old_p[b - 1]);
                    let ka = kv[old_p[a] as int];
                    let kb = kv[old_p[b - 1] as int];
                    assert(precedes_text_desc(ka, old_p[a], key@, k));
                    assert(text_le(kb, key@) && kb != key@);
                    if ka == key@ {
                    } else {
                        lemma_text_le_transitive(kb, key@, ka);
                        if kb == ka {
                            lemma_text_le_antisymmetric(key@, ka);
                        }
                    }
                } else if a == j {
                    assert(p@[b] == old_p[b - 1]);
                } else {
                    assert(p@[a] == old_p[a - 1]);
                    assert(p@[b] == old_p[b - 1]);
                }
            }
        }
        k = k + 1;
    }
    p
}

} // verus!
