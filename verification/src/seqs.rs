//! Facts about sequences that the collections of the browser model share:
//! keys that occur once, and what filtering keeps.

use vstd::prelude::*;

verus! {

/// No two elements of `s` have the same key.
pub open spec fn unique_by<A, K>(s: Seq<A>, key: spec_fn(A) -> K) -> bool {
    forall|i: int, j: int| 0 <= i < s.len() && 0 <= j < s.len() && i != j ==> key(s[i]) != key(s[j])
}

/// Each element of a filtered sequence occurs in the unfiltered one.
pub proof fn lemma_filter_element_from<A>(s: Seq<A>, pred: spec_fn(A) -> bool, k: int)
    requires
        0 <= k < s.filter(pred).len(),
    ensures
        s.contains(s.filter(pred)[k]),
    decreases s.len(),
{
    reveal(Seq::filter);
    if s.len() == 0 {
        assert(s.filter(pred) == s);
    }
    let d = s.drop_last();
    let g = d.filter(pred);
    assert(s.filter(pred) == if pred(s.last()) { g.push(s.last()) } else { g });
    if pred(s.last()) && k == g.len() {
        assert(s[s.len() - 1] == s.filter(pred)[k]);
    } else {
        assert(s.filter(pred)[k] == g[k]);
        lemma_filter_element_from(d, pred, k);
        let a = choose|a: int| 0 <= a < d.len() && d[a] == g[k];
        assert(s[a] == d[a]);
    }
}

/// Filtering keeps keys unique.
pub proof fn lemma_filter_unique<A, K>(s: Seq<A>, key: spec_fn(A) -> K, pred: spec_fn(A) -> bool)
    requires
        unique_by(s, key),
    ensures
        unique_by(s.filter(pred), key),
    decreases s.len(),
{
    reveal(Seq::filter);
    if s.len() > 0 {
        let d = s.drop_last();
        assert(unique_by(d, key)) by {
            assert forall|i: int, j: int| 0 <= i < d.len() && 0 <= j < d.len() && i != j implies key(d[i]) != key(d[j]) by {
                assert(d[i] == s[i] && d[j] == s[j]);
            }
        }
        lemma_filter_unique(d, key, pred);
        let g = d.filter(pred);
        if pred(s.last()) {
            let f = g.push(s.last());
            assert(s.filter(pred) == f);
            assert forall|i: int, j: int| 0 <= i < f.len() && 0 <= j < f.len() && i != j implies key(f[i]) != key(f[j]) by {
                if i < g.len() && j < g.len() {
                } else if i < g.len() {
                    lemma_filter_element_from(d, pred, i);
                    let a = choose|a: int| 0 <= a < d.len() && d[a] == g[i];
                    assert(s[a] == d[a]);
                    assert(s[s.len() - 1] == s.last());
                } else {
                    lemma_filter_element_from(d, pred, j);
                    let b = choose|b: int| 0 <= b < d.len() && d[b] == g[j];
                    assert(s[b] == d[b]);
                    assert(s[s.len() - 1] == s.last());
                }
            }
        } else {
            assert(s.filter(pred) == g);
        }
    }
}

/// Every element of `s.filter(pred)` satisfies `pred`, and an element of
/// `s` that satisfies `pred` is kept.
pub proof fn lemma_filter_membership<A>(s: Seq<A>, pred: spec_fn(A) -> bool)
    ensures
        forall|x: A| s.filter(pred).contains(x) <==> (s.contains(x) && pred(x)),
{
    broadcast use vstd::seq_lib::group_filter_ensures;
    assert forall|x: A| s.filter(pred).contains(x) <==> (s.contains(x) && pred(x)) by {
        if s.filter(pred).contains(x) {
            let k = choose|k: int| 0 <= k < s.filter(pred).len() && s.filter(pred)[k] == x;
            lemma_filter_element_from(s, pred, k);
        }
        if s.contains(x) && pred(x) {
            let k = choose|k: int| 0 <= k < s.len() && s[k] == x;
            assert(s.filter(pred).contains(s[k]));
        }
    }
}

/// Filtering by a predicate that every element satisfies keeps everything.
pub proof fn lemma_filter_all<A>(s: Seq<A>, pred: spec_fn(A) -> bool)
    requires
        forall|i: int| 0 <= i < s.len() ==> pred(#[trigger] s[i]),
    ensures
        s.filter(pred) == s,
    decreases s.len(),
{
    reveal(Seq::filter);
    if s.len() > 0 {
        let d = s.drop_last();
        assert forall|i: int| 0 <= i < d.len() implies pred(#[trigger] d[i]) by {
            assert(d[i] == s[i]);
        }
        lemma_filter_all(d, pred);
        assert(pred(s[s.len() - 1]));
        assert(d.push(s.last()) =~= s);
    }
}

/// Filtering out exactly one element shortens a sequence by one.
pub proof fn lemma_filter_drops_one<A>(s: Seq<A>, pred: spec_fn(A) -> bool, k: int)
    requires
        0 <= k < s.len(),
        !pred(s[k]),
        forall|i: int| 0 <= i < s.len() && i != k ==> pred(#[trigger] s[i]),
    ensures
        s.filter(pred).len() == s.len() - 1,
    decreases s.len(),
{
    reveal(Seq::filter);
    let d = s.drop_last();
    if k == s.len() - 1 {
        assert forall|i: int| 0 <= i < d.len() implies pred(#[trigger] d[i]) by {
            assert(d[i] == s[i]);
        }
        lemma_filter_all(d, pred);
        assert(s.filter(pred) == d.filter(pred));
    } else {
        assert(d[k] == s[k]);
        assert forall|i: int| 0 <= i < d.len() && i != k implies pred(#[trigger] d[i]) by {
            assert(d[i] == s[i]);
        }
        lemma_filter_drops_one(d, pred, k);
        assert(pred(s[s.len() - 1]));
        assert(s.filter(pred) == d.filter(pred).push(s.last()));
    }
}

} // verus!
