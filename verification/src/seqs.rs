//! Facts about searching sequences, shared by the state queries.
use vstd::prelude::*;

verus! {

/// `i` is the first position of `s` whose element satisfies `p`.
pub open spec fn is_first<T>(s: Seq<T>, p: spec_fn(T) -> bool, i: int) -> bool {
    &&& 0 <= i < s.len()
    &&& p(s[i])
    &&& forall|j: int| 0 <= j < i ==> !p(#[trigger] s[j])
}

/// No element of `s` satisfies `p`.
pub open spec fn none_match<T>(s: Seq<T>, p: spec_fn(T) -> bool) -> bool {
    forall|j: int| 0 <= j < s.len() ==> !p(#[trigger] s[j])
}

/// Some element of `s` satisfies `p`.
pub open spec fn any_match<T>(s: Seq<T>, p: spec_fn(T) -> bool) -> bool {
    exists|j: int| 0 <= j < s.len() && p(#[trigger] s[j])
}

/// The first element of `s` that satisfies `p`, if there is one.
pub open spec fn first_match<T>(s: Seq<T>, p: spec_fn(T) -> bool) -> Option<T> {
    if exists|i: int| is_first(s, p, i) {
        Some(s[choose|i: int| is_first(s, p, i)])
    } else {
        None
    }
}

/// The first matching position is unique, so `first_match` is that element.
pub proof fn lemma_first_match_at<T>(s: Seq<T>, p: spec_fn(T) -> bool, i: int)
    requires
        is_first(s, p, i),
    ensures
        first_match(s, p) == Some(s[i]),
{
    let k = choose|k: int| is_first(s, p, k);
    assert(is_first(s, p, k));
    if k < i {
        assert(!p(s[k]));
    } else if i < k {
        assert(!p(s[i]));
    }
}

/// Where nothing matches there is no first match.
pub proof fn lemma_first_match_none<T>(s: Seq<T>, p: spec_fn(T) -> bool)
    requires
        none_match(s, p),
    ensures
        first_match(s, p) is None,
{
    if exists|i: int| is_first(s, p, i) {
        let k = choose|k: int| is_first(s, p, k);
        assert(p(s[k]));
    }
}

/// The first position of `s` whose element satisfies `p`, if there is one.
pub open spec fn first_index<T>(s: Seq<T>, p: spec_fn(T) -> bool) -> Option<int> {
    if exists|i: int| is_first(s, p, i) {
        Some(choose|i: int| is_first(s, p, i))
    } else {
        None
    }
}

/// The first matching position is unique.
pub proof fn lemma_first_index_at<T>(s: Seq<T>, p: spec_fn(T) -> bool, i: int)
    requires
        is_first(s, p, i),
    ensures
        first_index(s, p) == Some(i),
        first_match(s, p) == Some(s[i]),
{
    lemma_first_match_at(s, p, i);
    let k = choose|k: int| is_first(s, p, k);
    assert(is_first(s, p, k));
    if k < i {
        assert(!p(s[k]));
    } else if i < k {
        assert(!p(s[i]));
    }
}

/// Where nothing matches there is no first position.
pub proof fn lemma_first_index_none<T>(s: Seq<T>, p: spec_fn(T) -> bool)
    requires
        none_match(s, p),
    ensures
        first_index(s, p) is None,
        first_match(s, p) is None,
{
    lemma_first_match_none(s, p);
    if exists|i: int| is_first(s, p, i) {
        let k = choose|k: int| is_first(s, p, k);
        assert(p(s[k]));
    }
}

/// A first match is found at some first matching position.
pub proof fn lemma_first_match_index<T>(s: Seq<T>, p: spec_fn(T) -> bool) -> (i: int)
    requires
        first_match(s, p) is Some,
    ensures
        is_first(s, p, i),
        first_match(s, p) == Some(s[i]),
{
    let i = choose|i: int| is_first(s, p, i);
    lemma_first_match_at(s, p, i);
    i
}

/// A first position found is a first matching position.
pub proof fn lemma_first_index_some<T>(s: Seq<T>, p: spec_fn(T) -> bool)
    requires
        first_index(s, p) is Some,
    ensures
        is_first(s, p, first_index(s, p)->0),
        first_match(s, p) == Some(s[first_index(s, p)->0]),
{
    let i = choose|i: int| is_first(s, p, i);
    lemma_first_index_at(s, p, i);
}

/// Two sequences whose elements match `p` at the same positions have the same first
/// matching position.
pub proof fn lemma_first_index_agree<T>(s: Seq<T>, t: Seq<T>, p: spec_fn(T) -> bool)
    requires
        s.len() == t.len(),
        forall|j: int| 0 <= j < s.len() ==> p(#[trigger] s[j]) == p(t[j]),
    ensures
        first_index(s, p) == first_index(t, p),
{
    if exists|i: int| is_first(s, p, i) {
        let i = choose|i: int| is_first(s, p, i);
        assert forall|j: int| 0 <= j < i implies !p(#[trigger] t[j]) by {
            assert(!p(s[j]));
        }
        assert(p(s[i]) == p(t[i]));
        lemma_first_index_at(s, p, i);
        lemma_first_index_at(t, p, i);
    } else {
        assert forall|j: int| 0 <= j < t.len() implies !p(#[trigger] t[j]) by {
            if p(t[j]) {
                assert(p(s[j]));
                lemma_match_has_first(s, p, j);
            }
        }
        lemma_first_index_none(t, p);
    }
}

/// Filtering by a predicate and by its negation splits a sequence in two.
pub proof fn lemma_filter_split<T>(s: Seq<T>, p: spec_fn(T) -> bool, q: spec_fn(T) -> bool)
    requires
        forall|x: T| #[trigger] q(x) == !p(x),
    ensures
        s.filter(p).len() + s.filter(q).len() == s.len(),
    decreases s.len(),
{
    reveal(Seq::filter);
    if s.len() > 0 {
        lemma_filter_split(s.drop_last(), p, q);
    }
}

/// Each element of a filtered sequence stands in the sequence.
pub proof fn lemma_filter_member<T>(s: Seq<T>, p: spec_fn(T) -> bool, k: int)
    requires
        0 <= k < s.filter(p).len(),
    ensures
        s.contains(s.filter(p)[k]),
    decreases s.len(),
{
    reveal(Seq::filter);
    if s.len() > 0 {
        let rest = s.drop_last();
        if p(s.last()) && k == rest.filter(p).len() {
            assert(s.filter(p)[k] == s.last());
            assert(s[s.len() - 1] == s.last());
        } else {
            assert(s.filter(p)[k] == rest.filter(p)[k]);
            lemma_filter_member(rest, p, k);
            let m = choose|m: int| 0 <= m < rest.len() && rest[m] == rest.filter(p)[k];
            assert(s[m] == rest[m]);
        }
    }
}

/// Where some element matches, there is a first matching position.
pub proof fn lemma_match_has_first<T>(s: Seq<T>, p: spec_fn(T) -> bool, j: int)
    requires
        0 <= j < s.len(),
        p(s[j]),
    ensures
        exists|i: int| is_first(s, p, i),
    decreases j,
{
    if forall|m: int| 0 <= m < j ==> !p(#[trigger] s[m]) {
        assert(is_first(s, p, j));
    } else {
        let m = choose|m: int| 0 <= m < j && p(#[trigger] s[m]);
        lemma_match_has_first(s, p, m);
    }
}

/// An entry kept by a filter sits in the filtered sequence right after the entries
/// kept before it.
pub proof fn lemma_filter_prefix_index<T>(s: Seq<T>, p: spec_fn(T) -> bool, k: int)
    requires
        0 <= k < s.len(),
        p(s[k]),
    ensures
        s.take(k).filter(p).len() < s.filter(p).len(),
        s.filter(p)[s.take(k).filter(p).len() as int] == s[k],
{
    let a = s.take(k + 1);
    assert(a =~= s.take(k).push(s[k]));
    s.take(k).lemma_filter_push(s[k], p);
    assert(a.is_prefix_of(s));
    a.lemma_filter_monotone(s, p);
    assert(a.filter(p)[s.take(k).filter(p).len() as int] == s[k]);
}

} // verus!
