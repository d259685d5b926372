//! Ranking named counts: largest count first, ties by name, equal entries in
//! their original order.
use crate::text::{text_less, text_lt};
use vstd::multiset::Multiset;
use vstd::prelude::*;

verus! {

/// A name with a count, as a ranking sees it.
pub type NamedCount = (Seq<char>, usize);

/// Whether `a` ranks strictly before `b`: a larger count, or the same count
/// and a name that sorts earlier.
pub open spec fn ranks_before(a: NamedCount, b: NamedCount) -> bool {
    a.1 > b.1 || (a.1 == b.1 && text_lt(a.0, b.0))
}

/// `x` placed into `s` before the first entry it ranks before.
pub open spec fn insert_ranked(x: NamedCount, s: Seq<NamedCount>) -> Seq<NamedCount>
    decreases s.len(),
{
    if s.len() == 0 {
        seq![x]
    } else if ranks_before(x, s[0]) {
        seq![x] + s
    } else {
        seq![s[0]] + insert_ranked(x, s.drop_first())
    }
}

/// The stable ranking of `s`: each entry in turn inserted into the ranking of those before it.
pub open spec fn rank_sort(s: Seq<NamedCount>) -> Seq<NamedCount>
    decreases s.len(),
{
    if s.len() == 0 {
        s
    } else {
        insert_ranked(s.last(), rank_sort(s.drop_last()))
    }
}

/// No entry ranks before an entry that comes earlier.
pub open spec fn is_ranked(s: Seq<NamedCount>) -> bool {
    forall|i: int, j: int| 0 <= i < j < s.len() ==> !ranks_before(#[trigger] s[j], #[trigger] s[i])
}

/// The views of owned name/count pairs.
pub open spec fn pair_views(v: Seq<(String, usize)>) -> Seq<NamedCount> {
    v.map_values(|p: (String, usize)| (p.0@, p.1))
}

proof fn lemma_text_lt_irreflexive(a: Seq<char>)
    ensures
        !text_lt(a, a),
    decreases a.len(),
{
    if a.len() > 0 {
        lemma_text_lt_irreflexive(a.drop_first());
    }
}

proof fn lemma_text_lt_transitive(a: Seq<char>, b: Seq<char>, c: Seq<char>)
    requires
        text_lt(a, b),
        text_lt(b, c),
    ensures
        text_lt(a, c),
    decreases a.len(),
{
    if a.len() > 0 && b.len() > 0 && c.len() > 0 {
        if a[0] == b[0] && b[0] == c[0] {
            lemma_text_lt_transitive(a.drop_first(), b.drop_first(), c.drop_first());
        }
    }
}

proof fn lemma_text_lt_total(a: Seq<char>, b: Seq<char>)
    ensures
        text_lt(a, b) || text_lt(b, a) || a == b,
    decreases a.len(),
{
    if a.len() > 0 && b.len() > 0 {
        if a[0] == b[0] {
            lemma_text_lt_total(a.drop_first(), b.drop_first());
            if a.drop_first() == b.drop_first() {
                assert(a =~= seq![a[0]] + a.drop_first());
                assert(b =~= seq![b[0]] + b.drop_first());
            }
        }
    } else if a.len() == 0 && b.len() == 0 {
        assert(a =~= b);
    }
}

/// Ranking before is a strict order that relates any two different entries.
pub proof fn lemma_ranks_before_strict_total(a: NamedCount, b: NamedCount, c: NamedCount)
    ensures
        !ranks_before(a, a),
        ranks_before(a, b) && ranks_before(b, c) ==> ranks_before(a, c),
        ranks_before(a, b) || ranks_before(b, a) || a == b,
{
    lemma_text_lt_irreflexive(a.0);
    if ranks_before(a, b) && ranks_before(b, c) && a.1 == b.1 && b.1 == c.1 {
        lemma_text_lt_transitive(a.0, b.0, c.0);
    }
    lemma_text_lt_total(a.0, b.0);
}

proof fn lemma_insert_ranked_props(x: NamedCount, s: Seq<NamedCount>)
    requires
        is_ranked(s),
    ensures
        is_ranked(insert_ranked(x, s)),
        insert_ranked(x, s).to_multiset() == s.to_multiset().insert(x),
        insert_ranked(x, s).len() == s.len() + 1,
        forall|k: int|
            0 <= k < insert_ranked(x, s).len() ==> (#[trigger] insert_ranked(x, s)[k] == x
                || s.contains(insert_ranked(x, s)[k])),
    decreases s.len(),
{
    broadcast use vstd::seq_lib::group_to_multiset_ensures;
    let r = insert_ranked(x, s);
    if s.len() == 0 {
        assert(r =~= seq![x]);
        assert(seq![x].to_multiset() =~= Multiset::<NamedCount>::empty().insert(x)) by {
            assert(seq![x] =~= Seq::<NamedCount>::empty().push(x));
        }
    } else if ranks_before(x, s[0]) {
        assert forall|i: int, j: int| 0 <= i < j < r.len() implies !ranks_before(
            #[trigger] r[j],
            #[trigger] r[i],
        ) by {
            if i == 0 {
                lemma_ranks_before_strict_total(s[j - 1], x, s[0]);
                if j - 1 > 0 {
                    lemma_ranks_before_strict_total(s[j - 1], s[0], x);
                    lemma_ranks_before_strict_total(x, s[0], s[j - 1]);
                    lemma_ranks_before_strict_total(s[0], s[j - 1], x);
                    lemma_ranks_before_strict_total(s[j - 1], x, s[0]);
                }
            }
        }
        assert(r =~= s.insert(0, x));
        s.to_multiset_ensures();
        assert forall|k: int| 0 <= k < r.len() implies (#[trigger] r[k] == x || s.contains(r[k])) by {
            if k > 0 {
                assert(r[k] == s[k - 1]);
            }
        }
    } else {
        let t = s.drop_first();
        assert(is_ranked(t)) by {
            assert forall|i: int, j: int| 0 <= i < j < t.len() implies !ranks_before(
                #[trigger] t[j],
                #[trigger] t[i],
            ) by {
                assert(t[i] == s[i + 1]);
                assert(t[j] == s[j + 1]);
            }
        }
        lemma_insert_ranked_props(x, t);
        let rt = insert_ranked(x, t);
        assert(r =~= seq![s[0]] + rt);
        assert forall|i: int, j: int| 0 <= i < j < r.len() implies !ranks_before(
            #[trigger] r[j],
            #[trigger] r[i],
        ) by {
            if i == 0 {
                assert(r[j] == rt[j - 1]);
                if rt[j - 1] == x {
                    lemma_ranks_before_strict_total(x, s[0], x);
                } else {
                    let k = choose|k: int| 0 <= k < t.len() && t[k] == rt[j - 1];
                    assert(t[k] == s[k + 1]);
                }
            } else {
                assert(r[i] == rt[i - 1]);
                assert(r[j] == rt[j - 1]);
            }
        }
        assert(s =~= seq![s[0]] + t);
        assert(seq![s[0]].to_multiset() =~= Multiset::<NamedCount>::empty().insert(s[0])) by {
            assert(seq![s[0]] =~= Seq::<NamedCount>::empty().push(s[0]));
        }
        vstd::seq_lib::lemma_multiset_commutative(seq![s[0]], rt);
        vstd::seq_lib::lemma_multiset_commutative(seq![s[0]], t);
        assert(r.to_multiset() =~= s.to_multiset().insert(x));
        assert forall|k: int| 0 <= k < r.len() implies (#[trigger] r[k] == x || s.contains(r[k])) by {
            if k == 0 {
                assert(s.contains(s[0]));
            } else {
                assert(r[k] == rt[k - 1]);
                if rt[k - 1] != x {
                    let m = choose|m: int| 0 <= m < t.len() && t[m] == rt[k - 1];
                    assert(s[m + 1] == t[m]);
                }
            }
        }
    }
}

/// The ranking of a sequence is ranked and holds exactly the entries of the sequence.
pub proof fn lemma_rank_sort_is_ranked_permutation(s: Seq<NamedCount>)
    ensures
        is_ranked(rank_sort(s)),
        rank_sort(s).to_multiset() == s.to_multiset(),
        rank_sort(s).len() == s.len(),
    decreases s.len(),
{
    broadcast use vstd::seq_lib::group_to_multiset_ensures;
    if s.len() > 0 {
        lemma_rank_sort_is_ranked_permutation(s.drop_last());
        lemma_insert_ranked_props(s.last(), rank_sort(s.drop_last()));
        assert(s =~= s.drop_last().push(s.last()));
    } else {
        assert(s.to_multiset() =~= Multiset::empty());
    }
}

/// Two ranked sequences holding the same entries are the same sequence.
proof fn lemma_ranked_unique(x: Seq<NamedCount>, y: Seq<NamedCount>)
    requires
        is_ranked(x),
        is_ranked(y),
        x.to_multiset() == y.to_multiset(),
    ensures
        x == y,
    decreases x.len(),
{
    broadcast use vstd::seq_lib::group_to_multiset_ensures;
    if x.len() == 0 {
        assert(y.to_multiset().len() == 0);
        assert(y =~= x);
    } else {
        x.to_multiset_ensures();
        y.to_multiset_ensures();
        assert(y.len() == x.len());
        let a = x[0];
        let b = y[0];
        assert(x.contains(a));
        assert(y.to_multiset().count(a) > 0);
        assert(y.contains(a));
        let j = choose|j: int| 0 <= j < y.len() && y[j] == a;
        assert(x.to_multiset().count(b) > 0);
        assert(x.contains(b));
        let i = choose|i: int| 0 <= i < x.len() && x[i] == b;
        if j > 0 {
            assert(!ranks_before(y[j], y[0]));
        }
        if i > 0 {
            assert(!ranks_before(x[i], x[0]));
        }
        lemma_ranks_before_strict_total(a, b, a);
        assert(a == b);
        let xt = x.drop_first();
        let yt = y.drop_first();
        assert(x =~= seq![a] + xt);
        assert(y =~= seq![a] + yt);
        vstd::seq_lib::lemma_multiset_commutative(seq![a], xt);
        vstd::seq_lib::lemma_multiset_commutative(seq![a], yt);
        assert(xt.to_multiset() =~= yt.to_multiset()) by {
            assert forall|v: NamedCount| xt.to_multiset().count(v) == yt.to_multiset().count(v) by {
                assert(x.to_multiset().count(v) == seq![a].to_multiset().count(v) + xt.to_multiset().count(v));
                assert(y.to_multiset().count(v) == seq![a].to_multiset().count(v) + yt.to_multiset().count(v));
            }
        }
        assert(is_ranked(xt)) by {
            assert forall|p: int, q: int| 0 <= p < q < xt.len() implies !ranks_before(#[trigger] xt[q], #[trigger] xt[p]) by {
                assert(xt[p] == x[p + 1] && xt[q] == x[q + 1]);
            }
        }
        assert(is_ranked(yt)) by {
            assert forall|p: int, q: int| 0 <= p < q < yt.len() implies !ranks_before(#[trigger] yt[q], #[trigger] yt[p]) by {
                assert(yt[p] == y[p + 1] && yt[q] == y[q + 1]);
            }
        }
        lemma_ranked_unique(xt, yt);
    }
}

/// The ranking of `s` is the one sequence ordered by count (largest first) and then by
/// name that holds exactly the entries of `s`: any such ordering of `s` equals it.
pub proof fn law_ranking_is_the_count_then_name_sort(s: Seq<NamedCount>, t: Seq<NamedCount>)
    requires
        is_ranked(t),
        t.to_multiset() == s.to_multiset(),
    ensures
        t == rank_sort(s),
{
    lemma_rank_sort_is_ranked_permutation(s);
    lemma_ranked_unique(t, rank_sort(s));
}

/// The first position in `s` whose entry `x` ranks before, or the length of `s`.
proof fn lemma_insert_ranked_at(x: NamedCount, s: Seq<NamedCount>, p: int)
    requires
        0 <= p <= s.len(),
        forall|j: int| 0 <= j < p ==> !ranks_before(x, #[trigger] s[j]),
        p < s.len() ==> ranks_before(x, s[p]),
    ensures
        insert_ranked(x, s) == s.take(p) + seq![x] + s.skip(p),
    decreases s.len(),
{
    if s.len() == 0 {
        assert(s.take(p) + seq![x] + s.skip(p) =~= seq![x]);
    } else if p == 0 {
        assert(s.take(0) + seq![x] + s.skip(0) =~= seq![x] + s);
    } else {
        let t = s.drop_first();
        assert forall|j: int| 0 <= j < p - 1 implies !ranks_before(x, #[trigger] t[j]) by {
            assert(t[j] == s[j + 1]);
        }
        if p - 1 < t.len() {
            assert(t[p - 1] == s[p]);
        }
        assert(!ranks_before(x, s[0]));
        lemma_insert_ranked_at(x, t, p - 1);
        assert(seq![s[0]] + (t.take(p - 1) + seq![x] + t.skip(p - 1)) =~= s.take(p) + seq![x]
            + s.skip(p));
    }
}

/// Whether `a` ranks strictly before `b`.
fn ranks_ahead(a: &(String, usize), b: &(String, usize)) -> (r: bool)
    ensures
        r == ranks_before((a.0@, a.1), (b.0@, b.1)),
{
    a.1 > b.1 || (a.1 == b.1 && text_less(a.0.as_str(), b.0.as_str()))
}

/// The entries in ranked order: largest count first, ties by name, and
/// equal entries in their original order (a stable sort).
pub fn rank_named_counts(entries: &[(String, usize)]) -> (r: Vec<(String, usize)>)
    ensures
        pair_views(r@) == rank_sort(pair_views(entries@)),
{
    let ghost views = pair_views(entries@);
    let mut r: Vec<(String, usize)> = Vec::new();
    let mut i: usize = 0;
    while i < entries.len()
        invariant
            i <= entries@.len(),
            views == pair_views(entries@),
            pair_views(r@) == rank_sort(views.take(i as int)),
        decreases entries@.len() - i,
    {
        let x = (entries[i].0.clone(), entries[i].1);
        let ghost xv = (x.0@, x.1);
        assert(xv == views[i as int]);
        let mut p: usize = 0;
        while p < r.len() && !ranks_ahead(&x, &r[p])
            invariant
                p <= r@.len(),
                xv == (x.0@, x.1),
                forall|j: int|
                    0 <= j < p ==> !ranks_before(xv, #[trigger] pair_views(r@)[j]),
            decreases r@.len() - p,
        {
            p = p + 1;
        }
        let ghost before = pair_views(r@);
        proof {
            lemma_insert_ranked_at(xv, before, p as int);
            assert(views.take(i + 1).drop_last() =~= views.take(i as int));
            assert(views.take(i + 1).last() == xv);
        }
        r.insert(p, x);
        assert(pair_views(r@) =~= before.take(p as int) + seq![xv] + before.skip(p as int));
        i = i + 1;
    }
    assert(views.take(entries@.len() as int) =~= views);
    r
}

} // verus!
