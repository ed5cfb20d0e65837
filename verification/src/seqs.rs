//! Facts about sequences.

use vstd::multiset::Multiset;
use vstd::prelude::*;

verus! {

/// The sum of some counts.
pub open spec fn total(counts: Seq<nat>) -> nat
    decreases counts.len(),
{
    if counts.len() == 0 {
        0
    } else {
        total(counts.drop_last()) + counts.last()
    }
}

/// The sum of the first counts is at most the sum of all.
pub proof fn lemma_total_take(counts: Seq<nat>, n: int)
    requires
        0 <= n <= counts.len(),
    ensures
        total(counts.take(n)) <= total(counts),
    decreases counts.len(),
{
    if n == counts.len() {
        assert(counts.take(n) =~= counts);
    } else {
        lemma_total_take(counts.drop_last(), n);
        assert(counts.drop_last().take(n) =~= counts.take(n));
    }
}

/// One more count adds itself to the sum.
pub proof fn lemma_total_step(counts: Seq<nat>, n: int)
    requires
        0 <= n < counts.len(),
    ensures
        total(counts.take(n + 1)) == total(counts.take(n)) + counts[n],
{
    assert(counts.take(n + 1).drop_last() =~= counts.take(n));
}

/// One more item is kept, or not, by a filter.
pub proof fn lemma_filter_step<A>(s: Seq<A>, keep: spec_fn(A) -> bool, n: int)
    requires
        0 <= n < s.len(),
    ensures
        s.take(n + 1).filter(keep) == if keep(s[n]) {
            s.take(n).filter(keep).push(s[n])
        } else {
            s.take(n).filter(keep)
        },
{
    reveal(Seq::filter);
    assert(s.take(n + 1).drop_last() =~= s.take(n));
}

/// A filter that keeps every item changes nothing.
pub proof fn lemma_filter_all<A>(s: Seq<A>, keep: spec_fn(A) -> bool)
    requires
        forall|i: int| 0 <= i < s.len() ==> keep(#[trigger] s[i]),
    ensures
        s.filter(keep) == s,
    decreases s.len(),
{
    reveal(Seq::filter);
    if s.len() > 0 {
        lemma_filter_all(s.drop_last(), keep);
        assert(s.drop_last().push(s.last()) =~= s);
    }
}

/// A filter keeps the items that pass it, and no others.
pub proof fn lemma_filter_contains<A>(s: Seq<A>, keep: spec_fn(A) -> bool)
    ensures
        forall|x: A| #[trigger] s.filter(keep).contains(x) <==> s.contains(x) && keep(x),
    decreases s.len(),
{
    reveal(Seq::filter);
    if s.len() > 0 {
        let t = s.drop_last();
        lemma_filter_contains(t, keep);
        assert(s =~= t.push(s.last()));
        assert forall|x: A| #[trigger]
            s.filter(keep).contains(x) <==> s.contains(x) && keep(x) by {
            assert(s.contains(x) <==> t.contains(x) || x == s.last()) by {
                if t.contains(x) {
                    let i = choose|i: int| 0 <= i < t.len() && t[i] == x;
                    assert(s[i] == x);
                }
                assert(s[s.len() - 1] == s.last());
            }
            let f = t.filter(keep);
            if keep(s.last()) {
                assert(s.filter(keep) == f.push(s.last()));
                if f.contains(x) {
                    let i = choose|i: int| 0 <= i < f.len() && f[i] == x;
                    assert(f.push(s.last())[i] == x);
                }
                assert(f.push(s.last())[f.len() as int] == s.last());
            }
        }
    }
}

/// A filtered list repeats nothing if the list does not.
pub proof fn lemma_filter_distinct<A>(s: Seq<A>, keep: spec_fn(A) -> bool)
    requires
        s.no_duplicates(),
    ensures
        s.filter(keep).no_duplicates(),
    decreases s.len(),
{
    reveal(Seq::filter);
    if s.len() > 0 {
        let t = s.drop_last();
        lemma_filter_distinct(t, keep);
        lemma_filter_contains(t, keep);
        assert(!t.contains(s.last())) by {
            if t.contains(s.last()) {
                let k = choose|k: int| 0 <= k < t.len() && t[k] == s.last();
                assert(s[k] == s[s.len() - 1]);
            }
        }
        assert forall|i: int| 0 <= i < t.filter(keep).len() implies #[trigger] t.filter(keep)[i]
            != s.last() by {
            assert(t.filter(keep).contains(t.filter(keep)[i]));
        }
    }
}

/// What a concatenation holds.
pub proof fn lemma_concat_contains<A>(a: Seq<A>, b: Seq<A>, x: A)
    ensures
        (a + b).contains(x) <==> a.contains(x) || b.contains(x),
{
    if a.contains(x) {
        let i = choose|i: int| 0 <= i < a.len() && a[i] == x;
        assert((a + b)[i] == x);
    }
    if b.contains(x) {
        let i = choose|i: int| 0 <= i < b.len() && b[i] == x;
        assert((a + b)[a.len() + i] == x);
    }
}

/// A list in which nothing occurs twice holds each item of its set once.
pub proof fn lemma_to_multiset_of_distinct<A>(s: Seq<A>)
    requires
        s.no_duplicates(),
    ensures
        s.to_multiset() == Multiset::from_set(s.to_set()),
{
    broadcast use vstd::multiset::group_multiset_axioms;

    s.to_multiset_ensures();
    s.lemma_multiset_has_no_duplicates();
    vstd::seq_lib::seq_to_set_is_finite(s);
    let m = Map::<A, nat>::new(|k: A| s.to_set().contains(k), |v: A| 1nat);
    assert(m.dom() =~= s.to_set());
    assert(s.to_multiset() =~= Multiset::from_set(s.to_set()));
}

/// The lists that the items of a sequence stand for, one after the other.
pub open spec fn flat<A, B>(s: Seq<A>, f: spec_fn(A) -> Seq<B>) -> Seq<B>
    decreases s.len(),
{
    if s.len() == 0 {
        Seq::empty()
    } else {
        flat(s.drop_last(), f) + f(s.last())
    }
}

/// What is in lists that stand one after the other; nothing is in them twice if
/// that is so of each and no two have a common item.
pub proof fn lemma_flat<A, B>(s: Seq<A>, f: spec_fn(A) -> Seq<B>)
    requires
        forall|i: int| 0 <= i < s.len() ==> f(#[trigger] s[i]).no_duplicates(),
        forall|i: int, j: int, x: B|
            0 <= i < j < s.len() && #[trigger] f(s[i]).contains(x) ==> !(#[trigger] f(
                s[j],
            ).contains(x)),
    ensures
        flat(s, f).no_duplicates(),
        forall|x: B| #[trigger]
            flat(s, f).contains(x) <==> exists|i: int|
                0 <= i < s.len() && #[trigger] f(s[i]).contains(x),
    decreases s.len(),
{
    if s.len() > 0 {
        let t = s.drop_last();
        let before = flat(t, f);
        let last = f(s.last());
        assert forall|i: int, j: int, x: B|
            0 <= i < j < t.len() && #[trigger] f(t[i]).contains(x) implies !(#[trigger] f(
            t[j],
        ).contains(x)) by {
            assert(f(s[i]).contains(x));
            assert(!f(s[j]).contains(x));
        }
        lemma_flat(t, f);
        assert(last == f(s[s.len() - 1]));
        assert forall|i: int, j: int| 0 <= i < before.len() && 0 <= j < last.len() implies before[i]
            != last[j] by {
            assert(before.contains(before[i]));
            let k = choose|k: int| 0 <= k < t.len() && #[trigger] f(t[k]).contains(before[i]);
            assert(f(s[k]).contains(before[i]));
            assert(!f(s[s.len() - 1]).contains(before[i]));
            assert(last.contains(last[j]));
        }
        assert forall|x: B| #[trigger]
            flat(s, f).contains(x) <==> exists|i: int|
                0 <= i < s.len() && #[trigger] f(s[i]).contains(x) by {
            lemma_concat_contains(before, last, x);
            if before.contains(x) {
                let k = choose|k: int| 0 <= k < t.len() && #[trigger] f(t[k]).contains(x);
                assert(f(s[k]).contains(x));
            }
            if last.contains(x) {
                assert(f(s[s.len() - 1]).contains(x));
            }
            if exists|i: int| 0 <= i < s.len() && #[trigger] f(s[i]).contains(x) {
                let i = choose|i: int| 0 <= i < s.len() && #[trigger] f(s[i]).contains(x);
                if i < t.len() {
                    assert(f(t[i]).contains(x));
                }
            }
        }
    }
}

} // verus!
