//! Facts about sequences that the rest of the crate leans on.

use vstd::prelude::*;

verus! {

/// Filtering one element more of a sequence either appends that element or
/// changes nothing.
pub proof fn lemma_filter_next<T>(s: Seq<T>, keep: spec_fn(T) -> bool, i: int)
    requires
        0 <= i < s.len(),
    ensures
        s.take(i + 1).filter(keep) == if keep(s[i]) {
            s.take(i).filter(keep).push(s[i])
        } else {
            s.take(i).filter(keep)
        },
{
    reveal(Seq::filter);
    let t = s.take(i + 1);
    assert(t.drop_last() =~= s.take(i));
    assert(t.last() == s[i]);
}

/// Filtering nothing leaves nothing, and the whole prefix is the sequence.
pub proof fn lemma_filter_ends<T>(s: Seq<T>, keep: spec_fn(T) -> bool)
    ensures
        s.take(0).filter(keep) == Seq::<T>::empty(),
        s.take(s.len() as int) == s,
{
    reveal(Seq::filter);
    assert(s.take(0) =~= Seq::<T>::empty());
    assert(s.take(s.len() as int) =~= s);
}

/// A filtered sequence holds exactly the kept members of the sequence it
/// was filtered from.
pub proof fn lemma_filter_member<T>(s: Seq<T>, keep: spec_fn(T) -> bool, x: T)
    ensures
        s.filter(keep).contains(x) <==> (s.contains(x) && keep(x)),
{
    if s.filter(keep).contains(x) {
        s.lemma_filter_contains_rev(keep, x);
        let i = choose|i: int| 0 <= i < s.filter(keep).len() && s.filter(keep)[i] == x;
        s.lemma_filter_pred(keep, i);
    }
    if s.contains(x) && keep(x) {
        let i = choose|i: int| 0 <= i < s.len() && s[i] == x;
        s.lemma_filter_contains(keep, i);
    }
}

/// Filtering keeps the order: two members of the filtered sequence stand in
/// the unfiltered one in the same order.
pub proof fn lemma_filter_order<T>(s: Seq<T>, keep: spec_fn(T) -> bool, i: int, j: int)
    requires
        0 <= i < j < s.filter(keep).len(),
    ensures
        exists|a: int, b: int|
            0 <= a < b < s.len() && s[a] == s.filter(keep)[i] && s[b] == s.filter(keep)[j],
    decreases s.len(),
{
    reveal(Seq::filter);
    let f = s.filter(keep);
    let rest = s.drop_last();
    let g = rest.filter(keep);
    if keep(s.last()) && j == f.len() - 1 {
        assert(f == g.push(s.last()));
        assert(g.contains(g[i]));
        rest.lemma_filter_contains_rev(keep, g[i]);
        let a = choose|a: int| 0 <= a < rest.len() && rest[a] == g[i];
        let b = s.len() - 1;
        assert(0 <= a < b < s.len() && s[a] == f[i] && s[b] == f[j]);
    } else {
        lemma_filter_order(rest, keep, i, j);
        let (a, b) = choose|a: int, b: int|
            0 <= a < b < rest.len() && rest[a] == g[i] && rest[b] == g[j];
        assert(0 <= a < b < s.len() && s[a] == f[i] && s[b] == f[j]);
    }
}

/// Filtering a sequence without duplicates leaves none.
pub proof fn lemma_filter_no_duplicates<T>(s: Seq<T>, keep: spec_fn(T) -> bool)
    requires
        s.no_duplicates(),
    ensures
        s.filter(keep).no_duplicates(),
{
    let f = s.filter(keep);
    assert forall|i: int, j: int| 0 <= i < f.len() && 0 <= j < f.len() && i != j implies f[i]
        != f[j] by {
        if i < j {
            lemma_filter_order(s, keep, i, j);
        } else {
            lemma_filter_order(s, keep, j, i);
        }
    }
}

/// What a sequence holds after one more element was appended.
pub proof fn lemma_push_member<T>(s: Seq<T>, e: T, x: T)
    ensures
        s.push(e).contains(x) <==> (s.contains(x) || x == e),
{
    if s.push(e).contains(x) {
        let i = choose|i: int| 0 <= i < s.push(e).len() && s.push(e)[i] == x;
        if i < s.len() {
            assert(s[i] == x);
        }
    }
    if s.contains(x) {
        let i = choose|i: int| 0 <= i < s.len() && s[i] == x;
        assert(s.push(e)[i] == x);
    }
    if x == e {
        assert(s.push(e)[s.len() as int] == x);
    }
}

/// What a sequence without duplicates holds after one element was taken out.
pub proof fn lemma_remove_member<T>(s: Seq<T>, i: int, x: T)
    requires
        0 <= i < s.len(),
        s.no_duplicates(),
    ensures
        s.remove(i).contains(x) <==> (s.contains(x) && x != s[i]),
        s.remove(i).no_duplicates(),
{
    let r = s.remove(i);
    if r.contains(x) {
        let j = choose|j: int| 0 <= j < r.len() && r[j] == x;
        if j < i {
            assert(s[j] == x);
        } else {
            assert(s[j + 1] == x);
        }
    }
    if s.contains(x) && x != s[i] {
        let j = choose|j: int| 0 <= j < s.len() && s[j] == x;
        if j < i {
            assert(r[j] == x);
        } else {
            assert(r[j - 1] == x);
        }
    }
}

} // verus!
