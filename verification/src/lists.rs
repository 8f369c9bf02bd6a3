//! Taking the elements that meet a condition out of a vector.

use vstd::prelude::*;

verus! {

/// The elements for which `pred` does not hold.
pub open spec fn others<T>(s: Seq<T>, pred: spec_fn(T) -> bool) -> Seq<T> {
    s.filter(|x: T| !pred(x))
}

/// What is filtered comes from somewhere and meets the condition.
pub proof fn lemma_filtered_from<T>(s: Seq<T>, pred: spec_fn(T) -> bool, i: int) -> (k: int)
    requires
        0 <= i < s.filter(pred).len(),
    ensures
        0 <= k < s.len(),
        s[k] == s.filter(pred)[i],
        pred(s[k]),
    decreases s.len(),
{
    reveal(Seq::filter);
    let front = s.drop_last();
    if pred(s.last()) && i == s.filter(pred).len() - 1 {
        s.len() - 1
    } else {
        assert(front.filter(pred)[i] == s.filter(pred)[i]);
        lemma_filtered_from(front, pred, i)
    }
}

/// What meets the condition is among what is filtered.
pub proof fn lemma_filtered_keeps<T>(s: Seq<T>, pred: spec_fn(T) -> bool, k: int) -> (i: int)
    requires
        0 <= k < s.len(),
        pred(s[k]),
    ensures
        0 <= i < s.filter(pred).len(),
        s.filter(pred)[i] == s[k],
    decreases s.len(),
{
    reveal(Seq::filter);
    let front = s.drop_last();
    if k == s.len() - 1 {
        s.filter(pred).len() - 1
    } else {
        let i = lemma_filtered_keeps(front, pred, k);
        assert(s.filter(pred)[i] == front.filter(pred)[i]);
        i
    }
}

/// Two conditions that agree filter the same.
pub proof fn lemma_same_filter<T>(s: Seq<T>, p: spec_fn(T) -> bool, q: spec_fn(T) -> bool)
    requires
        forall|x: T| #[trigger] p(x) == q(x),
    ensures
        s.filter(p) == s.filter(q),
    decreases s.len(),
{
    reveal(Seq::filter);
    if s.len() > 0 {
        lemma_same_filter(s.drop_last(), p, q);
    }
}

/// What holds of any two elements, the earlier first, holds of any two that are
/// filtered.
pub proof fn lemma_pairwise_filtered<T>(
    s: Seq<T>,
    r: spec_fn(T, T) -> bool,
    pred: spec_fn(T) -> bool,
)
    requires
        forall|i: int, j: int| 0 <= i < j < s.len() ==> r(#[trigger] s[i], #[trigger] s[j]),
    ensures
        forall|i: int, j: int|
            0 <= i < j < s.filter(pred).len() ==> r(
                #[trigger] s.filter(pred)[i],
                #[trigger] s.filter(pred)[j],
            ),
    decreases s.len(),
{
    reveal(Seq::filter);
    if s.len() > 0 {
        let front = s.drop_last();
        lemma_pairwise_filtered(front, r, pred);
        let kept = s.filter(pred);
        assert forall|i: int, j: int| 0 <= i < j < kept.len() implies r(
            #[trigger] kept[i],
            #[trigger] kept[j],
        ) by {
            assert(kept[i] == front.filter(pred)[i]);
            if j < front.filter(pred).len() {
                assert(kept[j] == front.filter(pred)[j]);
            } else {
                let k = lemma_filtered_from(front, pred, i);
                assert(front[k] == s[k]);
                assert(kept[j] == s[s.len() - 1]);
            }
        }
    }
}

/// Takes the elements for which `test` holds out of `v`; both those taken and
/// those left keep their order.
pub(crate) fn take_where<T, F: Fn(&T) -> bool>(
    v: &mut Vec<T>,
    test: F,
    Ghost(pred): Ghost<spec_fn(T) -> bool>,
) -> (taken: Vec<T>)
    requires
        forall|x: T| call_requires(test, (&x,)),
        forall|x: T, b: bool| call_ensures(test, (&x,), b) ==> b == pred(x),
    ensures
        taken@ == old(v)@.filter(pred),
        final(v)@ == others(old(v)@, pred),
{
    let ghost all = v@;
    let ghost keep = |x: T| !pred(x);
    let mut taken: Vec<T> = Vec::new();
    let mut i: usize = 0;
    let ghost mut seen: int = 0;
    proof {
        assert(all.take(0) =~= Seq::<T>::empty());
        assert(all.skip(0) =~= all);
        reveal(Seq::filter);
    }
    while i < v.len()
        invariant
            all == old(v)@,
            keep == (|x: T| !pred(x)),
            0 <= seen <= all.len(),
            i <= v@.len(),
            v@.take(i as int) == all.take(seen).filter(keep),
            v@.skip(i as int) == all.skip(seen),
            taken@ == all.take(seen).filter(pred),
            forall|x: T| call_requires(test, (&x,)),
            forall|x: T, b: bool| call_ensures(test, (&x,), b) ==> b == pred(x),
        decreases v.len() - i,
    {
        let ghost here = v@[i as int];
        proof {
            assert(v@.skip(i as int).len() == v@.len() - i);
            assert(all.skip(seen).len() == all.len() - seen);
            assert(v@.skip(i as int)[0] == here);
            assert(all.skip(seen)[0] == all[seen]);
            assert(all.take(seen + 1) =~= all.take(seen).push(here));
            all.take(seen).lemma_filter_push(here, keep);
            all.take(seen).lemma_filter_push(here, pred);
            assert(all.skip(seen + 1) =~= all.skip(seen).skip(1));
            assert(v@.skip(i + 1) =~= v@.skip(i as int).skip(1));
            assert(v@.take(i + 1) =~= v@.take(i as int).push(here));
        }
        if test(&v[i]) {
            let ghost before = v@;
            let item = v.remove(i);
            proof {
                assert(v@.take(i as int) =~= before.take(i as int));
                assert(v@.skip(i as int) =~= before.skip(i + 1));
            }
            taken.push(item);
        } else {
            i = i + 1;
        }
        proof {
            seen = seen + 1;
        }
    }
    proof {
        assert(v@.skip(i as int).len() == 0);
        assert(seen == all.len());
        assert(all.take(seen) =~= all);
        assert(v@.take(i as int) =~= v@);
    }
    taken
}

/// The first `n` elements, or all where there are no more than that.
pub open spec fn at_most<T>(s: Seq<T>, n: nat) -> Seq<T> {
    if s.len() <= n {
        s
    } else {
        s.take(n as int)
    }
}

/// What a sequence maps to begins with what any of its beginnings maps to.
pub proof fn lemma_filter_map_prefix<A, B>(s: Seq<A>, f: spec_fn(A) -> Option<B>, n: int)
    requires
        0 <= n <= s.len(),
    ensures
        s.take(n).filter_map(f).len() <= s.filter_map(f).len(),
        s.filter_map(f).take(s.take(n).filter_map(f).len() as int) == s.take(n).filter_map(f),
    decreases s.len() - n,
{
    if n == s.len() {
        assert(s.take(n) =~= s);
        assert(s.filter_map(f).take(s.filter_map(f).len() as int) =~= s.filter_map(f));
    } else {
        lemma_filter_map_prefix(s, f, n + 1);
        s.lemma_filter_map_take_succ(f, n);
        let shorter = s.take(n).filter_map(f);
        let longer = s.take(n + 1).filter_map(f);
        assert(longer.take(shorter.len() as int) =~= shorter);
        assert(s.filter_map(f).take(longer.len() as int).take(shorter.len() as int)
            =~= s.filter_map(f).take(shorter.len() as int));
    }
}

/// Two ways to map that agree map a sequence to the same.
pub proof fn lemma_same_filter_map<A, B>(
    s: Seq<A>,
    f: spec_fn(A) -> Option<B>,
    g: spec_fn(A) -> Option<B>,
)
    requires
        forall|x: A| #[trigger] f(x) == g(x),
    ensures
        s.filter_map(f) == s.filter_map(g),
    decreases s.len(),
{
    if s.len() == 0 {
        assert(s.take(0) =~= s);
        assert(s.filter_map(f) =~= s.filter_map(g));
    } else {
        let n = s.len() - 1;
        lemma_same_filter_map(s.take(n), f, g);
        s.lemma_filter_map_take_succ(f, n);
        s.lemma_filter_map_take_succ(g, n);
        assert(s.take(n + 1) =~= s);
        assert(f(s[n]) == g(s[n]));
    }
}

/// Where every element maps to something, each stands where it stood.
pub proof fn lemma_all_mapped<A, B>(s: Seq<A>, f: spec_fn(A) -> Option<B>)
    requires
        forall|i: int| 0 <= i < s.len() ==> f(#[trigger] s[i]) is Some,
    ensures
        s.filter_map(f).len() == s.len(),
        forall|i: int| 0 <= i < s.len() ==> Some(#[trigger] s.filter_map(f)[i]) == f(s[i]),
    decreases s.len(),
{
    if s.len() > 0 {
        let n = s.len() - 1;
        let front = s.take(n);
        assert forall|i: int| 0 <= i < front.len() implies f(#[trigger] front[i]) is Some by {
            assert(front[i] == s[i]);
        }
        lemma_all_mapped(front, f);
        s.lemma_filter_map_take_succ(f, n);
        assert(s.take(n + 1) =~= s);
        assert forall|i: int| 0 <= i < s.len() implies Some(#[trigger] s.filter_map(f)[i]) == f(
            s[i],
        ) by {
            if i < n {
                assert(s.filter_map(f)[i] == front.filter_map(f)[i]);
                assert(front[i] == s[i]);
            }
        }
    }
}

/// An element that maps to nothing makes no difference.
pub proof fn lemma_unmapped<A, B>(s: Seq<A>, f: spec_fn(A) -> Option<B>, n: int)
    requires
        0 <= n < s.len(),
        f(s[n]) is None,
    ensures
        s.remove(n).filter_map(f) == s.filter_map(f),
    decreases s.len(),
{
    let last = s.len() - 1;
    assert(s.take(last + 1) =~= s);
    s.lemma_filter_map_take_succ(f, last);
    if n == last {
        assert(s.remove(n) =~= s.take(last));
    } else {
        let front = s.take(last);
        let rest = s.remove(n);
        assert(front[n] == s[n]);
        lemma_unmapped(front, f, n);
        assert(rest.take(last - 1) =~= front.remove(n));
        assert(rest.take(last) =~= rest);
        rest.lemma_filter_map_take_succ(f, last - 1);
        assert(rest[last - 1] == s[last]);
    }
}

/// Where the first element stands for which `pred` holds.
pub open spec fn first_where<T>(s: Seq<T>, pred: spec_fn(T) -> bool) -> Option<int>
    decreases s.len(),
{
    if s.len() == 0 {
        None
    } else {
        match first_where(s.drop_last(), pred) {
            Some(i) => Some(i),
            None => if pred(s.last()) {
                Some(s.len() - 1)
            } else {
                None
            },
        }
    }
}

/// The first element is an element, and none before it meets the condition.
pub proof fn lemma_first_where<T>(s: Seq<T>, pred: spec_fn(T) -> bool)
    ensures
        match first_where(s, pred) {
            Some(i) => 0 <= i < s.len() && pred(s[i]) && (forall|j: int|
                0 <= j < i ==> !pred(#[trigger] s[j])),
            None => forall|j: int| 0 <= j < s.len() ==> !pred(#[trigger] s[j]),
        },
    decreases s.len(),
{
    if s.len() > 0 {
        let front = s.drop_last();
        lemma_first_where(front, pred);
        assert(forall|j: int| 0 <= j < front.len() ==> front[j] == #[trigger] s[j]);
    }
}

/// An element that meets the condition, with none before it that does, is the
/// first.
pub proof fn lemma_is_first<T>(s: Seq<T>, pred: spec_fn(T) -> bool, i: int)
    requires
        0 <= i < s.len(),
        pred(s[i]),
        forall|j: int| 0 <= j < i ==> !pred(#[trigger] s[j]),
    ensures
        first_where(s, pred) == Some(i),
{
    lemma_first_where(s, pred);
    match first_where(s, pred) {
        Some(k) => {
            if k < i {
                assert(!pred(s[k]));
            } else if i < k {
                assert(!pred(s[i]));
            }
        },
        None => {
            assert(!pred(s[i]));
        },
    }
}

/// Where nothing meets the condition, there is no first.
pub proof fn lemma_no_first<T>(s: Seq<T>, pred: spec_fn(T) -> bool)
    requires
        forall|j: int| 0 <= j < s.len() ==> !pred(#[trigger] s[j]),
    ensures
        first_where(s, pred) is None,
{
    lemma_first_where(s, pred);
}

/// Where the first element stands for which `test` holds.
pub(crate) fn find_first<T, F: Fn(&T) -> bool>(
    v: &Vec<T>,
    test: F,
    Ghost(pred): Ghost<spec_fn(T) -> bool>,
) -> (out: Option<usize>)
    requires
        forall|x: T| call_requires(test, (&x,)),
        forall|x: T, b: bool| call_ensures(test, (&x,), b) ==> b == pred(x),
    ensures
        match out {
            Some(i) => first_where(v@, pred) == Some(i as int) && i < v@.len() && pred(
                v@[i as int],
            ),
            None => first_where(v@, pred) is None,
        },
{
    let mut i: usize = 0;
    while i < v.len()
        invariant
            i <= v@.len(),
            forall|j: int| 0 <= j < i ==> !pred(#[trigger] v@[j]),
            forall|x: T| call_requires(test, (&x,)),
            forall|x: T, b: bool| call_ensures(test, (&x,), b) ==> b == pred(x),
        decreases v.len() - i,
    {
        if test(&v[i]) {
            proof {
                lemma_is_first(v@, pred, i as int);
            }
            return Some(i);
        }
        i = i + 1;
    }
    proof {
        lemma_no_first(v@, pred);
    }
    None
}

} // verus!
