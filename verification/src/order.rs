//! Sorting that keeps the order of what ranks alike.

use vstd::prelude::*;

verus! {

/// A value with a rank, by which a list of such values is sorted.
pub trait Ranked: DeepView + Sized {
    /// The rank of what a value holds.
    spec fn rank(v: Self::V) -> int;

    /// Whether `self` ranks before `other`.
    fn ranks_before(&self, other: &Self) -> (r: bool)
        ensures
            r == (Self::rank(self.deep_view()) < Self::rank(other.deep_view())),
    ;
}

/// No value stands behind one of higher rank.
pub open spec fn sorted_by_rank<T>(s: Seq<T>, rank: spec_fn(T) -> int) -> bool {
    forall|i: int, j: int| 0 <= i < j < s.len() ==> #[trigger] rank(s[i]) <= #[trigger] rank(s[j])
}

/// The values of one rank, in their order.
pub open spec fn of_rank<T>(s: Seq<T>, rank: spec_fn(T) -> int, r: int) -> Seq<T> {
    s.filter(|x: T| rank(x) == r)
}

/// `out` is `s` sorted: it holds what `s` holds, and what ranks alike stands in the order in
/// which it stood in `s`.
pub open spec fn stably_sorted<T>(s: Seq<T>, out: Seq<T>, rank: spec_fn(T) -> int) -> bool {
    &&& out.len() == s.len()
    &&& sorted_by_rank(out, rank)
    &&& forall|r: int| #[trigger] of_rank(out, rank, r) == of_rank(s, rank, r)
}

proof fn lemma_filter_none<T>(s: Seq<T>, keep: spec_fn(T) -> bool)
    requires
        forall|i: int| 0 <= i < s.len() ==> !keep(#[trigger] s[i]),
    ensures
        s.filter(keep) == Seq::<T>::empty(),
    decreases s.len(),
{
    reveal(Seq::filter);
    if s.len() > 0 {
        lemma_filter_none(s.drop_last(), keep);
    }
}

pub proof fn lemma_filter_push<T>(s: Seq<T>, x: T, keep: spec_fn(T) -> bool)
    ensures
        s.push(x).filter(keep) == if keep(x) {
            s.filter(keep).push(x)
        } else {
            s.filter(keep)
        },
{
    reveal(Seq::filter);
    assert(s.push(x).drop_last() =~= s);
}

/// Putting `x` behind everything of its rank sorts it in.
proof fn lemma_sorted_insert<T>(s: Seq<T>, out: Seq<T>, x: T, p: int, rank: spec_fn(T) -> int)
    requires
        stably_sorted(s, out, rank),
        0 <= p <= out.len(),
        forall|i: int| 0 <= i < p ==> #[trigger] rank(out[i]) <= rank(x),
        forall|i: int| p <= i < out.len() ==> #[trigger] rank(out[i]) > rank(x),
    ensures
        stably_sorted(s.push(x), out.insert(p, x), rank),
{
    let new = out.insert(p, x);
    assert forall|i: int, j: int| 0 <= i < j < new.len() implies #[trigger] rank(new[i])
        <= #[trigger] rank(new[j]) by {
        let a = if i < p { i } else { i - 1 };
        let b = if j < p { j } else { j - 1 };
        if i != p {
            assert(new[i] == out[a]);
        }
        if j != p {
            assert(new[j] == out[b]);
        }
    }
    assert forall|r: int| #[trigger] of_rank(new, rank, r) == of_rank(s.push(x), rank, r) by {
        let keep = |y: T| rank(y) == r;
        let head = out.take(p);
        let tail = out.skip(p);
        assert(out =~= head + tail);
        assert(new =~= head.push(x) + tail);
        Seq::filter_distributes_over_add(head, tail, keep);
        Seq::filter_distributes_over_add(head.push(x), tail, keep);
        lemma_filter_push(head, x, keep);
        lemma_filter_push(s, x, keep);
        assert(of_rank(out, rank, r) == of_rank(s, rank, r));
        if rank(x) == r {
            assert forall|i: int| 0 <= i < tail.len() implies !keep(#[trigger] tail[i]) by {
                assert(tail[i] == out[p + i]);
            }
            lemma_filter_none(tail, keep);
            assert(head.filter(keep) + Seq::<T>::empty() =~= head.filter(keep));
            assert(head.filter(keep).push(x) + Seq::<T>::empty() =~= head.filter(keep).push(x));
        }
    }
}

/// A filter that keeps every value changes nothing.
pub proof fn lemma_filter_all<T>(s: Seq<T>, keep: spec_fn(T) -> bool)
    requires
        forall|i: int| 0 <= i < s.len() ==> keep(#[trigger] s[i]),
    ensures
        s.filter(keep) == s,
    decreases s.len(),
{
    reveal(Seq::filter);
    if s.len() > 0 {
        lemma_filter_all(s.drop_last(), keep);
        assert(s.drop_last().push(s.last()) =~= s);
    }
}

/// Where a value of rank `r` is put into a sorted list: behind what does not rank higher.
spec fn place_of<T>(s: Seq<T>, rank: spec_fn(T) -> int, r: int) -> int
    decreases s.len(),
{
    if s.len() > 0 && rank(s.last()) > r {
        place_of(s.drop_last(), rank, r)
    } else {
        s.len() as int
    }
}

proof fn lemma_place_of<T>(s: Seq<T>, rank: spec_fn(T) -> int, r: int)
    requires
        sorted_by_rank(s, rank),
    ensures
        0 <= place_of(s, rank, r) <= s.len(),
        forall|i: int| 0 <= i < place_of(s, rank, r) ==> #[trigger] rank(s[i]) <= r,
        forall|i: int| place_of(s, rank, r) <= i < s.len() ==> #[trigger] rank(s[i]) > r,
    decreases s.len(),
{
    if s.len() > 0 {
        let t = s.drop_last();
        assert forall|i: int, j: int| 0 <= i < j < t.len() implies #[trigger] rank(t[i])
            <= #[trigger] rank(t[j]) by {
            assert(rank(s[i]) <= rank(s[j]));
        }
        lemma_place_of(t, rank, r);
        assert forall|i: int| 0 <= i < place_of(s, rank, r) implies #[trigger] rank(s[i]) <= r by {
            if i < s.len() - 1 {
                assert(rank(s[i]) <= rank(s[s.len() - 1]));
                assert(rank(t[i]) == rank(s[i]));
            }
        }
        assert forall|i: int| place_of(s, rank, r) <= i < s.len() implies #[trigger] rank(s[i])
            > r by {
            if i < s.len() - 1 {
                assert(rank(t[i]) == rank(s[i]));
            }
        }
    }
}

/// Every list can be sorted.
pub proof fn lemma_order_exists<T>(s: Seq<T>, rank: spec_fn(T) -> int)
    ensures
        exists|out: Seq<T>| stably_sorted(s, out, rank),
    decreases s.len(),
{
    if s.len() == 0 {
        assert(stably_sorted(s, s, rank));
    } else {
        let t = s.drop_last();
        lemma_order_exists(t, rank);
        let out = choose|out: Seq<T>| stably_sorted(t, out, rank);
        let p = place_of(out, rank, rank(s.last()));
        lemma_place_of(out, rank, rank(s.last()));
        lemma_sorted_insert(t, out, s.last(), p, rank);
        assert(t.push(s.last()) =~= s);
        assert(stably_sorted(s, out.insert(p, s.last()), rank));
    }
}

proof fn lemma_of_rank_nonempty<T>(s: Seq<T>, rank: spec_fn(T) -> int, i: int)
    requires
        0 <= i < s.len(),
    ensures
        of_rank(s, rank, rank(s[i])).contains(s[i]),
{
    s.lemma_filter_contains(|x: T| rank(x) == rank(s[i]), i);
}

proof fn lemma_of_rank_within<T>(s: Seq<T>, rank: spec_fn(T) -> int, r: int)
    requires
        of_rank(s, rank, r).len() > 0,
    ensures
        exists|i: int| 0 <= i < s.len() && #[trigger] rank(s[i]) == r,
    decreases s.len(),
{
    reveal(Seq::filter);
    let last = s.len() - 1;
    if rank(s[last]) != r {
        lemma_of_rank_within(s.drop_last(), rank, r);
        let i = choose|i: int| 0 <= i < last && #[trigger] rank(s.drop_last()[i]) == r;
        assert(rank(s[i]) == r);
    }
}

/// Two sorted lists that hold the same values of each rank, in the same order, are one list.
proof fn lemma_sorted_unique<T>(a: Seq<T>, b: Seq<T>, rank: spec_fn(T) -> int)
    requires
        sorted_by_rank(a, rank),
        sorted_by_rank(b, rank),
        forall|r: int| #[trigger] of_rank(a, rank, r) == of_rank(b, rank, r),
    ensures
        a == b,
    decreases a.len(),
{
    reveal(Seq::filter);
    if a.len() == 0 {
        if b.len() > 0 {
            lemma_of_rank_nonempty(b, rank, 0);
            assert(of_rank(a, rank, rank(b[0])).len() == 0);
        }
        assert(a =~= b);
    } else {
        let m = rank(a.last());
        lemma_of_rank_nonempty(a, rank, a.len() - 1);
        assert(of_rank(a, rank, m).len() > 0);
        assert(of_rank(b, rank, m).len() > 0);
        lemma_of_rank_within(b, rank, m);
        let k = rank(b.last());
        lemma_of_rank_nonempty(b, rank, b.len() - 1);
        assert(of_rank(b, rank, k).len() > 0);
        assert(of_rank(a, rank, k).len() > 0);
        lemma_of_rank_within(a, rank, k);
        assert(k == m);
        assert(of_rank(a, rank, m).last() == a.last());
        assert(of_rank(b, rank, m).last() == b.last());
        let x = a.drop_last();
        let y = b.drop_last();
        assert forall|r: int| #[trigger] of_rank(x, rank, r) == of_rank(y, rank, r) by {
            lemma_filter_push(x, a.last(), |z: T| rank(z) == r);
            lemma_filter_push(y, b.last(), |z: T| rank(z) == r);
            assert(x.push(a.last()) =~= a);
            assert(y.push(b.last()) =~= b);
            assert(of_rank(a, rank, r) == of_rank(b, rank, r));
            if r == m {
                assert(of_rank(x, rank, r) =~= of_rank(a, rank, r).drop_last());
                assert(of_rank(y, rank, r) =~= of_rank(b, rank, r).drop_last());
            }
        }
        assert forall|i: int, j: int| 0 <= i < j < x.len() implies #[trigger] rank(x[i])
            <= #[trigger] rank(x[j]) by {
            assert(rank(a[i]) <= rank(a[j]));
        }
        assert forall|i: int, j: int| 0 <= i < j < y.len() implies #[trigger] rank(y[i])
            <= #[trigger] rank(y[j]) by {
            assert(rank(b[i]) <= rank(b[j]));
        }
        lemma_sorted_unique(x, y, rank);
        assert(a =~= x.push(a.last()));
        assert(b =~= y.push(b.last()));
    }
}

/// What is kept of a sorted list is sorted.
pub proof fn law_kept_stays_sorted<T>(s: Seq<T>, keep: spec_fn(T) -> bool, rank: spec_fn(T) -> int)
    requires
        sorted_by_rank(s, rank),
    ensures
        sorted_by_rank(s.filter(keep), rank),
    decreases s.len(),
{
    reveal(Seq::filter);
    if s.len() > 0 {
        let t = s.drop_last();
        assert forall|i: int, j: int| 0 <= i < j < t.len() implies #[trigger] rank(t[i])
            <= #[trigger] rank(t[j]) by {
            assert(rank(s[i]) <= rank(s[j]));
        }
        law_kept_stays_sorted(t, keep, rank);
        let f = s.filter(keep);
        assert forall|i: int, j: int| 0 <= i < j < f.len() implies #[trigger] rank(f[i])
            <= #[trigger] rank(f[j]) by {
            if j < t.filter(keep).len() {
                assert(rank(t.filter(keep)[i]) <= rank(t.filter(keep)[j]));
            } else {
                assert(f[i] == t.filter(keep)[i]);
                assert(t.filter(keep).contains(f[i]));
                lemma_filtered_within(t, keep, f[i]);
                let k = choose|k: int| 0 <= k < t.len() && t[k] == f[i];
                assert(rank(s[k]) <= rank(s[s.len() - 1]));
            }
        }
    }
}

/// Two filters may be applied in either order.
proof fn lemma_filters_commute<T>(s: Seq<T>, p: spec_fn(T) -> bool, q: spec_fn(T) -> bool)
    ensures
        s.filter(p).filter(q) == s.filter(q).filter(p),
    decreases s.len(),
{
    reveal(Seq::filter);
    if s.len() > 0 {
        let t = s.drop_last();
        lemma_filters_commute(t, p, q);
        if p(s.last()) {
            lemma_filter_push(t.filter(p), s.last(), q);
        }
        if q(s.last()) {
            lemma_filter_push(t.filter(q), s.last(), p);
        }
    }
}

/// Sorting a list and then keeping a part of it sorts that part.
pub proof fn law_sorting_and_keeping<T>(
    s: Seq<T>,
    out: Seq<T>,
    keep: spec_fn(T) -> bool,
    rank: spec_fn(T) -> int,
)
    requires
        stably_sorted(s, out, rank),
        sorted_by_rank(s.filter(keep), rank),
    ensures
        out.filter(keep) == s.filter(keep),
{
    law_kept_stays_sorted(out, keep, rank);
    assert forall|r: int| #[trigger]
        of_rank(out.filter(keep), rank, r) == of_rank(s.filter(keep), rank, r) by {
        lemma_filters_commute(out, keep, |x: T| rank(x) == r);
        lemma_filters_commute(s, keep, |x: T| rank(x) == r);
        assert(of_rank(out, rank, r) == of_rank(s, rank, r));
    }
    lemma_sorted_unique(out.filter(keep), s.filter(keep), rank);
}

/// Sorting has one result.
pub proof fn law_sorting_is_determined<T>(
    s: Seq<T>,
    a: Seq<T>,
    b: Seq<T>,
    rank: spec_fn(T) -> int,
)
    requires
        stably_sorted(s, a, rank),
        stably_sorted(s, b, rank),
    ensures
        a == b,
{
    assert forall|r: int| #[trigger] of_rank(a, rank, r) == of_rank(b, rank, r) by {
        assert(of_rank(a, rank, r) == of_rank(s, rank, r));
        assert(of_rank(b, rank, r) == of_rank(s, rank, r));
    }
    lemma_sorted_unique(a, b, rank);
}

/// A list that is sorted stays as it is when it is sorted.
pub proof fn law_sorting_keeps_sorted<T>(s: Seq<T>, out: Seq<T>, rank: spec_fn(T) -> int)
    requires
        sorted_by_rank(s, rank),
        stably_sorted(s, out, rank),
    ensures
        out == s,
{
    assert(stably_sorted(s, s, rank));
    law_sorting_is_determined(s, s, out, rank);
}

/// A sorted list holds exactly the values of the list it was sorted from.
pub proof fn law_sorting_keeps_values<T>(s: Seq<T>, out: Seq<T>, rank: spec_fn(T) -> int, x: T)
    requires
        stably_sorted(s, out, rank),
    ensures
        out.contains(x) == s.contains(x),
{
    let keep = |y: T| rank(y) == rank(x);
    assert(of_rank(out, rank, rank(x)) == of_rank(s, rank, rank(x)));
    if out.contains(x) {
        let i = choose|i: int| 0 <= i < out.len() && out[i] == x;
        lemma_of_rank_nonempty(out, rank, i);
        lemma_filtered_within(s, keep, x);
    }
    if s.contains(x) {
        let i = choose|i: int| 0 <= i < s.len() && s[i] == x;
        lemma_of_rank_nonempty(s, rank, i);
        lemma_filtered_within(out, keep, x);
    }
}

pub proof fn lemma_filtered_within<T>(s: Seq<T>, keep: spec_fn(T) -> bool, x: T)
    requires
        s.filter(keep).contains(x),
    ensures
        s.contains(x),
        keep(x),
    decreases s.len(),
{
    reveal(Seq::filter);
    if s.len() > 0 {
        let t = s.drop_last();
        let f = s.filter(keep);
        let i = choose|i: int| 0 <= i < f.len() && f[i] == x;
        if keep(s.last()) && i == f.len() - 1 {
            assert(s[s.len() - 1] == x);
        } else {
            assert(t.filter(keep)[i] == x);
            lemma_filtered_within(t, keep, x);
            let j = choose|j: int| 0 <= j < t.len() && t[j] == x;
            assert(s[j] == x);
        }
    }
}

/// Sorting a list each time that a value is put behind it sorts all the values in the order
/// in which they came.
pub proof fn law_sorting_one_by_one<T>(
    s: Seq<T>,
    t: Seq<T>,
    x: T,
    out: Seq<T>,
    rank: spec_fn(T) -> int,
)
    requires
        stably_sorted(s, t, rank),
        stably_sorted(t.push(x), out, rank),
    ensures
        stably_sorted(s.push(x), out, rank),
{
    assert forall|r: int| #[trigger] of_rank(out, rank, r) == of_rank(s.push(x), rank, r) by {
        let keep = |y: T| rank(y) == r;
        lemma_filter_push(t, x, keep);
        lemma_filter_push(s, x, keep);
        assert(of_rank(t, rank, r) == of_rank(s, rank, r));
        assert(of_rank(out, rank, r) == of_rank(t.push(x), rank, r));
    }
}

/// Sorts a list by rank; what ranks alike keeps its order.
pub fn sort_by_rank<T: Ranked>(v: Vec<T>) -> (out: Vec<T>)
    ensures
        stably_sorted(v.deep_view(), out.deep_view(), |x: T::V| T::rank(x)),
{
    let ghost all = v.deep_view();
    let ghost rank = |x: T::V| T::rank(x);
    let mut out: Vec<T> = Vec::new();
    assert(all.take(0) =~= Seq::<T::V>::empty());
    assert(out.deep_view() =~= Seq::<T::V>::empty());
    for x in it: v
        invariant
            rank == (|x: T::V| T::rank(x)),
            it.seq() == v@,
            all == v.deep_view(),
            stably_sorted(all.take(it.index() as int), out.deep_view(), rank),
    {
        let mut p: usize = out.len();
        while p > 0 && x.ranks_before(&out[p - 1])
            invariant
                p <= out.len(),
                forall|i: int|
                    p <= i < out.len() ==> T::rank((#[trigger] out@[i]).deep_view()) > T::rank(
                        x.deep_view(),
                    ),
            decreases p,
        {
            p -= 1;
        }
        proof {
            let old_out = out.deep_view();
            assert forall|i: int| 0 <= i < p implies #[trigger] rank(old_out[i]) <= rank(
                x.deep_view(),
            ) by {
                if i < p - 1 {
                    assert(rank(old_out[i]) <= rank(old_out[p - 1]));
                }
            }
            lemma_sorted_insert(all.take(it.index() as int), old_out, x.deep_view(), p as int, rank);
            assert(all.take(it.index() as int).push(x.deep_view()) =~= all.take(it.index() + 1));
        }
        let ghost before = out.deep_view();
        let ghost xv = x.deep_view();
        out.insert(p, x);
        assert(out.deep_view() =~= before.insert(p as int, xv));
    }
    assert(all.take(all.len() as int) =~= all);
    out
}

} // verus!
