//! Stable ordering of plan items by an integer key.

use vstd::prelude::*;

verus! {

/// An item that plans order by an integer key.
pub trait SortKey: Sized {
    /// The key by which the item is ordered.
    spec fn key_spec(self) -> int;

    /// The key by which the item is ordered.
    fn sort_key(&self) -> (k: u64)
        ensures
            k == self.key_spec(),
    ;
}

/// `x` put into `s` behind the last item whose key is not greater.
pub open spec fn insert_sorted<T: SortKey>(s: Seq<T>, x: T) -> Seq<T>
    decreases s.len(),
{
    if s.len() == 0 || s.last().key_spec() <= x.key_spec() {
        s.push(x)
    } else {
        insert_sorted(s.drop_last(), x).push(s.last())
    }
}

/// The items of `s` in ascending order of their keys; items with equal keys
/// keep their order.
pub open spec fn stable_sort<T: SortKey>(s: Seq<T>) -> Seq<T>
    decreases s.len(),
{
    if s.len() == 0 {
        s
    } else {
        insert_sorted(stable_sort(s.drop_last()), s.last())
    }
}

/// The keys of `s` do not descend.
pub open spec fn is_sorted<T: SortKey>(s: Seq<T>) -> bool {
    forall|i: int, j: int|
        0 <= i <= j < s.len() ==> (#[trigger] s[i]).key_spec() <= (#[trigger] s[j]).key_spec()
}

/// The items of `s` whose key is `k`, in their order.
pub open spec fn with_key<T: SortKey>(s: Seq<T>, k: int) -> Seq<T>
    decreases s.len(),
{
    if s.len() == 0 {
        s
    } else if s.last().key_spec() == k {
        with_key(s.drop_last(), k).push(s.last())
    } else {
        with_key(s.drop_last(), k)
    }
}

proof fn lemma_insert_at<T: SortKey>(s: Seq<T>, x: T, p: int)
    requires
        0 <= p <= s.len(),
        p == 0 || s[p - 1].key_spec() <= x.key_spec(),
        forall|j: int| p <= j < s.len() ==> (#[trigger] s[j]).key_spec() > x.key_spec(),
    ensures
        insert_sorted(s, x) == s.insert(p, x),
    decreases s.len(),
{
    if p == s.len() {
        assert(s.insert(p, x) =~= s.push(x));
        if s.len() > 0 {
            assert(s.last() == s[p - 1]);
        }
    } else {
        assert(s.last() == s[s.len() - 1]);
        lemma_insert_at(s.drop_last(), x, p);
        assert(s.insert(p, x) =~= s.drop_last().insert(p, x).push(s.last()));
    }
}

proof fn lemma_insert_sorted<T: SortKey>(s: Seq<T>, x: T)
    requires
        is_sorted(s),
    ensures
        is_sorted(insert_sorted(s, x)),
        insert_sorted(s, x).len() == s.len() + 1,
        insert_sorted(s, x).to_multiset() == s.to_multiset().insert(x),
        forall|i: int|
            0 <= i <= s.len() ==> (#[trigger] insert_sorted(s, x)[i]) == x || s.contains(
                insert_sorted(s, x)[i],
            ),
        forall|k: int|
            #[trigger] with_key(insert_sorted(s, x), k) == if k == x.key_spec() {
                with_key(s, k).push(x)
            } else {
                with_key(s, k)
            },
    decreases s.len(),
{
    broadcast use vstd::seq_lib::group_to_multiset_ensures;

    let r = insert_sorted(s, x);
    if s.len() == 0 || s.last().key_spec() <= x.key_spec() {
        assert(r.drop_last() =~= s);
        assert(r.last() == x);
        assert forall|i: int| 0 <= i <= s.len() implies #[trigger] r[i] == x || s.contains(
            r[i],
        ) by {
            if i < s.len() {
                assert(r[i] == s[i]);
            }
        }
    } else {
        let d = s.drop_last();
        let last = s.last();
        lemma_insert_sorted(d, x);
        let q = insert_sorted(d, x);
        assert(r.drop_last() =~= q);
        assert(r.last() == last);
        assert(s =~= d.push(last));
        assert forall|i: int| 0 <= i <= s.len() implies #[trigger] r[i] == x || s.contains(
            r[i],
        ) by {
            if i < s.len() {
                assert(r[i] == q[i]);
                if q[i] != x {
                    let j = choose|j: int| 0 <= j < d.len() && d[j] == q[i];
                    assert(s[j] == q[i]);
                }
            } else {
                assert(r[i] == s[s.len() - 1]);
            }
        }
        assert forall|i: int, j: int| 0 <= i <= j < r.len() implies (#[trigger] r[i]).key_spec()
            <= (#[trigger] r[j]).key_spec() by {
            if j < q.len() {
                assert(r[i] == q[i] && r[j] == q[j]);
            } else if i < q.len() {
                assert(r[i] == q[i]);
                if q[i] != x {
                    let m = choose|m: int| 0 <= m < d.len() && d[m] == q[i];
                    assert(s[m] == q[i]);
                    assert(s[s.len() - 1] == last);
                }
            }
        }
        assert forall|k: int| #[trigger] with_key(r, k) == if k == x.key_spec() {
            with_key(s, k).push(x)
        } else {
            with_key(s, k)
        } by {
            assert(with_key(q, k) == if k == x.key_spec() {
                with_key(d, k).push(x)
            } else {
                with_key(d, k)
            });
        }
        assert(r.to_multiset() =~= s.to_multiset().insert(x));
    }
}

/// Sorting keeps every item as often as it occurs, puts the keys in ascending
/// order and leaves items of one key in the order in which they came.
pub proof fn stable_sort_sorts<T: SortKey>(s: Seq<T>)
    ensures
        is_sorted(stable_sort(s)),
        stable_sort(s).len() == s.len(),
        stable_sort(s).to_multiset() == s.to_multiset(),
        forall|k: int| #[trigger] with_key(stable_sort(s), k) == with_key(s, k),
    decreases s.len(),
{
    broadcast use vstd::seq_lib::group_to_multiset_ensures;

    if s.len() > 0 {
        stable_sort_sorts(s.drop_last());
        lemma_insert_sorted(stable_sort(s.drop_last()), s.last());
        assert(s =~= s.drop_last().push(s.last()));
    }
}

/// Every item of a sorted list is an item of the list.
pub proof fn sorted_items_are_list_items<T: SortKey>(s: Seq<T>, k: int)
    requires
        0 <= k < stable_sort(s).len(),
    ensures
        s.contains(stable_sort(s)[k]),
{
    broadcast use vstd::seq_lib::group_to_multiset_ensures;

    stable_sort_sorts(s);
    let x = stable_sort(s)[k];
    assert(stable_sort(s).contains(x));
    assert(stable_sort(s).to_multiset().count(x) > 0);
}

/// No two items of `s` have the same value of `f`.
pub open spec fn distinct_by<T>(s: Seq<T>, f: spec_fn(T) -> int) -> bool {
    forall|i: int, j: int|
        0 <= i < s.len() && 0 <= j < s.len() && f(#[trigger] s[i]) == f(#[trigger] s[j]) ==> i == j
}

proof fn lemma_insert_position<T: SortKey>(s: Seq<T>, x: T) -> (p: int)
    ensures
        0 <= p <= s.len(),
        insert_sorted(s, x) == s.insert(p, x),
    decreases s.len(),
{
    if s.len() == 0 || s.last().key_spec() <= x.key_spec() {
        assert(s.insert(s.len() as int, x) =~= s.push(x));
        s.len() as int
    } else {
        let p = lemma_insert_position(s.drop_last(), x);
        assert(s.insert(p, x) =~= s.drop_last().insert(p, x).push(s.last()));
        p
    }
}

/// Sorting keeps items apart that differ in `f`.
pub proof fn sorting_keeps_distinct<T: SortKey>(s: Seq<T>, f: spec_fn(T) -> int)
    requires
        distinct_by(s, f),
    ensures
        distinct_by(stable_sort(s), f),
    decreases s.len(),
{
    if s.len() > 0 {
        let d = s.drop_last();
        let x = s.last();
        assert forall|i: int, j: int|
            0 <= i < d.len() && 0 <= j < d.len() && f(#[trigger] d[i]) == f(
                #[trigger] d[j],
            ) implies i == j by {
            assert(d[i] == s[i] && d[j] == s[j]);
        }
        sorting_keeps_distinct(d, f);
        let t = stable_sort(d);
        let p = lemma_insert_position(t, x);
        let r = t.insert(p, x);
        assert forall|k: int| 0 <= k < t.len() implies f(#[trigger] t[k]) != f(x) by {
            sorted_items_are_list_items(d, k);
            let l = choose|l: int| 0 <= l < d.len() && d[l] == t[k];
            assert(s[l] == t[k]);
            assert(s[s.len() - 1] == x);
        }
        assert forall|i: int, j: int|
            0 <= i < r.len() && 0 <= j < r.len() && f(#[trigger] r[i]) == f(
                #[trigger] r[j],
            ) implies i == j by {
            let a = if i < p {
                i
            } else {
                i - 1
            };
            let b = if j < p {
                j
            } else {
                j - 1
            };
            if i != p {
                assert(r[i] == t[a]);
            }
            if j != p {
                assert(r[j] == t[b]);
            }
        }
    }
}

/// Sort a list of items by key, keeping the order of items with equal keys.
pub fn sort_by_key<T: SortKey>(v: Vec<T>) -> (r: Vec<T>)
    ensures
        r@ == stable_sort(v@),
{
    let mut out: Vec<T> = Vec::with_capacity(v.len());
    for x in it: v
        invariant
            it.seq() == v@,
            out@ == stable_sort(it.seq().take(it.index() as int)),
    {
        let k: u64 = x.sort_key();
        let mut p: usize = out.len();
        while p > 0 && out[p - 1].sort_key() > k
            invariant
                p <= out.len(),
                k == x.key_spec(),
                forall|j: int| p <= j < out.len() ==> (#[trigger] out@[j]).key_spec() > k,
            decreases p,
        {
            p -= 1;
        }
        proof {
            lemma_insert_at(out@, x, p as int);
            let t = it.seq().take(it.index() + 1);
            assert(t.drop_last() =~= it.seq().take(it.index() as int));
            assert(t.last() == x);
        }
        out.insert(p, x);
    }
    proof {
        assert(v@.take(v@.len() as int) =~= v@);
    }
    out
}

} // verus!
