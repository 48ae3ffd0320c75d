//! Cutting an ordered list of addressed items into contiguous groups under
//! capacity limits: the rule that all batch plans share.

use super::frame::addr::McLogicalAddress;
use super::order::distinct_by;
use vstd::prelude::*;

verus! {

/// An item of a batch plan: a run of logical points of one device.
pub trait PlanItem: Sized {
    /// Where the run starts.
    spec fn addr_spec(self) -> McLogicalAddress;

    /// Device code used on the wire.
    spec fn code_spec(self) -> u16;

    /// Number of logical points of the run.
    spec fn len_spec(self) -> u16;

    fn item_addr(&self) -> (r: McLogicalAddress)
        ensures
            r == self.addr_spec(),
    ;

    fn item_code(&self) -> (r: u16)
        ensures
            r == self.code_spec(),
    ;

    fn item_len(&self) -> (r: u16)
        ensures
            r == self.len_spec(),
    ;
}

/// Capacity limits of one group.
#[derive(Debug, Clone, Copy, PartialEq, Eq, Structural)]
pub struct Limits {
    /// Maximum logical points of a group.
    pub max_points: u16,
    /// Maximum payload bytes of a group.
    pub max_bytes: u16,
}

/// Sum of the points of a group.
pub open spec fn total_len<T: PlanItem>(g: Seq<T>) -> int
    decreases g.len(),
{
    if g.len() == 0 {
        0
    } else {
        total_len(g.drop_last()) + g.last().len_spec()
    }
}

/// `x` continues the group `g`: same device and code, the next address, and
/// the grown group keeps within the limits.
pub open spec fn joins<T: PlanItem>(lim: Limits, g: Seq<T>, x: T) -> bool {
    let next = total_len(g) + x.len_spec();
    &&& g.len() > 0
    &&& g[0].addr_spec().device == x.addr_spec().device
    &&& g[0].code_spec() == x.code_spec()
    &&& x.addr_spec().head == g[0].addr_spec().head + total_len(g)
    &&& next <= lim.max_points
    &&& next * x.addr_spec().device.unit_spec() <= lim.max_bytes
}

/// The list cut into groups from front to back: an item goes into the group
/// before it where it continues that group, else it starts a new one.
pub open spec fn groups<T: PlanItem>(lim: Limits, s: Seq<T>) -> Seq<Seq<T>>
    decreases s.len(),
{
    if s.len() == 0 {
        Seq::empty()
    } else {
        let before = groups(lim, s.drop_last());
        if before.len() > 0 && joins(lim, before.last(), s.last()) {
            before.drop_last().push(before.last().push(s.last()))
        } else {
            before.push(seq![s.last()])
        }
    }
}

/// The groups joined end to end.
pub open spec fn joined<T>(gs: Seq<Seq<T>>) -> Seq<T>
    decreases gs.len(),
{
    if gs.len() == 0 {
        Seq::empty()
    } else {
        joined(gs.drop_last()) + gs.last()
    }
}

/// A vector of vectors as a sequence of sequences.
pub open spec fn nested<T>(v: Seq<Vec<T>>) -> Seq<Seq<T>> {
    v.map_values(|g: Vec<T>| g@)
}

pub proof fn lemma_total_len_nonneg<T: PlanItem>(g: Seq<T>)
    ensures
        total_len(g) >= 0,
    decreases g.len(),
{
    if g.len() > 0 {
        lemma_total_len_nonneg(g.drop_last());
    }
}

pub proof fn lemma_total_push<T: PlanItem>(g: Seq<T>, x: T)
    ensures
        total_len(g.push(x)) == total_len(g) + x.len_spec(),
{
    assert(g.push(x).drop_last() =~= g);
}

pub proof fn lemma_total_take<T: PlanItem>(g: Seq<T>, j: int)
    requires
        0 <= j < g.len(),
    ensures
        0 <= total_len(g.take(j)),
        total_len(g.take(j + 1)) == total_len(g.take(j)) + g[j].len_spec(),
        total_len(g.take(j + 1)) <= total_len(g),
    decreases g.len(),
{
    let d = g.drop_last();
    lemma_total_len_nonneg(g.take(j));
    assert(g.take(j + 1) =~= g.take(j).push(g[j]));
    lemma_total_push(g.take(j), g[j]);
    if j < d.len() {
        assert(d.take(j) =~= g.take(j));
        assert(d.take(j + 1) =~= g.take(j + 1));
        lemma_total_take(d, j);
    } else {
        assert(g.take(j + 1) =~= g);
    }
}

/// No item is lost, doubled or moved: the groups joined end to end are the
/// list.
pub proof fn groups_keep_all_items<T: PlanItem>(lim: Limits, s: Seq<T>)
    ensures
        joined(groups(lim, s)) == s,
    decreases s.len(),
{
    if s.len() > 0 {
        let before = groups(lim, s.drop_last());
        groups_keep_all_items(lim, s.drop_last());
        assert(s =~= s.drop_last().push(s.last()));
        if before.len() > 0 && joins(lim, before.last(), s.last()) {
            let grown = before.last().push(s.last());
            assert(before.drop_last().push(grown).drop_last() =~= before.drop_last());
            assert(joined(before.drop_last()) + grown =~= (joined(before.drop_last())
                + before.last()).push(s.last()));
        } else {
            assert(before.push(seq![s.last()]).drop_last() =~= before);
            assert(joined(before) + seq![s.last()] =~= joined(before).push(s.last()));
        }
    }
}

/// Every item of a group is an item of the list.
pub proof fn groups_hold_list_items<T: PlanItem>(lim: Limits, s: Seq<T>, i: int, j: int)
    requires
        0 <= i < groups(lim, s).len(),
        0 <= j < groups(lim, s)[i].len(),
    ensures
        s.contains(groups(lim, s)[i][j]),
    decreases s.len(),
{
    let d = s.drop_last();
    let before = groups(lim, d);
    let x = groups(lim, s)[i][j];
    if i < before.len() && j < before[i].len() {
        assert(x == before[i][j]);
        groups_hold_list_items(lim, d, i, j);
        let k = choose|k: int| 0 <= k < d.len() && d[k] == x;
        assert(s[k] == x);
    } else {
        assert(x == s[s.len() - 1]);
    }
}

/// Items that differ in `f` in the list differ in `f` wherever they stand in
/// the groups.
pub proof fn groups_keep_distinct<T: PlanItem>(lim: Limits, s: Seq<T>, f: spec_fn(T) -> int)
    requires
        distinct_by(s, f),
    ensures
        forall|i: int, j: int, k: int, l: int|
            0 <= i < groups(lim, s).len() && 0 <= j < groups(lim, s)[i].len() && 0 <= k < groups(
                lim,
                s,
            ).len() && 0 <= l < groups(lim, s)[k].len() && f(#[trigger] groups(lim, s)[i][j]) == f(
                #[trigger] groups(lim, s)[k][l],
            ) ==> i == k && j == l,
    decreases s.len(),
{
    if s.len() > 0 {
        let d = s.drop_last();
        let x = s.last();
        assert forall|i: int, j: int|
            0 <= i < d.len() && 0 <= j < d.len() && f(#[trigger] d[i]) == f(
                #[trigger] d[j],
            ) implies i == j by {
            assert(d[i] == s[i] && d[j] == s[j]);
        }
        groups_keep_distinct(lim, d, f);
        let before = groups(lim, d);
        let gs = groups(lim, s);
        assert forall|i: int, j: int|
            0 <= i < before.len() && 0 <= j < before[i].len() implies f(
            #[trigger] before[i][j],
        ) != f(x) by {
            groups_hold_list_items(lim, d, i, j);
            let m = choose|m: int| 0 <= m < d.len() && d[m] == before[i][j];
            assert(s[m] == before[i][j]);
            assert(s[s.len() - 1] == x);
        }
        assert forall|i: int, j: int, k: int, l: int|
            0 <= i < gs.len() && 0 <= j < gs[i].len() && 0 <= k < gs.len() && 0 <= l < gs[k].len()
                && f(#[trigger] gs[i][j]) == f(#[trigger] gs[k][l]) implies i == k && j == l by {
            let old_ij = i < before.len() && j < before[i].len();
            let old_kl = k < before.len() && l < before[k].len();
            if old_ij {
                assert(gs[i][j] == before[i][j]);
            } else {
                assert(gs[i][j] == x);
            }
            if old_kl {
                assert(gs[k][l] == before[k][l]);
            } else {
                assert(gs[k][l] == x);
            }
        }
    }
}

/// In every group all items share device and code, and each item starts
/// where the items before it in the group end.
pub open spec fn contiguous<T: PlanItem>(g: Seq<T>) -> bool {
    &&& g.len() > 0
    &&& forall|i: int|
        0 <= i < g.len() ==> {
            &&& (#[trigger] g[i]).addr_spec().device == g[0].addr_spec().device
            &&& g[i].code_spec() == g[0].code_spec()
            &&& g[i].addr_spec().head == g[0].addr_spec().head + total_len(g.take(i))
        }
}

/// A group of more than one item keeps within the limits.
pub open spec fn within<T: PlanItem>(lim: Limits, g: Seq<T>) -> bool {
    g.len() > 1 ==> total_len(g) <= lim.max_points && total_len(g)
        * g[0].addr_spec().device.unit_spec() <= lim.max_bytes
}

/// Every group is a contiguous run of one device with a count of points of 16
/// bits, and a group of more than one item keeps within the limits.
pub proof fn groups_are_contiguous_and_within_limits<T: PlanItem>(lim: Limits, s: Seq<T>)
    ensures
        forall|i: int|
            0 <= i < groups(lim, s).len() ==> contiguous(#[trigger] groups(lim, s)[i]) && within(
                lim,
                groups(lim, s)[i],
            ) && total_len(groups(lim, s)[i]) <= 0xFFFF,
    decreases s.len(),
{
    if s.len() > 0 {
        let before = groups(lim, s.drop_last());
        let x = s.last();
        groups_are_contiguous_and_within_limits(lim, s.drop_last());
        if before.len() > 0 && joins(lim, before.last(), x) {
            let g = before.last();
            assert(g == before[before.len() - 1]);
            let h = g.push(x);
            lemma_total_push(g, x);
            assert forall|i: int| 0 <= i < h.len() implies {
                &&& (#[trigger] h[i]).addr_spec().device == h[0].addr_spec().device
                &&& h[i].code_spec() == h[0].code_spec()
                &&& h[i].addr_spec().head == h[0].addr_spec().head + total_len(h.take(i))
            } by {
                assert(h.take(i) =~= g.take(i));
                if i < g.len() {
                    assert(h[i] == g[i]);
                } else {
                    assert(g.take(i) =~= g);
                }
            }
            assert(contiguous(h));
            let gs = before.drop_last().push(h);
            assert forall|i: int| 0 <= i < gs.len() implies contiguous(#[trigger] gs[i]) && within(
                lim,
                gs[i],
            ) && total_len(gs[i]) <= 0xFFFF by {
                if i < before.len() - 1 {
                    assert(gs[i] == before[i]);
                }
            }
        } else {
            let h = seq![x];
            assert(h.drop_last() =~= Seq::<T>::empty());
            assert(h.take(0) =~= Seq::<T>::empty());
            let gs = before.push(h);
            assert forall|i: int| 0 <= i < gs.len() implies contiguous(#[trigger] gs[i]) && within(
                lim,
                gs[i],
            ) && total_len(gs[i]) <= 0xFFFF by {
                if i < before.len() {
                    assert(gs[i] == before[i]);
                }
            }
        }
    }
}

/// Groups are not cut without need: the first item of a group does not
/// continue the group before it.
pub proof fn groups_are_maximal<T: PlanItem>(lim: Limits, s: Seq<T>)
    ensures
        forall|i: int|
            0 < i < groups(lim, s).len() ==> !joins(
                lim,
                groups(lim, s)[i - 1],
                (#[trigger] groups(lim, s)[i])[0],
            ),
    decreases s.len(),
{
    if s.len() > 0 {
        let before = groups(lim, s.drop_last());
        let x = s.last();
        groups_are_maximal(lim, s.drop_last());
        groups_are_contiguous_and_within_limits(lim, s.drop_last());
        let gs = groups(lim, s);
        assert forall|i: int| 0 < i < gs.len() implies !joins(
            lim,
            gs[i - 1],
            (#[trigger] gs[i])[0],
        ) by {
            if i < before.len() {
                assert(contiguous(before[i]));
                assert(gs[i - 1] == before[i - 1]);
                assert(gs[i][0] == before[i][0]);
            } else {
                assert(gs[i - 1] == before.last());
            }
        }
    }
}

/// Cut an ordered list into groups.
pub(crate) fn group_items<T: PlanItem>(lim: Limits, items: Vec<T>) -> (r: Vec<Vec<T>>)
    ensures
        nested(r@) == groups(lim, items@),
{
    let mut done: Vec<Vec<T>> = Vec::new();
    let mut cur: Vec<T> = Vec::new();
    let mut points: u32 = 0;
    for x in it: items
        invariant
            it.seq() == items@,
            points == total_len(cur@),
            points <= 0xFFFF,
            cur@.len() == 0 ==> it.index() == 0 && done@.len() == 0,
            cur@.len() > 0 ==> groups(lim, it.seq().take(it.index() as int)) == nested(done@).push(
                cur@,
            ),
    {
        let a = x.item_addr();
        let len: u16 = x.item_len();
        let unit: usize = a.device.unit_size();
        let ghost t = it.seq().take(it.index() + 1);
        proof {
            assert(t.drop_last() =~= it.seq().take(it.index() as int));
            assert(t.last() == x);
            lemma_total_push(cur@, x);
            lemma_total_push(Seq::<T>::empty(), x);
            assert(Seq::<T>::empty().push(x) =~= seq![x]);
        }
        let next: u32 = points + len as u32;
        let mut join: bool = false;
        if cur.len() > 0 {
            let first = cur[0].item_addr();
            join = first.device == a.device && cur[0].item_code() == x.item_code() && a.head
                as u64 == first.head as u64 + points as u64 && next <= lim.max_points as u32
                && next as usize * unit <= lim.max_bytes as usize;
        }
        assert(join == joins(lim, cur@, x));
        if join {
            proof {
                assert(nested(done@).push(cur@).drop_last() =~= nested(done@));
                assert(nested(done@).push(cur@).last() == cur@);
            }
            cur.push(x);
            points = next;
            assert(groups(lim, t) == nested(done@).push(cur@));
        } else {
            let ghost old_cur = cur@;
            let ghost old_done = nested(done@);
            let mut fresh: Vec<T> = Vec::new();
            fresh.push(x);
            points = len as u32;
            if cur.len() > 0 {
                done.push(cur);
                proof {
                    assert(nested(done@) =~= old_done.push(old_cur));
                }
            }
            cur = fresh;
            proof {
                assert(cur@ =~= seq![x]);
                if old_cur.len() == 0 {
                    assert(it.seq().take(it.index() as int) =~= Seq::<T>::empty());
                    assert(nested(done@) =~= Seq::<Seq<T>>::empty());
                    assert(groups(lim, t.drop_last()) == Seq::<Seq<T>>::empty());
                } else {
                    assert(old_done.push(old_cur).last() == old_cur);
                }
                assert(groups(lim, t) == nested(done@).push(cur@));
            }
        }
    }
    proof {
        assert(items@.take(items@.len() as int) =~= items@);
    }
    let ghost before = nested(done@);
    let ghost last = cur@;
    if cur.len() > 0 {
        done.push(cur);
        proof {
            assert(nested(done@) =~= before.push(last));
        }
    } else {
        proof {
            assert(nested(done@) =~= Seq::<Seq<T>>::empty());
        }
    }
    done
}

} // verus!
