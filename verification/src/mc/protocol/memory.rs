//! What batch writes do to the memory of a controller.

use super::frame::device::McDeviceType;
use super::grouping::{
    contiguous, groups, groups_are_contiguous_and_within_limits, groups_hold_list_items,
    groups_keep_all_items, groups_keep_distinct, joined, lemma_total_take, total_len, PlanItem,
};
use super::merge::{after_batches, blank_items, BatchResult, ReadItem};
use super::order::{
    distinct_by, sorted_items_are_list_items, sorting_keeps_distinct, stable_sort,
    stable_sort_sorts,
};
use super::planner::{
    all_data, packed, payload_is_the_data_end_to_end, read_plan, write_batch_of, write_groups,
    write_plan, PlannerConfig, PointReadSpec, WriteBatch, WriteEntry,
};
use super::session::reads::{batch_reads_return_what_the_devices_hold, block};
use crate::wire::bytes_content;
use vstd::prelude::*;

verus! {

/// The batch writes to this byte of a device.
pub open spec fn batch_covers(b: WriteBatch, device: McDeviceType, x: int) -> bool {
    let from = b.head * b.device.unit_spec();
    device == b.device && from <= x < from + b.data.len()
}

/// The memory after a batch write: the block at its head holds its data.
pub open spec fn after_write(
    mem: spec_fn(McDeviceType, int) -> u8,
    b: WriteBatch,
) -> spec_fn(McDeviceType, int) -> u8 {
    |device: McDeviceType, x: int|
        if batch_covers(b, device, x) {
            b.data[x - b.head * b.device.unit_spec()]
        } else {
            mem(device, x)
        }
}

/// The memory after batch writes, one after the other.
pub open spec fn after_writes(
    mem: spec_fn(McDeviceType, int) -> u8,
    bs: Seq<WriteBatch>,
) -> spec_fn(McDeviceType, int) -> u8
    decreases bs.len(),
{
    if bs.len() == 0 {
        mem
    } else {
        after_write(after_writes(mem, bs.drop_last()), bs.last())
    }
}

/// The entry is to be written to this byte of a device.
pub open spec fn covers(e: WriteEntry, device: McDeviceType, x: int) -> bool {
    let unit = device.unit_spec();
    e.addr.device == device && e.addr.head * unit <= x < (e.addr.head + e.word_len) * unit
}

/// The entries have no unit in common.
pub open spec fn apart(a: WriteEntry, b: WriteEntry) -> bool {
    ||| a.addr.device != b.addr.device
    ||| a.addr.head + a.word_len <= b.addr.head
    ||| b.addr.head + b.word_len <= a.addr.head
}

/// The entry brings the bytes of its units, at least one.
pub open spec fn is_whole(e: WriteEntry) -> bool {
    &&& e.word_len > 0
    &&& bytes_content(e.data).len() == e.word_len * e.addr.device.unit_spec()
}

/// Whole entries that have no unit in common.
pub open spec fn can_be_written(entries: Seq<WriteEntry>) -> bool {
    &&& forall|i: int| 0 <= i < entries.len() ==> is_whole(#[trigger] entries[i])
    &&& forall|i: int, j: int|
        0 <= i < j < entries.len() ==> apart(#[trigger] entries[i], #[trigger] entries[j])
}

/// A group of whole entries that have no unit in common, each behind the one
/// before it.
spec fn is_run(g: Seq<WriteEntry>) -> bool {
    &&& contiguous(g)
    &&& forall|i: int| 0 <= i < g.len() ==> is_whole(#[trigger] g[i])
    &&& forall|i: int, j: int|
        0 <= i < j < g.len() ==> apart(#[trigger] g[i], #[trigger] g[j])
}

/// Each entry of a run starts where the ones before it end.
proof fn lemma_heads(g: Seq<WriteEntry>, i: int)
    requires
        is_run(g),
        0 <= i < g.len(),
    ensures
        g[i].addr.head == g[0].addr.head + total_len(g.take(i)),
        g[i].addr.device == g[0].addr.device,
{
    assert(g[i].addr_spec().device == g[0].addr_spec().device);
}

/// The entry of a run that has a unit.
proof fn lemma_find(g: Seq<WriteEntry>, q: int) -> (l: int)
    requires
        0 <= q < total_len(g),
    ensures
        0 <= l < g.len(),
        total_len(g.take(l)) <= q < total_len(g.take(l)) + g[l].word_len,
    decreases g.len(),
{
    let d = g.drop_last();
    let n = g.len() - 1;
    if q < total_len(d) {
        let l = lemma_find(d, q);
        assert(d.take(l) =~= g.take(l));
        l
    } else {
        assert(g.take(n) =~= d);
        n
    }
}

/// The data of an entry stands in the data of its group at its place.
proof fn lemma_place(g: Seq<WriteEntry>, i: int)
    requires
        forall|k: int|
            0 <= k < g.len() ==> (#[trigger] g[k]).addr.device == g[0].addr.device && is_whole(
                g[k],
            ),
        0 <= i < g.len(),
    ensures
        ({
            let unit = g[0].addr.device.unit_spec();
            let at = total_len(g.take(i)) * unit;
            &&& 0 <= at
            &&& at + bytes_content(g[i].data).len() <= all_data(g).len()
            &&& all_data(g).subrange(at, at + bytes_content(g[i].data).len()) == bytes_content(
                g[i].data,
            )
        }),
    decreases g.len(),
{
    let d = g.drop_last();
    let e = g.last();
    assert forall|k: int| 0 <= k < d.len() implies (#[trigger] d[k]).addr.device
        == d[0].addr.device && is_whole(d[k]) by {
        assert(d[k] == g[k]);
        assert(d[0] == g[0]);
    }
    lemma_total_take(g, g.len() - 1);
    assert(g.take(g.len() - 1) =~= d);
    payload_is_the_data_end_to_end(d);
    let unit = g[0].addr.device.unit_spec() as int;
    if i < d.len() {
        lemma_place(d, i);
        assert(d.take(i) =~= g.take(i));
        assert(d[0] == g[0]);
        let at = total_len(g.take(i)) * unit;
        let n = bytes_content(g[i].data).len();
        assert(all_data(g).subrange(at, at + n) =~= all_data(d).subrange(at, at + n));
    } else {
        assert(g[i] == e);
        if d.len() > 0 {
            assert(d[0] == g[0]);
        } else {
            assert(g.take(i) =~= Seq::<WriteEntry>::empty());
        }
        let at = total_len(g.take(i)) * unit;
        assert(at == all_data(d).len());
        assert(all_data(g).subrange(at, at + bytes_content(e.data).len()) =~= bytes_content(
            e.data,
        ));
    }
}

/// What the batch of a run holds, and which bytes it covers: those of its
/// entries, each with the byte of its entry.
proof fn lemma_batch(g: Seq<WriteEntry>)
    requires
        is_run(g),
    ensures
        packed(g) == Some(all_data(g)),
        forall|l: int, device: McDeviceType, x: int|
            0 <= l < g.len() && #[trigger] covers(g[l], device, x) ==> batch_covers(
                write_batch_of(g),
                device,
                x,
            ) && write_batch_of(g).data[x - g[0].addr.head * g[0].addr.device.unit_spec()]
                == bytes_content(g[l].data)[x - g[l].addr.head * device.unit_spec()],
        forall|device: McDeviceType, x: int| #[trigger]
            batch_covers(write_batch_of(g), device, x) ==> exists|l: int|
                0 <= l < g.len() && #[trigger] covers(g[l], device, x),
{
    let b = write_batch_of(g);
    let unit = g[0].addr.device.unit_spec() as int;
    let head = g[0].addr.head as int;
    assert forall|k: int| 0 <= k < g.len() implies (#[trigger] g[k]).addr.device
        == g[0].addr.device && bytes_content(g[k].data).len() == g[k].word_len
        * g[k].addr.device.unit_spec() by {
        lemma_heads(g, k);
        assert(is_whole(g[k]));
    }
    payload_is_the_data_end_to_end(g);
    assert forall|l: int, device: McDeviceType, x: int|
        0 <= l < g.len() && #[trigger] covers(g[l], device, x) implies batch_covers(b, device, x)
        && b.data[x - head * unit] == bytes_content(g[l].data)[x - g[l].addr.head
        * device.unit_spec()] by {
        lemma_heads(g, l);
        lemma_place(g, l);
        lemma_total_take(g, l);
        let o = total_len(g.take(l));
        assert(g[l].addr.head * unit == head * unit + o * unit) by (nonlinear_arith)
            requires
                g[l].addr.head == head + o,
        ;
        assert((g[l].addr.head + g[l].word_len) * unit == g[l].addr.head * unit + g[l].word_len
            * unit) by (nonlinear_arith);
        let t = all_data(g).subrange(o * unit, o * unit + bytes_content(g[l].data).len());
        assert(t[x - g[l].addr.head * unit] == all_data(g)[x - head * unit]);
    }
    assert forall|device: McDeviceType, x: int| #[trigger] batch_covers(
        b,
        device,
        x,
    ) implies exists|l: int| 0 <= l < g.len() && #[trigger] covers(g[l], device, x) by {
        let y = x - head * unit;
        let q = y / unit;
        assert(0 <= q < total_len(g) && q * unit <= y < (q + 1) * unit) by (nonlinear_arith)
            requires
                0 <= y < total_len(g) * unit,
                q == y / unit,
                unit > 0,
        ;
        let l = lemma_find(g, q);
        lemma_heads(g, l);
        let o = total_len(g.take(l));
        let n = g[l].word_len as int;
        assert((head + o) * unit <= x < (head + o + n) * unit) by (nonlinear_arith)
            requires
                o <= q < o + n,
                q * unit <= x - head * unit < (q + 1) * unit,
                unit > 0,
        ;
        assert(covers(g[l], device, x));
    }
}

/// Where no batch covers a byte it keeps its value; where one does and none
/// behind it does, it gets the value from that batch.
proof fn lemma_after_writes(
    mem: spec_fn(McDeviceType, int) -> u8,
    bs: Seq<WriteBatch>,
    device: McDeviceType,
    x: int,
    i: int,
)
    requires
        -1 <= i < bs.len(),
        forall|k: int| i < k < bs.len() ==> !batch_covers(#[trigger] bs[k], device, x),
        i >= 0 ==> batch_covers(bs[i], device, x),
    ensures
        i < 0 ==> after_writes(mem, bs)(device, x) == mem(device, x),
        i >= 0 ==> after_writes(mem, bs)(device, x) == bs[i].data[x - bs[i].head
            * bs[i].device.unit_spec()],
    decreases bs.len(),
{
    if bs.len() > 0 && i < bs.len() - 1 {
        let d = bs.drop_last();
        assert forall|k: int| i < k < d.len() implies !batch_covers(
            #[trigger] d[k],
            device,
            x,
        ) by {
            assert(d[k] == bs[k]);
        }
        if i >= 0 {
            assert(d[i] == bs[i]);
        }
        lemma_after_writes(mem, d, device, x, i);
        assert(!batch_covers(bs[bs.len() - 1], device, x));
    }
}

/// The groups of a plan are runs, and entries at different places of the
/// groups have no unit in common.
proof fn lemma_groups(config: PlannerConfig, entries: Seq<WriteEntry>)
    requires
        can_be_written(entries),
    ensures
        ({
            let gs = write_groups(config, entries);
            &&& forall|i: int| 0 <= i < gs.len() ==> is_run(#[trigger] gs[i])
            &&& forall|i: int, j: int|
                0 <= i < gs.len() && 0 <= j < gs[i].len() ==> entries.contains(
                    #[trigger] gs[i][j],
                )
            &&& forall|i: int, j: int, k: int, l: int|
                0 <= i < gs.len() && 0 <= j < gs[i].len() && 0 <= k < gs.len() && 0 <= l
                    < gs[k].len() && !(i == k && j == l) ==> apart(
                    #[trigger] gs[i][j],
                    #[trigger] gs[k][l],
                )
        }),
{
    let lim = config.limits_spec();
    let sorted = stable_sort(entries);
    let gs = write_groups(config, entries);
    let f = |e: WriteEntry| e.addr.order_spec();
    assert forall|i: int, j: int|
        0 <= i < entries.len() && 0 <= j < entries.len() && f(#[trigger] entries[i]) == f(
            #[trigger] entries[j],
        ) implies i == j by {
        assert(is_whole(entries[i]) && is_whole(entries[j]));
        if i < j {
            assert(apart(entries[i], entries[j]));
        } else if j < i {
            assert(apart(entries[j], entries[i]));
        }
    }
    assert(distinct_by(entries, f));
    sorting_keeps_distinct(entries, f);
    groups_keep_distinct(lim, sorted, f);
    groups_are_contiguous_and_within_limits(lim, sorted);
    assert forall|i: int, j: int| 0 <= i < gs.len() && 0 <= j < gs[i].len() implies entries.contains(
        #[trigger] gs[i][j],
    ) by {
        groups_hold_list_items(lim, sorted, i, j);
        let k = choose|k: int| 0 <= k < sorted.len() && sorted[k] == gs[i][j];
        sorted_items_are_list_items(entries, k);
    }
    assert forall|i: int, j: int, k: int, l: int|
        0 <= i < gs.len() && 0 <= j < gs[i].len() && 0 <= k < gs.len() && 0 <= l < gs[k].len() && !(
        i == k && j == l) implies apart(#[trigger] gs[i][j], #[trigger] gs[k][l]) by {
        let a = choose|a: int| 0 <= a < entries.len() && entries[a] == gs[i][j];
        let b = choose|b: int| 0 <= b < entries.len() && entries[b] == gs[k][l];
        assert(entries.contains(gs[i][j]) && entries.contains(gs[k][l]));
        assert(f(gs[i][j]) != f(gs[k][l]));
        if a < b {
            assert(apart(entries[a], entries[b]));
        } else {
            assert(a != b);
            assert(apart(entries[b], entries[a]));
        }
    }
    assert forall|i: int| 0 <= i < gs.len() implies is_run(#[trigger] gs[i]) by {
        let g = gs[i];
        assert(contiguous(g));
        assert forall|j: int| 0 <= j < g.len() implies is_whole(#[trigger] g[j]) by {
            assert(entries.contains(gs[i][j]));
        }
        assert forall|j: int, l: int| 0 <= j < l < g.len() implies apart(
            #[trigger] g[j],
            #[trigger] g[l],
        ) by {
            assert(apart(gs[i][j], gs[i][l]));
        }
    }
}

/// Bytes that no entry covers are covered by no batch; those of an entry are
/// covered by the batch of its group only.
proof fn lemma_covered(
    config: PlannerConfig,
    entries: Seq<WriteEntry>,
    i: int,
    device: McDeviceType,
    x: int,
)
    requires
        can_be_written(entries),
        0 <= i < write_groups(config, entries).len(),
        batch_covers(write_plan(config, entries)[i], device, x),
    ensures
        exists|j: int|
            0 <= j < write_groups(config, entries)[i].len() && #[trigger] covers(
                write_groups(config, entries)[i][j],
                device,
                x,
            ),
{
    lemma_groups(config, entries);
    let g = write_groups(config, entries)[i];
    assert(is_run(g));
    lemma_batch(g);
    assert(batch_covers(write_batch_of(g), device, x));
}

/// Memory that no entry covers keeps its value.
pub proof fn other_memory_is_kept(
    config: PlannerConfig,
    entries: Seq<WriteEntry>,
    mem: spec_fn(McDeviceType, int) -> u8,
    device: McDeviceType,
    x: int,
)
    requires
        can_be_written(entries),
        forall|i: int| 0 <= i < entries.len() ==> !covers(#[trigger] entries[i], device, x),
    ensures
        after_writes(mem, write_plan(config, entries))(device, x) == mem(device, x),
{
    let bs = write_plan(config, entries);
    let gs = write_groups(config, entries);
    lemma_groups(config, entries);
    assert forall|k: int| -1 < k < bs.len() implies !batch_covers(
        #[trigger] bs[k],
        device,
        x,
    ) by {
        if batch_covers(bs[k], device, x) {
            lemma_covered(config, entries, k, device, x);
            let j = choose|j: int| 0 <= j < gs[k].len() && #[trigger] covers(gs[k][j], device, x);
            assert(entries.contains(gs[k][j]));
            let a = choose|a: int| 0 <= a < entries.len() && entries[a] == gs[k][j];
            assert(!covers(entries[a], device, x));
        }
    }
    lemma_after_writes(mem, bs, device, x, -1);
}

/// An entry stands somewhere in the groups.
proof fn lemma_in_groups(gs: Seq<Seq<WriteEntry>>, e: WriteEntry) -> (r: (int, int))
    requires
        joined(gs).contains(e),
    ensures
        0 <= r.0 < gs.len(),
        0 <= r.1 < gs[r.0].len(),
        gs[r.0][r.1] == e,
    decreases gs.len(),
{
    let d = gs.drop_last();
    let n = joined(d).len();
    let k = choose|k: int| 0 <= k < joined(gs).len() && joined(gs)[k] == e;
    if k < n {
        assert(joined(d)[k] == e);
        let r = lemma_in_groups(d, e);
        assert(d[r.0] == gs[r.0]);
        r
    } else {
        assert(gs.last()[k - n] == e);
        (gs.len() - 1, k - n)
    }
}

/// A byte of an entry is covered by no batch of another group.
proof fn lemma_covered_once(
    config: PlannerConfig,
    entries: Seq<WriteEntry>,
    i: int,
    j: int,
    m: int,
    y: int,
)
    requires
        can_be_written(entries),
        0 <= i < write_groups(config, entries).len(),
        0 <= m < write_groups(config, entries).len(),
        i != m,
        0 <= j < write_groups(config, entries)[i].len(),
        covers(
            write_groups(config, entries)[i][j],
            write_groups(config, entries)[i][j].addr.device,
            y,
        ),
    ensures
        !batch_covers(
            write_plan(config, entries)[m],
            write_groups(config, entries)[i][j].addr.device,
            y,
        ),
{
    let gs = write_groups(config, entries);
    let e = gs[i][j];
    let device = e.addr.device;
    let unit = device.unit_spec() as int;
    if batch_covers(write_plan(config, entries)[m], device, y) {
        lemma_groups(config, entries);
        lemma_covered(config, entries, m, device, y);
        let l = choose|l: int| 0 <= l < gs[m].len() && #[trigger] covers(gs[m][l], device, y);
        let o = gs[m][l];
        assert(apart(gs[i][j], gs[m][l]));
        assert(false) by (nonlinear_arith)
            requires
                e.addr.head * unit <= y < (e.addr.head + e.word_len) * unit,
                o.addr.head * unit <= y < (o.addr.head + o.word_len) * unit,
                e.addr.head + e.word_len <= o.addr.head || o.addr.head + o.word_len
                    <= e.addr.head,
                unit > 0,
        ;
    }
}

/// What is written is held: after the batch writes of a plan the memory at the
/// address of each entry is the data of the entry.
pub proof fn written_data_is_held(
    config: PlannerConfig,
    entries: Seq<WriteEntry>,
    mem: spec_fn(McDeviceType, int) -> u8,
    k: int,
)
    requires
        can_be_written(entries),
        0 <= k < entries.len(),
    ensures
        ({
            let e = entries[k];
            block(
                after_writes(mem, write_plan(config, entries)),
                e.addr.device,
                e.addr.head as int,
                e.word_len as int,
            ) == bytes_content(e.data)
        }),
{
    broadcast use vstd::seq_lib::group_to_multiset_ensures;

    let e = entries[k];
    let bs = write_plan(config, entries);
    let gs = write_groups(config, entries);
    let sorted = stable_sort(entries);
    let after = after_writes(mem, bs);
    let unit = e.addr.device.unit_spec() as int;
    lemma_groups(config, entries);
    stable_sort_sorts(entries);
    assert(entries.contains(e));
    assert(entries.to_multiset().count(e) > 0);
    assert(sorted.contains(e));
    groups_keep_all_items(config.limits_spec(), sorted);
    let (i, j) = lemma_in_groups(gs, e);
    let g = gs[i];
    assert(is_run(g));
    lemma_batch(g);
    assert(is_whole(e));
    let held = block(after, e.addr.device, e.addr.head as int, e.word_len as int);
    assert forall|x: int| 0 <= x < held.len() implies #[trigger] held[x] == bytes_content(
        e.data,
    )[x] by {
        let y = e.addr.head * unit + x;
        assert((e.addr.head + e.word_len) * unit == e.addr.head * unit + e.word_len * unit)
            by (nonlinear_arith);
        assert(covers(g[j], e.addr.device, y));
        assert(bs[i] == write_batch_of(g));
        assert(batch_covers(bs[i], e.addr.device, y));
        assert forall|m: int| i < m < bs.len() implies !batch_covers(
            #[trigger] bs[m],
            e.addr.device,
            y,
        ) by {
            lemma_covered_once(config, entries, i, j, m, y);
        }
        lemma_after_writes(mem, bs, e.addr.device, y, i);
    }
    assert(held =~= bytes_content(e.data));
}

/// What is written is read back: after the batch writes of a plan, a batch
/// read that is answered from memory returns for the address of an entry the
/// data of the entry.
pub proof fn written_data_is_read_back(
    config: PlannerConfig,
    entries: Seq<WriteEntry>,
    mem: spec_fn(McDeviceType, int) -> u8,
    k: int,
    specs: Seq<PointReadSpec>,
    rs: Seq<BatchResult>,
    count: nat,
    i: int,
    j: int,
)
    requires
        can_be_written(entries),
        0 <= k < entries.len(),
        distinct_by(specs, |s: PointReadSpec| s.index as int),
        rs.len() == read_plan(config, specs).len(),
        forall|n: int|
            0 <= n < rs.len() ==> (#[trigger] rs[n]) == (BatchResult {
                end_code: 0,
                payload: Some(
                    block(
                        after_writes(mem, write_plan(config, entries)),
                        read_plan(config, specs)[n].device,
                        read_plan(config, specs)[n].head as int,
                        read_plan(config, specs)[n].points as int,
                    ),
                ),
            }),
        ({
            let gs = groups(config.limits_spec(), stable_sort(specs));
            &&& 0 <= i < gs.len()
            &&& 0 <= j < gs[i].len()
            &&& gs[i][j].index < count
            &&& gs[i][j].addr.device == entries[k].addr.device
            &&& gs[i][j].addr.head == entries[k].addr.head
            &&& gs[i][j].word_len == entries[k].word_len
        }),
    ensures
        ({
            let s = groups(config.limits_spec(), stable_sort(specs))[i][j];
            let bs = read_plan(config, specs);
            after_batches(blank_items(count), bs, rs, bs.len() as int)[s.index as int] == (
            ReadItem {
                index: s.index,
                end_code: 0,
                payload: Some(bytes_content(entries[k].data)),
            })
        }),
{
    let after = after_writes(mem, write_plan(config, entries));
    written_data_is_held(config, entries, mem, k);
    batch_reads_return_what_the_devices_hold(config, specs, after, rs, count, i, j);
}

} // verus!
