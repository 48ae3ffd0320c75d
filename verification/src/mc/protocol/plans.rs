//! The write plan and the read plan of the same addresses.

use super::grouping::{
    contiguous, groups, groups_are_contiguous_and_within_limits, groups_hold_list_items,
    groups_keep_all_items, joined, joins, total_len, Limits, PlanItem,
};
use super::order::{insert_sorted, sorted_items_are_list_items, stable_sort, SortKey};
use super::planner::{
    all_data, packed, payload_is_the_data_end_to_end, read_batch_of, read_plan, write_batch_of,
    write_groups, write_plan, write_plan_fits, PlannerConfig, PointReadSpec, WriteBatch, WriteEntry,
};
use crate::wire::bytes_content;
use vstd::prelude::*;

verus! {

/// The spec reads the run of points that the entry writes.
pub open spec fn reads_what_is_written(s: PointReadSpec, e: WriteEntry) -> bool {
    s.addr == e.addr && s.word_len == e.word_len && s.device_code == e.device_code
}

/// The specs read the runs of points that the entries write, one for one.
pub open spec fn read_what_is_written(specs: Seq<PointReadSpec>, entries: Seq<WriteEntry>) -> bool {
    &&& specs.len() == entries.len()
    &&& forall|i: int|
        0 <= i < specs.len() ==> reads_what_is_written(#[trigger] specs[i], entries[i])
}

/// The entry brings the bytes that its points call for.
pub open spec fn brings_its_bytes(e: WriteEntry) -> bool {
    bytes_content(e.data).len() == e.word_len * e.addr.device.unit_spec()
}

/// The payloads of batches, end to end.
pub open spec fn plan_data(bs: Seq<WriteBatch>) -> Seq<u8>
    decreases bs.len(),
{
    if bs.len() == 0 {
        Seq::empty()
    } else {
        plan_data(bs.drop_last()) + bs.last().data
    }
}

proof fn lemma_insert_alike(
    s: Seq<PointReadSpec>,
    t: Seq<WriteEntry>,
    x: PointReadSpec,
    y: WriteEntry,
)
    requires
        read_what_is_written(s, t),
        reads_what_is_written(x, y),
    ensures
        read_what_is_written(insert_sorted(s, x), insert_sorted(t, y)),
    decreases s.len(),
{
    if s.len() > 0 {
        assert(reads_what_is_written(s[s.len() - 1], t[t.len() - 1]));
        if s.last().key_spec() > x.key_spec() {
            let a = s.drop_last();
            let b = t.drop_last();
            assert forall|i: int| 0 <= i < a.len() implies reads_what_is_written(
                #[trigger] a[i],
                b[i],
            ) by {
                assert(a[i] == s[i] && b[i] == t[i]);
            }
            lemma_insert_alike(a, b, x, y);
        }
    }
}

proof fn lemma_sort_alike(s: Seq<PointReadSpec>, t: Seq<WriteEntry>)
    requires
        read_what_is_written(s, t),
    ensures
        read_what_is_written(stable_sort(s), stable_sort(t)),
    decreases s.len(),
{
    if s.len() > 0 {
        let a = s.drop_last();
        let b = t.drop_last();
        assert forall|i: int| 0 <= i < a.len() implies reads_what_is_written(
            #[trigger] a[i],
            b[i],
        ) by {
            assert(a[i] == s[i] && b[i] == t[i]);
        }
        lemma_sort_alike(a, b);
        assert(reads_what_is_written(s[s.len() - 1], t[t.len() - 1]));
        lemma_insert_alike(stable_sort(a), stable_sort(b), s.last(), t.last());
    }
}

proof fn lemma_total_alike(s: Seq<PointReadSpec>, t: Seq<WriteEntry>)
    requires
        read_what_is_written(s, t),
    ensures
        total_len(s) == total_len(t),
    decreases s.len(),
{
    if s.len() > 0 {
        let a = s.drop_last();
        let b = t.drop_last();
        assert forall|i: int| 0 <= i < a.len() implies reads_what_is_written(
            #[trigger] a[i],
            b[i],
        ) by {
            assert(a[i] == s[i] && b[i] == t[i]);
        }
        lemma_total_alike(a, b);
        assert(reads_what_is_written(s[s.len() - 1], t[t.len() - 1]));
    }
}

/// The groups of two lists that are alike are alike.
spec fn groups_alike(gs: Seq<Seq<PointReadSpec>>, hs: Seq<Seq<WriteEntry>>) -> bool {
    &&& gs.len() == hs.len()
    &&& forall|i: int| 0 <= i < gs.len() ==> read_what_is_written(#[trigger] gs[i], hs[i])
}

proof fn lemma_groups_alike(lim: Limits, s: Seq<PointReadSpec>, t: Seq<WriteEntry>)
    requires
        read_what_is_written(s, t),
    ensures
        groups_alike(groups(lim, s), groups(lim, t)),
    decreases s.len(),
{
    if s.len() > 0 {
        let a = s.drop_last();
        let b = t.drop_last();
        let x = s.last();
        let y = t.last();
        assert forall|i: int| 0 <= i < a.len() implies reads_what_is_written(
            #[trigger] a[i],
            b[i],
        ) by {
            assert(a[i] == s[i] && b[i] == t[i]);
        }
        lemma_groups_alike(lim, a, b);
        assert(reads_what_is_written(s[s.len() - 1], t[t.len() - 1]));
        let gs = groups(lim, a);
        let hs = groups(lim, b);
        if gs.len() > 0 {
            assert(read_what_is_written(gs[gs.len() - 1], hs[hs.len() - 1]));
            lemma_total_alike(gs.last(), hs.last());
            if gs.last().len() > 0 {
                assert(reads_what_is_written(gs.last()[0], hs.last()[0]));
            }
            assert(joins(lim, gs.last(), x) == joins(lim, hs.last(), y));
        }
        if gs.len() > 0 && joins(lim, gs.last(), x) {
            let g = gs.last().push(x);
            let h = hs.last().push(y);
            assert forall|i: int| 0 <= i < g.len() implies reads_what_is_written(
                #[trigger] g[i],
                h[i],
            ) by {
                if i < gs.last().len() {
                    assert(g[i] == gs.last()[i] && h[i] == hs.last()[i]);
                }
            }
            assert(read_what_is_written(g, h));
        } else {
            assert(read_what_is_written(seq![x], seq![y]));
        }
    }
}

proof fn lemma_all_data_append(a: Seq<WriteEntry>, b: Seq<WriteEntry>)
    ensures
        all_data(a + b) == all_data(a) + all_data(b),
    decreases b.len(),
{
    if b.len() == 0 {
        assert(a + b =~= a);
        assert(all_data(a) + all_data(b) =~= all_data(a));
    } else {
        lemma_all_data_append(a, b.drop_last());
        assert((a + b).drop_last() =~= a + b.drop_last());
        assert((a + b).last() == b.last());
        assert(all_data(a + b) =~= all_data(a) + all_data(b));
    }
}

proof fn lemma_plan_data(gs: Seq<Seq<WriteEntry>>, bs: Seq<WriteBatch>)
    requires
        gs.len() == bs.len(),
        forall|i: int| 0 <= i < gs.len() ==> (#[trigger] bs[i]).data == all_data(gs[i]),
    ensures
        plan_data(bs) == all_data(joined(gs)),
    decreases gs.len(),
{
    if gs.len() > 0 {
        let hs = gs.drop_last();
        let cs = bs.drop_last();
        assert forall|i: int| 0 <= i < hs.len() implies (#[trigger] cs[i]).data == all_data(
            hs[i],
        ) by {
            assert(cs[i] == bs[i] && hs[i] == gs[i]);
        }
        lemma_plan_data(hs, cs);
        assert(bs[bs.len() - 1].data == all_data(gs[gs.len() - 1]));
        lemma_all_data_append(joined(hs), gs.last());
    }
}

proof fn lemma_group_packs(config: PlannerConfig, entries: Seq<WriteEntry>, i: int)
    requires
        forall|k: int| 0 <= k < entries.len() ==> brings_its_bytes(#[trigger] entries[k]),
        0 <= i < write_groups(config, entries).len(),
    ensures
        ({
            let g = write_groups(config, entries)[i];
            &&& g.len() > 0
            &&& total_len(g) <= 0xFFFF
            &&& packed(g) == Some(all_data(g))
            &&& all_data(g).len() == total_len(g) * g[0].addr.device.unit_spec()
        }),
{
    let lim = config.limits_spec();
    let sorted = stable_sort(entries);
    let g = write_groups(config, entries)[i];
    groups_are_contiguous_and_within_limits(lim, sorted);
    assert(contiguous(g));
    assert forall|j: int| 0 <= j < g.len() implies (#[trigger] g[j]).addr.device
        == g[0].addr.device && bytes_content(g[j].data).len() == g[j].word_len
        * g[j].addr.device.unit_spec() by {
        assert(g[j].addr_spec().device == g[0].addr_spec().device);
        groups_hold_list_items(lim, sorted, i, j);
        let k = choose|k: int| 0 <= k < sorted.len() && sorted[k] == g[j];
        sorted_items_are_list_items(entries, k);
        let l = choose|l: int| 0 <= l < entries.len() && entries[l] == g[j];
        assert(brings_its_bytes(entries[l]));
    }
    payload_is_the_data_end_to_end(g);
}

/// A write is planned like a read of the same addresses: where every entry
/// brings the bytes that its points call for, the write can be planned, its
/// batches are those that read the same runs of points, each brings the bytes
/// of its points, and the payloads end to end are the data of the entries in
/// the order of device and head.
pub proof fn writes_are_planned_like_reads(
    config: PlannerConfig,
    specs: Seq<PointReadSpec>,
    entries: Seq<WriteEntry>,
)
    requires
        read_what_is_written(specs, entries),
        forall|k: int| 0 <= k < entries.len() ==> brings_its_bytes(#[trigger] entries[k]),
    ensures
        write_plan_fits(config, entries),
        ({
            let rs = read_plan(config, specs);
            let ws = write_plan(config, entries);
            &&& ws.len() == rs.len()
            &&& forall|i: int|
                0 <= i < ws.len() ==> {
                    &&& (#[trigger] ws[i]).device == rs[i].device
                    &&& ws[i].device_code == rs[i].device_code
                    &&& ws[i].head == rs[i].head
                    &&& ws[i].points == rs[i].points
                    &&& ws[i].data.len() == ws[i].points * ws[i].device.unit_spec()
                }
            &&& plan_data(ws) == all_data(stable_sort(entries))
        }),
{
    let lim = config.limits_spec();
    let rs = read_plan(config, specs);
    let ws = write_plan(config, entries);
    let gs = groups(lim, stable_sort(specs));
    let hs = write_groups(config, entries);
    lemma_sort_alike(specs, entries);
    lemma_groups_alike(lim, stable_sort(specs), stable_sort(entries));
    assert forall|i: int| 0 <= i < hs.len() implies packed(#[trigger] hs[i]) is Some by {
        lemma_group_packs(config, entries, i);
    }
    assert forall|i: int| 0 <= i < ws.len() implies {
        &&& (#[trigger] ws[i]).device == rs[i].device
        &&& ws[i].device_code == rs[i].device_code
        &&& ws[i].head == rs[i].head
        &&& ws[i].points == rs[i].points
        &&& ws[i].data.len() == ws[i].points * ws[i].device.unit_spec()
    } by {
        lemma_group_packs(config, entries, i);
        assert(read_what_is_written(gs[i], hs[i]));
        assert(reads_what_is_written(gs[i][0], hs[i][0]));
        lemma_total_alike(gs[i], hs[i]);
        assert(ws[i] == write_batch_of(hs[i]));
        assert(rs[i] == read_batch_of(gs[i]));
    }
    assert forall|i: int| 0 <= i < hs.len() implies (#[trigger] ws[i]).data == all_data(hs[i]) by {
        lemma_group_packs(config, entries, i);
        assert(ws[i] == write_batch_of(hs[i]));
    }
    lemma_plan_data(hs, ws);
    groups_keep_all_items(lim, stable_sort(entries));
}

} // verus!
