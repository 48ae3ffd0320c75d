//! What the batch plans of a session promise: every item is asked for in its
//! place, commands are filled as far as they go, and what comes back is shared
//! out by address.

use super::frame::device::McDeviceType;
use super::grouping::{
    contiguous, groups, groups_are_contiguous_and_within_limits, groups_are_maximal,
    groups_hold_list_items, groups_keep_all_items, joined, lemma_total_push, lemma_total_take,
    total_len, Limits, PlanItem,
};
use super::merge::{entry_update, BatchResult};
use super::order::{
    is_sorted, sorted_items_are_list_items, stable_sort, stable_sort_sorts, SortKey,
};
use super::planner::{
    all_data, packed, payload_is_the_data_end_to_end, read_plan, write_batch_of, write_groups,
    write_plan, BatchEntry, PlannerConfig, PointReadSpec, ReadBatch, WriteBatch, WriteEntry,
};
use super::random::{
    filled, random_commands_cover_all_items, random_read_windows, random_write_windows, windows,
    RandomWeight,
};
use super::types::McSeries;
use crate::wire::bytes_content;
use vstd::prelude::*;

verus! {

/// The points of a group are those of its items together.
pub proof fn points_of_a_group_add_up<T: PlanItem>(g: Seq<T>, x: T)
    ensures
        total_len(Seq::<T>::empty()) == 0,
        total_len(seq![x]) == x.len_spec(),
        total_len(g.push(x)) == total_len(g) + x.len_spec(),
{
    lemma_total_push(g, x);
    lemma_total_push(Seq::<T>::empty(), x);
    assert(Seq::<T>::empty().push(x) =~= seq![x]);
}

/// A group ends only where it has to: the item behind it is of another device
/// or code, does not start where the group ends, or would take the group over
/// the limit of points or of bytes.
pub proof fn groups_go_on_as_far_as_they_can<T: PlanItem>(lim: Limits, s: Seq<T>, i: int)
    requires
        0 < i < groups(lim, s).len(),
    ensures
        ({
            let g = groups(lim, s)[i - 1];
            let x = groups(lim, s)[i][0];
            let points = total_len(g) + x.len_spec();
            ||| g[0].addr_spec().device != x.addr_spec().device
            ||| g[0].code_spec() != x.code_spec()
            ||| x.addr_spec().head != g[0].addr_spec().head + total_len(g)
            ||| points > lim.max_points
            ||| points * x.addr_spec().device.unit_spec() > lim.max_bytes
        }),
{
    groups_are_maximal(lim, s);
    groups_are_contiguous_and_within_limits(lim, s);
    assert(contiguous(groups(lim, s)[i - 1]));
}

/// The limits of a plan are those that it was made with.
pub proof fn plans_take_the_limits_of_their_settings(config: PlannerConfig)
    ensures
        config.limits_spec().max_points == config.max_points_per_batch,
        config.limits_spec().max_bytes == config.max_bytes_per_frame,
{
}

/// An item of the list stands somewhere in the groups.
pub proof fn lemma_in_groups<T>(gs: Seq<Seq<T>>, e: T) -> (r: (int, int))
    requires
        joined(gs).contains(e),
    ensures
        0 <= r.0 < gs.len(),
        0 <= r.1 < gs[r.0].len(),
        gs[r.0][r.1] == e,
    decreases gs.len(),
{
    let d = gs.drop_last();
    let n = joined(d).len();
    let k = choose|k: int| 0 <= k < joined(gs).len() && joined(gs)[k] == e;
    if k < n {
        assert(joined(d)[k] == e);
        let r = lemma_in_groups(d, e);
        assert(d[r.0] == gs[r.0]);
        r
    } else {
        assert(gs.last()[k - n] == e);
        (gs.len() - 1, k - n)
    }
}

/// Entry `j` of batch `i` reads the point: the batch is of the device and the
/// code of the point, the entry starts at the head of the point and has its
/// length, and the batch asks for all of it.
pub open spec fn reads_at(bs: Seq<ReadBatch>, i: int, j: int, s: PointReadSpec) -> bool {
    let b = bs[i];
    let e = b.entries[j];
    &&& 0 <= i < bs.len()
    &&& 0 <= j < b.entries.len()
    &&& b.device == s.addr.device
    &&& b.device_code == s.device_code
    &&& b.head + e.offset_words == s.addr.head
    &&& e.index == s.index
    &&& e.len_words == s.word_len
    &&& e.offset_words + e.len_words <= b.points
}

/// Every point of a list is read by some batch of its plan, in its place.
pub proof fn every_point_is_read_in_its_place(
    config: PlannerConfig,
    specs: Seq<PointReadSpec>,
    k: int,
)
    requires
        0 <= k < specs.len(),
    ensures
        exists|i: int, j: int| #[trigger] reads_at(read_plan(config, specs), i, j, specs[k]),
{
    broadcast use vstd::seq_lib::group_to_multiset_ensures;

    let lim = config.limits_spec();
    let sorted = stable_sort(specs);
    stable_sort_sorts(specs);
    assert(specs.to_multiset().count(specs[k]) > 0);
    assert(sorted.contains(specs[k]));
    groups_keep_all_items(lim, sorted);
    groups_are_contiguous_and_within_limits(lim, sorted);
    let gs = groups(lim, sorted);
    let (i, j) = lemma_in_groups(gs, specs[k]);
    let g = gs[i];
    assert(contiguous(g));
    lemma_total_take(g, j);
    assert(g[j].addr_spec().device == g[0].addr_spec().device);
    assert(reads_at(read_plan(config, specs), i, j, specs[k]));
}

/// The entries of a batch lie end to end from its head on, the batch asks for
/// no more than they take together, and a batch of more than one entry keeps
/// within the limits of the settings.
pub proof fn entries_of_a_batch_lie_end_to_end(
    config: PlannerConfig,
    specs: Seq<PointReadSpec>,
    i: int,
)
    requires
        0 <= i < read_plan(config, specs).len(),
    ensures
        ({
            let b = read_plan(config, specs)[i];
            let n = b.entries.len() as int;
            &&& n > 0
            &&& b.entries[0].offset_words == 0
            &&& forall|j: int|
                0 <= j < n - 1 ==> (#[trigger] b.entries[j]).offset_words + b.entries[j].len_words
                    == b.entries[j + 1].offset_words
            &&& b.points == b.entries[n - 1].offset_words + b.entries[n - 1].len_words
            &&& n > 1 ==> b.points <= config.max_points_per_batch && b.points
                * b.device.unit_spec() <= config.max_bytes_per_frame
        }),
{
    let lim = config.limits_spec();
    let sorted = stable_sort(specs);
    groups_are_contiguous_and_within_limits(lim, sorted);
    let g = groups(lim, sorted)[i];
    let b = read_plan(config, specs)[i];
    assert(contiguous(g));
    assert(g.take(0) =~= Seq::<PointReadSpec>::empty());
    assert forall|j: int| 0 <= j < g.len() implies (#[trigger] b.entries[j]).offset_words
        == total_len(g.take(j)) && total_len(g.take(j + 1)) == total_len(g.take(j))
        + g[j].word_len && total_len(g.take(j + 1)) <= 0xFFFF by {
        lemma_total_take(g, j);
    }
    assert forall|j: int| 0 <= j < g.len() - 1 implies (#[trigger] b.entries[j]).offset_words
        + b.entries[j].len_words == b.entries[j + 1].offset_words by {
        assert(b.entries[j + 1].offset_words == total_len(g.take(j + 1)));
    }
    let n = g.len() as int;
    assert(g.take(n) =~= g);
    assert(b.entries[n - 1].offset_words == total_len(g.take(n - 1)));
}

/// A batch that failed says its code of every entry. One that succeeded gives
/// an entry the bytes of its units, counted from the front of the payload, and
/// says nothing where the payload is missing or ends too early.
pub proof fn results_are_cut_by_offset(b: ReadBatch, res: BatchResult, e: BatchEntry, m: int)
    ensures
        res.end_code != 0 ==> entry_update(b, res, e) == Some((res.end_code, None::<Seq<u8>>)),
        res.end_code == 0 && res.payload is None ==> entry_update(b, res, e) is None,
        res.end_code == 0 ==> (res.payload matches Some(p) ==> {
            let unit = b.device.unit_spec();
            let long_enough = p.len() >= b.points * unit && p.len() >= (e.offset_words
                + e.len_words) * unit;
            &&& !long_enough ==> entry_update(b, res, e) is None
            &&& long_enough ==> (entry_update(b, res, e) matches Some((code, Some(bytes)))
                && code == 0 && bytes.len() == e.len_words * unit && (0 <= m < bytes.len()
                ==> bytes[m] == p[e.offset_words * unit + m]))
        }),
{
    let unit = b.device.unit_spec();
    assert((e.offset_words + e.len_words) * unit == e.offset_words * unit + e.len_words * unit)
        by (nonlinear_arith);
    assert(0 <= e.offset_words * unit) by (nonlinear_arith)
        requires
            unit >= 0,
    ;
    assert(0 <= e.len_words * unit) by (nonlinear_arith)
        requires
            unit >= 0,
    ;
}

/// The data of entry `j` of a group that can be packed stands in the payload
/// behind the data of the entries before it.
proof fn lemma_data_place(g: Seq<WriteEntry>, j: int)
    requires
        0 <= j < g.len(),
    ensures
        all_data(g.take(j)).len() + bytes_content(g[j].data).len() <= all_data(g).len(),
        all_data(g).subrange(
            all_data(g.take(j)).len() as int,
            (all_data(g.take(j)).len() + bytes_content(g[j].data).len()) as int,
        ) == bytes_content(g[j].data),
    decreases g.len(),
{
    let d = g.drop_last();
    if j < d.len() {
        lemma_data_place(d, j);
        assert(d.take(j) =~= g.take(j));
        let a = all_data(g.take(j)).len() as int;
        let z = a + bytes_content(g[j].data).len();
        assert(all_data(g).subrange(a, z) =~= all_data(d).subrange(a, z));
    } else {
        assert(g.take(j) =~= d);
        let a = all_data(d).len() as int;
        let z = a + bytes_content(g[j].data).len();
        assert(all_data(g).subrange(a, z) =~= bytes_content(g[j].data));
    }
}

/// Batch `i` writes the entry: it is of the device and the code of the entry,
/// covers its points, and its payload holds the data of the entry at the
/// distance of the two heads.
pub open spec fn writes_at(bs: Seq<WriteBatch>, i: int, e: WriteEntry) -> bool {
    let b = bs[i];
    let unit = e.addr.device.unit_spec();
    let from = (e.addr.head - b.head) * unit;
    &&& 0 <= i < bs.len()
    &&& b.device == e.addr.device
    &&& b.device_code == e.device_code
    &&& b.head <= e.addr.head
    &&& e.addr.head + e.word_len <= b.head + b.points
    &&& b.data.len() == b.points * unit
    &&& 0 <= from <= from + bytes_content(e.data).len() <= b.data.len()
    &&& b.data.subrange(from, from + bytes_content(e.data).len()) == bytes_content(e.data)
}

/// Where every entry brings the bytes that its points call for, every entry
/// is written by some batch of the plan, in its place.
pub proof fn every_entry_is_written_in_its_place(
    config: PlannerConfig,
    entries: Seq<WriteEntry>,
    k: int,
)
    requires
        0 <= k < entries.len(),
        forall|m: int|
            0 <= m < entries.len() ==> bytes_content((#[trigger] entries[m]).data).len()
                == entries[m].word_len * entries[m].addr.device.unit_spec(),
    ensures
        exists|i: int| #[trigger] writes_at(write_plan(config, entries), i, entries[k]),
{
    broadcast use vstd::seq_lib::group_to_multiset_ensures;

    let lim = config.limits_spec();
    let sorted = stable_sort(entries);
    stable_sort_sorts(entries);
    assert(entries.to_multiset().count(entries[k]) > 0);
    assert(sorted.contains(entries[k]));
    groups_keep_all_items(lim, sorted);
    groups_are_contiguous_and_within_limits(lim, sorted);
    let gs = write_groups(config, entries);
    let (i, j) = lemma_in_groups(gs, entries[k]);
    let g = gs[i];
    let e = entries[k];
    assert(contiguous(g));
    assert forall|m: int| 0 <= m < g.len() implies (#[trigger] g[m]).addr.device
        == g[0].addr.device && bytes_content(g[m].data).len() == g[m].word_len
        * g[m].addr.device.unit_spec() by {
        assert(g[m].addr_spec().device == g[0].addr_spec().device);
        groups_hold_list_items(lim, sorted, i, m);
        let n = choose|n: int| 0 <= n < sorted.len() && sorted[n] == g[m];
        sorted_items_are_list_items(entries, n);
        let l = choose|l: int| 0 <= l < entries.len() && entries[l] == g[m];
        assert(bytes_content(entries[l].data).len() == entries[l].word_len
            * entries[l].addr.device.unit_spec());
    }
    payload_is_the_data_end_to_end(g);
    let before = g.take(j);
    assert forall|m: int| 0 <= m < before.len() implies (#[trigger] before[m]).addr.device
        == before[0].addr.device && bytes_content(before[m].data).len() == before[m].word_len
        * before[m].addr.device.unit_spec() by {
        assert(before[m] == g[m] && before[0] == g[0]);
    }
    payload_is_the_data_end_to_end(before);
    lemma_total_take(g, j);
    lemma_data_place(g, j);
    assert(g[j].addr_spec().head == g[0].addr_spec().head + total_len(before));
    let unit = e.addr.device.unit_spec();
    if j == 0 {
        assert(before =~= Seq::<WriteEntry>::empty());
        assert(total_len(before) == 0);
        assert(0 * unit == 0);
    } else {
        assert(before[0] == g[0]);
    }
    assert(all_data(before).len() == total_len(before) * unit);
    assert(write_plan(config, entries)[i] == write_batch_of(g));
    assert(packed(g) == Some(all_data(g)));
    assert(writes_at(write_plan(config, entries), i, entries[k]));
}

/// An item weighs one in a random read. In a random write a word weighs 12 and
/// a dword 14.
pub proof fn weights_of_random_items(w: int, d: int)
    ensures
        RandomWeight::Read.of(w, d) == w + d,
        RandomWeight::Write.of(w, d) == 12 * w + 14 * d,
{
}

/// Dwords are taken only when no word is left.
proof fn lemma_words_first(
    weight: RandomWeight,
    max: int,
    w_left: int,
    d_left: int,
    w: int,
    d: int,
)
    requires
        0 <= w <= w_left,
        0 <= d <= d_left,
        d > 0 ==> w == w_left,
    ensures
        ({
            let (a, b) = filled(weight, max, w_left, d_left, w, d);
            &&& w <= a <= w_left
            &&& d <= b <= d_left
            &&& b > 0 ==> a == w_left
        }),
    decreases (w_left - w) + (d_left - d),
{
    if max > 0 && weight.of(w, d) >= max {
    } else if w < w_left {
        lemma_words_first(weight, max, w_left, d_left, w + 1, d);
    } else if d < d_left {
        lemma_words_first(weight, max, w_left, d_left, w, d + 1);
    }
}

/// A command takes dwords only where it takes the last words, or none is left.
proof fn lemma_windows_words_first(
    weight: RandomWeight,
    max: int,
    w_total: int,
    d_total: int,
    w_off: int,
    d_off: int,
    i: int,
)
    requires
        0 <= w_off <= w_total <= usize::MAX,
        0 <= d_off <= d_total <= usize::MAX,
        0 <= i < windows(weight, max, w_total, d_total, w_off, d_off).len(),
    ensures
        ({
            let x = windows(weight, max, w_total, d_total, w_off, d_off)[i];
            x.d_len > 0 ==> x.w_off + x.w_len == w_total
        }),
    decreases i,
{
    random_commands_cover_all_items(weight, max, w_total, d_total, w_off, d_off);
    lemma_words_first(weight, max, w_total - w_off, d_total - d_off, 0, 0);
    let (w, d) = filled(weight, max, w_total - w_off, d_total - d_off, 0, 0);
    let rest = windows(weight, max, w_total, d_total, w_off + w, d_off + d);
    if i > 0 {
        lemma_windows_words_first(weight, max, w_total, d_total, w_off + w, d_off + d, i - 1);
        assert(windows(weight, max, w_total, d_total, w_off, d_off)[i] == rest[i - 1]);
    }
}

/// Random reads take at most so many items as the series allows, as many as it
/// allows but in the last command, and words before dwords.
pub proof fn random_reads_are_filled(series: McSeries, words: nat, dwords: nat, i: int)
    requires
        words <= usize::MAX,
        dwords <= usize::MAX,
        0 <= i < random_read_windows(series, words, dwords).len(),
    ensures
        ({
            let ws = random_read_windows(series, words, dwords);
            let x = ws[i];
            let max = series.random_read_words_max();
            &&& ws[0].w_off == 0 && ws[0].d_off == 0
            &&& max > 0 ==> x.w_len + x.d_len <= max
            &&& i + 1 < ws.len() ==> x.w_len + x.d_len == max && ws[i + 1].w_off == x.w_off
                + x.w_len && ws[i + 1].d_off == x.d_off + x.d_len
            &&& i + 1 == ws.len() ==> x.w_off + x.w_len == words && x.d_off + x.d_len == dwords
            &&& x.d_len > 0 ==> x.w_off + x.w_len == words
        }),
{
    let max = series.random_read_words_max() as int;
    random_commands_cover_all_items(RandomWeight::Read, max, words as int, dwords as int, 0, 0);
    lemma_windows_words_first(RandomWeight::Read, max, words as int, dwords as int, 0, 0, i);
}

/// Random writes are filled until their weight reaches what the series allows,
/// with words before dwords.
pub proof fn random_writes_are_filled(series: McSeries, words: nat, dwords: nat, i: int)
    requires
        words <= usize::MAX,
        dwords <= usize::MAX,
        0 <= i < random_write_windows(series, words, dwords).len(),
    ensures
        ({
            let ws = random_write_windows(series, words, dwords);
            let x = ws[i];
            let max = series.random_write_words_max();
            let weight = 12 * x.w_len + 14 * x.d_len;
            &&& ws[0].w_off == 0 && ws[0].d_off == 0
            &&& x.w_len > 0 || x.d_len > 0
            &&& max > 0 ==> weight - (if x.d_len > 0 {
                14int
            } else {
                12
            }) < max
            &&& i + 1 < ws.len() ==> weight >= max && ws[i + 1].w_off == x.w_off + x.w_len && ws[i
                + 1].d_off == x.d_off + x.d_len
            &&& i + 1 == ws.len() ==> x.w_off + x.w_len == words && x.d_off + x.d_len == dwords
            &&& x.d_len > 0 ==> x.w_off + x.w_len == words
        }),
{
    let max = series.random_write_words_max() as int;
    random_commands_cover_all_items(RandomWeight::Write, max, words as int, dwords as int, 0, 0);
    lemma_windows_words_first(RandomWeight::Write, max, words as int, dwords as int, 0, 0, i);
}

/// The order in which devices are planned: that of their declaration, from
/// special relays and registers over inputs, outputs and relays to timers,
/// counters, links, direct access, index and file registers.
pub proof fn order_of_devices()
    ensures
        McDeviceType::SM.rank_spec() == 0,
        McDeviceType::SD.rank_spec() == 1,
        McDeviceType::X.rank_spec() == 2,
        McDeviceType::Y.rank_spec() == 3,
        McDeviceType::M.rank_spec() == 4,
        McDeviceType::L.rank_spec() == 5,
        McDeviceType::F.rank_spec() == 6,
        McDeviceType::V.rank_spec() == 7,
        McDeviceType::B.rank_spec() == 8,
        McDeviceType::D.rank_spec() == 9,
        McDeviceType::W.rank_spec() == 10,
        McDeviceType::TS.rank_spec() == 11,
        McDeviceType::TC.rank_spec() == 12,
        McDeviceType::TN.rank_spec() == 13,
        McDeviceType::LTS.rank_spec() == 14,
        McDeviceType::LTC.rank_spec() == 15,
        McDeviceType::LTN.rank_spec() == 16,
        McDeviceType::STS.rank_spec() == 17,
        McDeviceType::STC.rank_spec() == 18,
        McDeviceType::STN.rank_spec() == 19,
        McDeviceType::LSTS.rank_spec() == 20,
        McDeviceType::LSTC.rank_spec() == 21,
        McDeviceType::LSTN.rank_spec() == 22,
        McDeviceType::CS.rank_spec() == 23,
        McDeviceType::CC.rank_spec() == 24,
        McDeviceType::CN.rank_spec() == 25,
        McDeviceType::LCS.rank_spec() == 26,
        McDeviceType::LCC.rank_spec() == 27,
        McDeviceType::LCN.rank_spec() == 28,
        McDeviceType::SB.rank_spec() == 29,
        McDeviceType::SW.rank_spec() == 30,
        McDeviceType::DX.rank_spec() == 31,
        McDeviceType::DY.rank_spec() == 32,
        McDeviceType::Z.rank_spec() == 33,
        McDeviceType::LZ.rank_spec() == 34,
        McDeviceType::R.rank_spec() == 35,
        McDeviceType::ZR.rank_spec() == 36,
        McDeviceType::RD.rank_spec() == 37,
{
}

/// Batches are planned in the order of devices and, within a device, of heads.
pub proof fn batches_are_planned_in_order(
    config: PlannerConfig,
    specs: Seq<PointReadSpec>,
    i: int,
    j: int,
)
    requires
        0 <= i < j < read_plan(config, specs).len(),
    ensures
        ({
            let a = read_plan(config, specs)[i];
            let b = read_plan(config, specs)[j];
            a.device.rank_spec() < b.device.rank_spec() || (a.device.rank_spec()
                == b.device.rank_spec() && a.head <= b.head)
        }),
{
    let lim = config.limits_spec();
    let sorted = stable_sort(specs);
    let gs = groups(lim, sorted);
    stable_sort_sorts(specs);
    groups_keep_all_items(lim, sorted);
    groups_are_contiguous_and_within_limits(lim, sorted);
    assert(contiguous(gs[i]) && contiguous(gs[j]));
    lemma_group_order(gs, i, j);
    let a = gs[i][0].addr;
    let b = gs[j][0].addr;
    assert(a.order_spec() <= b.order_spec());
}

/// The first items of groups stand in the list in the order of the groups.
proof fn lemma_group_order(gs: Seq<Seq<PointReadSpec>>, i: int, j: int)
    requires
        0 <= i < j < gs.len(),
        gs[i].len() > 0,
        gs[j].len() > 0,
        is_sorted(joined(gs)),
    ensures
        gs[i][0].key_spec() <= gs[j][0].key_spec(),
{
    let a = lemma_place(gs, i);
    let b = lemma_place(gs, j);
    lemma_places_grow(gs, i, j);
    assert(joined(gs)[a].key_spec() <= joined(gs)[b].key_spec());
}

/// Where the first item of a group stands in the list.
proof fn lemma_place(gs: Seq<Seq<PointReadSpec>>, i: int) -> (k: int)
    requires
        0 <= i < gs.len(),
        gs[i].len() > 0,
    ensures
        k == joined(gs.take(i)).len(),
        k < joined(gs).len(),
        joined(gs)[k] == gs[i][0],
    decreases gs.len(),
{
    let d = gs.drop_last();
    if i < d.len() {
        let k = lemma_place(d, i);
        assert(d.take(i) =~= gs.take(i));
        k
    } else {
        assert(gs.take(i) =~= d);
        joined(d).len() as int
    }
}

proof fn lemma_places_grow(gs: Seq<Seq<PointReadSpec>>, i: int, j: int)
    requires
        0 <= i <= j <= gs.len(),
    ensures
        joined(gs.take(i)).len() <= joined(gs.take(j)).len(),
    decreases j,
{
    if i < j {
        lemma_places_grow(gs, i, j - 1);
        assert(gs.take(j).drop_last() =~= gs.take(j - 1));
    }
}

} // verus!
