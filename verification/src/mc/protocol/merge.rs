//! From batch payloads back to per-item read results.

use super::planner::{BatchEntry, ReadBatch, ReadBatchSpec};
use crate::wire::{bytes_as_slice, bytes_content, bytes_slice};
use bytes::Bytes;
use vstd::prelude::*;

verus! {

/// Raw read result of one item: its completion code and, on success, its
/// slice of a batch payload.
#[derive(Debug, Clone)]
pub struct McReadItemRaw {
    /// Index into the request list.
    pub index: usize,
    /// MC completion code for this item (0 means success).
    pub end_code: u16,
    /// Raw payload slice for this item when `end_code == 0`.
    pub payload: Option<Bytes>,
}

/// Result of one batch.
#[derive(Debug, Clone)]
pub struct ReadBatchResult {
    /// MC completion code for this batch (0 means success).
    pub end_code: u16,
    /// Raw payload of this batch when `end_code == 0`.
    pub payload: Option<Bytes>,
}

/// A read item as mathematical data.
pub struct ReadItem {
    pub index: usize,
    pub end_code: u16,
    pub payload: Option<Seq<u8>>,
}

/// A batch result as mathematical data.
pub struct BatchResult {
    pub end_code: u16,
    pub payload: Option<Seq<u8>>,
}

/// The bytes of an optional buffer.
pub open spec fn opt_content(b: Option<Bytes>) -> Option<Seq<u8>> {
    match b {
        Some(x) => Some(bytes_content(x)),
        None => None,
    }
}

impl View for McReadItemRaw {
    type V = ReadItem;

    open spec fn view(&self) -> ReadItem {
        ReadItem {
            index: self.index,
            end_code: self.end_code,
            payload: opt_content(self.payload),
        }
    }
}

impl View for ReadBatchResult {
    type V = BatchResult;

    open spec fn view(&self) -> BatchResult {
        BatchResult { end_code: self.end_code, payload: opt_content(self.payload) }
    }
}

/// A list of read items as mathematical data.
pub open spec fn items_view(v: Seq<McReadItemRaw>) -> Seq<ReadItem> {
    v.map_values(|i: McReadItemRaw| i@)
}

/// `n` items without a value, numbered from 0.
pub open spec fn blank_items(n: nat) -> Seq<ReadItem> {
    Seq::new(n, |i: int| ReadItem { index: i as usize, end_code: 0, payload: None })
}

/// What a batch result says of one entry: its completion code and slice.
/// `None` where it says nothing: no payload, a payload too short for the
/// points of the batch, or a slice that ends behind the payload.
pub open spec fn entry_update(b: ReadBatch, res: BatchResult, e: BatchEntry) -> Option<
    (u16, Option<Seq<u8>>),
> {
    let unit = b.device.unit_spec();
    let from = e.offset_words * unit;
    let to = from + e.len_words * unit;
    if res.end_code != 0 {
        Some((res.end_code, None))
    } else {
        match res.payload {
            None => None,
            Some(p) => if p.len() < b.points * unit || to > p.len() {
                None
            } else {
                Some((0, Some(p.subrange(from, to))))
            },
        }
    }
}

/// The items after an update of item `i`.
pub open spec fn updated(
    items: Seq<ReadItem>,
    i: int,
    u: Option<(u16, Option<Seq<u8>>)>,
) -> Seq<ReadItem> {
    match u {
        Some((code, p)) => if 0 <= i < items.len() {
            items.update(i, ReadItem { index: items[i].index, end_code: code, payload: p })
        } else {
            items
        },
        None => items,
    }
}

/// The items after the first `n` entries of a batch.
pub open spec fn after_entries(items: Seq<ReadItem>, b: ReadBatch, res: BatchResult, n: int) -> Seq<
    ReadItem,
>
    decreases n,
{
    if n <= 0 {
        items
    } else {
        updated(
            after_entries(items, b, res, n - 1),
            b.entries[n - 1].index as int,
            entry_update(b, res, b.entries[n - 1]),
        )
    }
}

/// The items after the first `n` batches with their results.
pub open spec fn after_batches(
    items: Seq<ReadItem>,
    bs: Seq<ReadBatch>,
    rs: Seq<BatchResult>,
    n: int,
) -> Seq<ReadItem>
    decreases n,
{
    if n <= 0 {
        items
    } else {
        after_entries(
            after_batches(items, bs, rs, n - 1),
            bs[n - 1],
            rs[n - 1],
            bs[n - 1].entries.len() as int,
        )
    }
}

/// `n` is one more than the greatest index that an entry has, and 1 where
/// there is no entry.
pub open spec fn is_item_count(bs: Seq<ReadBatch>, n: nat) -> bool {
    &&& n >= 1
    &&& forall|i: int, j: int|
        0 <= i < bs.len() && 0 <= j < bs[i].entries.len() ==> (
        #[trigger] bs[i].entries[j]).index < n
    &&& n == 1 || exists|i: int, j: int|
        0 <= i < bs.len() && 0 <= j < bs[i].entries.len() && (#[trigger] bs[i].entries[j]).index
            == n - 1
}

/// No entry has the greatest machine index, behind which no item fits.
pub open spec fn indices_fit(bs: Seq<ReadBatch>) -> bool {
    forall|i: int, j: int|
        0 <= i < bs.len() && 0 <= j < bs[i].entries.len() ==> (
        #[trigger] bs[i].entries[j]).index < usize::MAX
}

/// The read batches of a slice as mathematical data.
pub open spec fn batches_of(batches: Seq<ReadBatchSpec>) -> Seq<ReadBatch> {
    batches.map_values(|b: ReadBatchSpec| b@)
}

/// The batch results of a slice as mathematical data.
pub open spec fn results_of(results: Seq<ReadBatchResult>) -> Seq<BatchResult> {
    results.map_values(|r: ReadBatchResult| r@)
}

fn item_count(batches: &[ReadBatchSpec]) -> (n: usize)
    requires
        indices_fit(batches_of(batches@)),
    ensures
        is_item_count(batches_of(batches@), n as nat),
{
    let ghost bs = batches_of(batches@);
    let mut n: usize = 1;
    for i in 0..batches.len()
        invariant
            bs == batches_of(batches@),
            indices_fit(bs),
            is_item_count(bs.take(i as int), n as nat),
    {
        let ghost before = bs.take(i as int);
        let ghost n0 = n;
        let entries = &batches[i].entries;
        for j in 0..entries.len()
            invariant
                entries@ == bs[i as int].entries,
                i < bs.len(),
                indices_fit(bs),
                n >= n0,
                n0 >= 1,
                forall|k: int| 0 <= k < j ==> (#[trigger] entries@[k]).index < n,
                n == n0 || exists|k: int| 0 <= k < j && (#[trigger] entries@[k]).index == n - 1,
        {
            assert(bs[i as int].entries[j as int] == entries@[j as int]);
            if entries[j].index >= n {
                n = entries[j].index + 1;
                assert(entries@[j as int].index == n - 1);
            }
        }
        proof {
            let after = bs.take(i + 1);
            assert forall|a: int, k: int|
                0 <= a < after.len() && 0 <= k < after[a].entries.len() implies (
            #[trigger] after[a].entries[k]).index < n by {
                if a < i {
                    assert(before[a].entries[k] == after[a].entries[k]);
                } else {
                    assert(after[a].entries[k] == entries@[k]);
                }
            }
            if n == n0 {
                if n != 1 {
                    let (a, k) = choose|a: int, k: int|
                        0 <= a < before.len() && 0 <= k < before[a].entries.len() && (
                        #[trigger] before[a].entries[k]).index == n - 1;
                    assert(after[a].entries[k].index == n - 1);
                }
            } else {
                let k = choose|k: int|
                    0 <= k < entries@.len() && (#[trigger] entries@[k]).index == n - 1;
                assert(after[i as int].entries[k].index == n - 1);
            }
        }
    }
    assert(bs.take(bs.len() as int) =~= bs);
    n
}

pub(crate) fn blank(n: usize) -> (r: Vec<McReadItemRaw>)
    ensures
        items_view(r@) == blank_items(n as nat),
        r@.len() == n,
{
    let mut out: Vec<McReadItemRaw> = Vec::with_capacity(n);
    for i in 0..n
        invariant
            out@.len() == i,
            forall|j: int| 0 <= j < i ==> (#[trigger] out@[j])@ == blank_items(n as nat)[j],
    {
        out.push(McReadItemRaw { index: i, end_code: 0, payload: None });
    }
    assert(items_view(out@) =~= blank_items(n as nat));
    out
}

pub(crate) fn set_item(items: &mut Vec<McReadItemRaw>, i: usize, end_code: u16, payload: Option<Bytes>)
    requires
        i < old(items)@.len(),
    ensures
        items_view(final(items)@) == updated(
            items_view(old(items)@),
            i as int,
            Some((end_code, opt_content(payload))),
        ),
        final(items)@.len() == old(items)@.len(),
{
    let index: usize = items[i].index;
    items.set(i, McReadItemRaw { index, end_code, payload });
    assert(items_view(items@) =~= updated(
        items_view(old(items)@),
        i as int,
        Some((end_code, opt_content(payload))),
    ));
}

fn merge_batch(items: &mut Vec<McReadItemRaw>, batch: &ReadBatchSpec, res: &ReadBatchResult)
    requires
        forall|j: int|
            0 <= j < batch.entries@.len() ==> (#[trigger] batch.entries@[j]).index < old(
                items,
            )@.len(),
    ensures
        items_view(final(items)@) == after_entries(
            items_view(old(items)@),
            batch@,
            res@,
            batch@.entries.len() as int,
        ),
        final(items)@.len() == old(items)@.len(),
{
    let unit: usize = batch.device.unit_size();
    let ghost before = items_view(items@);
    let mut usable: bool = res.end_code != 0;
    if let Some(p) = &res.payload {
        usable = usable || bytes_as_slice(p).len() >= batch.points as usize * unit;
    }
    for j in 0..batch.entries.len()
        invariant
            unit == batch.device.unit_spec(),
            items@.len() == old(items)@.len(),
            forall|k: int|
                0 <= k < batch.entries@.len() ==> (#[trigger] batch.entries@[k]).index
                    < items@.len(),
            usable == (res.end_code != 0 || (res.payload is Some && bytes_content(
                res.payload->0,
            ).len() >= batch.points * unit)),
            items_view(items@) == after_entries(before, batch@, res@, j as int),
    {
        let e = batch.entries[j];
        assert(e.index < items@.len());
        if res.end_code != 0 {
            set_item(items, e.index, res.end_code, None);
        } else if usable {
            if let Some(p) = &res.payload {
                assert(e.offset_words * unit + e.len_words * unit <= 0xFFFF * 8) by (
                    nonlinear_arith)
                    requires
                        unit <= 4,
                ;
                let from: usize = e.offset_words as usize * unit;
                let to: usize = from + e.len_words as usize * unit;
                if to <= bytes_as_slice(p).len() {
                    set_item(items, e.index, 0, Some(bytes_slice(p, from, to)));
                }
            }
        }
    }
}

/// Merge raw read results from batch payloads into per-item outputs.
///
/// There is one output per index up to the greatest. An item of a batch with
/// a non-zero completion code gets that code and no payload; an item of a
/// successful batch gets its slice of the batch payload.
pub fn merge_read_raw(batches: &[ReadBatchSpec], batch_results: &[ReadBatchResult]) -> (r: Vec<
    McReadItemRaw,
>)
    requires
        indices_fit(batches_of(batches@)),
    ensures
        is_item_count(batches_of(batches@), r@.len()),
        items_view(r@) == after_batches(
            blank_items(r@.len()),
            batches_of(batches@),
            results_of(batch_results@),
            if batches@.len() <= batch_results@.len() {
                batches@.len() as int
            } else {
                batch_results@.len() as int
            },
        ),
{
    let ghost bs = batches_of(batches@);
    let ghost rs = results_of(batch_results@);
    let total: usize = item_count(batches);
    let mut items: Vec<McReadItemRaw> = blank(total);
    let n: usize = if batches.len() <= batch_results.len() {
        batches.len()
    } else {
        batch_results.len()
    };
    for i in 0..n
        invariant
            bs == batches_of(batches@),
            rs == results_of(batch_results@),
            n <= batches@.len(),
            n <= batch_results@.len(),
            is_item_count(bs, total as nat),
            items@.len() == total,
            items_view(items@) == after_batches(blank_items(total as nat), bs, rs, i as int),
    {
        assert forall|j: int| 0 <= j < batches@[i as int].entries@.len() implies (
        #[trigger] batches@[i as int].entries@[j]).index < items@.len() by {
            assert(bs[i as int].entries[j].index < total);
        }
        merge_batch(&mut items, &batches[i], &batch_results[i]);
    }
    items
}

proof fn lemma_entries_frame(
    items: Seq<ReadItem>,
    b: ReadBatch,
    res: BatchResult,
    n: int,
    k: int,
)
    requires
        0 <= n <= b.entries.len(),
        0 <= k < items.len(),
        forall|j: int| 0 <= j < n ==> (#[trigger] b.entries[j]).index != k,
    ensures
        after_entries(items, b, res, n).len() == items.len(),
        after_entries(items, b, res, n)[k] == items[k],
    decreases n,
{
    if n > 0 {
        lemma_entries_frame(items, b, res, n - 1, k);
        assert(b.entries[n - 1].index != k);
    }
}

proof fn lemma_entries_len(items: Seq<ReadItem>, b: ReadBatch, res: BatchResult, n: int)
    ensures
        after_entries(items, b, res, n).len() == items.len(),
    decreases n,
{
    if n > 0 {
        lemma_entries_len(items, b, res, n - 1);
    }
}

proof fn lemma_entry_set(
    items: Seq<ReadItem>,
    b: ReadBatch,
    res: BatchResult,
    n: int,
    j: int,
)
    requires
        0 <= j < n <= b.entries.len(),
        b.entries[j].index < items.len(),
        forall|i: int|
            0 <= i < n && i != j ==> (#[trigger] b.entries[i]).index != b.entries[j].index,
    ensures
        after_entries(items, b, res, n)[b.entries[j].index as int] == updated(
            items,
            b.entries[j].index as int,
            entry_update(b, res, b.entries[j]),
        )[b.entries[j].index as int],
    decreases n,
{
    let k = b.entries[j].index as int;
    lemma_entries_len(items, b, res, n - 1);
    if n - 1 == j {
        lemma_entries_frame(items, b, res, n - 1, k);
    } else {
        lemma_entry_set(items, b, res, n - 1, j);
        assert(b.entries[n - 1].index != k);
    }
}

proof fn lemma_batches_len(
    items: Seq<ReadItem>,
    bs: Seq<ReadBatch>,
    rs: Seq<BatchResult>,
    n: int,
)
    ensures
        after_batches(items, bs, rs, n).len() == items.len(),
    decreases n,
{
    if n > 0 {
        lemma_batches_len(items, bs, rs, n - 1);
        lemma_entries_len(
            after_batches(items, bs, rs, n - 1),
            bs[n - 1],
            rs[n - 1],
            bs[n - 1].entries.len() as int,
        );
    }
}

proof fn lemma_batches_frame(
    items: Seq<ReadItem>,
    bs: Seq<ReadBatch>,
    rs: Seq<BatchResult>,
    n: int,
    k: int,
)
    requires
        0 <= n <= bs.len(),
        0 <= k < items.len(),
        forall|i: int, j: int|
            0 <= i < n && 0 <= j < bs[i].entries.len() ==> (#[trigger] bs[i].entries[j]).index
                != k,
    ensures
        after_batches(items, bs, rs, n)[k] == items[k],
    decreases n,
{
    if n > 0 {
        lemma_batches_len(items, bs, rs, n - 1);
        lemma_batches_frame(items, bs, rs, n - 1, k);
        assert forall|j: int| 0 <= j < bs[n - 1].entries.len() implies (
        #[trigger] bs[n - 1].entries[j]).index != k by {
            assert(bs[n - 1].entries[j].index != k);
        }
        lemma_entries_frame(
            after_batches(items, bs, rs, n - 1),
            bs[n - 1],
            rs[n - 1],
            bs[n - 1].entries.len() as int,
            k,
        );
    }
}

/// No two entries of the batches have the same index.
pub open spec fn distinct_indices(bs: Seq<ReadBatch>) -> bool {
    forall|i: int, j: int, k: int, l: int|
        0 <= i < bs.len() && 0 <= j < bs[i].entries.len() && 0 <= k < bs.len() && 0 <= l
            < bs[k].entries.len() && (#[trigger] bs[i].entries[j]).index == (
        #[trigger] bs[k].entries[l]).index ==> i == k && j == l
}

/// Where no two entries share an index, each entry's item holds exactly what
/// the result of its batch says of it, and stays without a value where that
/// result says nothing.
pub proof fn each_item_gets_its_own_slice(
    bs: Seq<ReadBatch>,
    rs: Seq<BatchResult>,
    count: nat,
    m: int,
    i: int,
    j: int,
)
    requires
        distinct_indices(bs),
        0 <= i < m <= bs.len(),
        0 <= j < bs[i].entries.len(),
        bs[i].entries[j].index < count,
    ensures
        ({
            let e = bs[i].entries[j];
            let item = after_batches(blank_items(count), bs, rs, m)[e.index as int];
            match entry_update(bs[i], rs[i], e) {
                Some((code, p)) => item == (ReadItem { index: e.index, end_code: code, payload: p }),
                None => item == (ReadItem { index: e.index, end_code: 0, payload: None }),
            }
        }),
    decreases m,
{
    let e = bs[i].entries[j];
    let k = e.index as int;
    let start = blank_items(count);
    lemma_batches_len(start, bs, rs, m - 1);
    let before = after_batches(start, bs, rs, m - 1);
    if m - 1 == i {
        assert forall|a: int, l: int|
            0 <= a < m - 1 && 0 <= l < bs[a].entries.len() implies (
        #[trigger] bs[a].entries[l]).index != k by {
            if bs[a].entries[l].index == bs[i].entries[j].index {
            }
        }
        lemma_batches_frame(start, bs, rs, m - 1, k);
        assert forall|l: int| 0 <= l < bs[i].entries.len() && l != j implies (
        #[trigger] bs[i].entries[l]).index != bs[i].entries[j].index by {
        }
        lemma_entry_set(before, bs[i], rs[i], bs[i].entries.len() as int, j);
    } else {
        each_item_gets_its_own_slice(bs, rs, count, m - 1, i, j);
        assert forall|l: int| 0 <= l < bs[m - 1].entries.len() implies (
        #[trigger] bs[m - 1].entries[l]).index != k by {
            if bs[m - 1].entries[l].index == bs[i].entries[j].index {
            }
        }
        lemma_entries_frame(before, bs[m - 1], rs[m - 1], bs[m - 1].entries.len() as int, k);
    }
}

} // verus!
