//! Batch planning: contiguous batch reads and writes, and the way back from
//! batch payloads to items.

use super::frame::{addr::McLogicalAddress, device::McDeviceType};
use super::grouping::{
    contiguous, group_items, groups, lemma_total_len_nonneg, lemma_total_take, nested, total_len,
    Limits, PlanItem,
};
use super::order::{sort_by_key, stable_sort, SortKey};
use crate::wire::{
    buf_content, buf_extend, buf_new, buf_overwrite, buf_resize, bytes_as_slice, bytes_content,
    buf_as_slice, overwritten, resized,
};
use bytes::{Bytes, BytesMut};
use vstd::prelude::*;

pub use super::merge::{merge_read_raw, McReadItemRaw, ReadBatchResult};
pub use super::random::{
    plan_random_read_batches, plan_random_write_batches, RandomReadBatchSpec, RandomReadEntry,
    RandomWriteBatchSpec, RandomWriteEntry,
};

verus! {

/// MC planner limits derived from channel settings.
#[derive(Debug, Clone, Copy, PartialEq, Eq, Structural)]
pub struct PlannerConfig {
    /// Maximum logical points per batch.
    pub max_points_per_batch: u16,
    /// Maximum payload bytes per frame.
    pub max_bytes_per_frame: u16,
}

impl PlannerConfig {
    pub fn new(max_points_per_batch: u16, max_bytes_per_frame: u16) -> (r: Self)
        ensures
            r.max_points_per_batch == max_points_per_batch,
            r.max_bytes_per_frame == max_bytes_per_frame,
    {
        Self { max_points_per_batch, max_bytes_per_frame }
    }

    /// The limits of a word or dword batch.
    pub open spec fn limits_spec(self) -> Limits {
        Limits { max_points: self.max_points_per_batch, max_bytes: self.max_bytes_per_frame }
    }

    fn limits(&self) -> (r: Limits)
        ensures
            r == self.limits_spec(),
    {
        Limits { max_points: self.max_points_per_batch, max_bytes: self.max_bytes_per_frame }
    }
}

/// Logical read specification for a single MC item.
#[derive(Debug, Clone, Copy, PartialEq, Eq, Structural)]
pub struct PointReadSpec {
    /// Caller-supplied index used to keep a stable mapping between input order
    /// and merged read results.
    pub index: usize,
    /// Parsed logical address.
    pub addr: McLogicalAddress,
    /// Number of logical words for this point.
    pub word_len: u16,
    /// Encoded device code used by the MC protocol.
    pub device_code: u16,
}

impl SortKey for PointReadSpec {
    open spec fn key_spec(self) -> int {
        self.addr.order_spec()
    }

    fn sort_key(&self) -> (k: u64) {
        self.addr.order()
    }
}

impl PlanItem for PointReadSpec {
    open spec fn addr_spec(self) -> McLogicalAddress {
        self.addr
    }

    open spec fn code_spec(self) -> u16 {
        self.device_code
    }

    open spec fn len_spec(self) -> u16 {
        self.word_len
    }

    fn item_addr(&self) -> (r: McLogicalAddress) {
        self.addr
    }

    fn item_code(&self) -> (r: u16) {
        self.device_code
    }

    fn item_len(&self) -> (r: u16) {
        self.word_len
    }
}

/// Entry within a read batch describing a point slice in the batch payload.
#[derive(Debug, Clone, Copy, PartialEq, Eq, Structural)]
pub struct BatchEntry {
    /// Index of the spec in the caller-provided list.
    pub index: usize,
    /// Offset measured in logical words from the batch head.
    pub offset_words: u16,
    /// Length in logical words for this point.
    pub len_words: u16,
}

/// One batch read request and the way its payload is shared out.
#[derive(Debug, Clone)]
pub struct ReadBatchSpec {
    /// Device type for this batch.
    pub device: McDeviceType,
    /// Encoded device code used on the wire.
    pub device_code: u16,
    /// Head logical address (device index) of the batch.
    pub head: u32,
    /// Total logical points (words) within this batch.
    pub points: u16,
    /// Entries describing individual points within the batch.
    pub entries: Vec<BatchEntry>,
}

/// A read batch as mathematical data.
pub struct ReadBatch {
    pub device: McDeviceType,
    pub device_code: u16,
    pub head: u32,
    pub points: u16,
    pub entries: Seq<BatchEntry>,
}

impl View for ReadBatchSpec {
    type V = ReadBatch;

    open spec fn view(&self) -> ReadBatch {
        ReadBatch {
            device: self.device,
            device_code: self.device_code,
            head: self.head,
            points: self.points,
            entries: self.entries@,
        }
    }
}

/// The entry of item `i` of a group: it starts where the items before it end.
pub open spec fn entry_of(g: Seq<PointReadSpec>, i: int) -> BatchEntry {
    BatchEntry {
        index: g[i].index,
        offset_words: total_len(g.take(i)) as u16,
        len_words: g[i].word_len,
    }
}

/// The batch that reads a group.
pub open spec fn read_batch_of(g: Seq<PointReadSpec>) -> ReadBatch {
    ReadBatch {
        device: g[0].addr.device,
        device_code: g[0].device_code,
        head: g[0].addr.head,
        points: total_len(g) as u16,
        entries: Seq::new(g.len(), |i: int| entry_of(g, i)),
    }
}

/// The batches that read a list of specs: ordered by device and head, cut
/// into contiguous groups within the limits, one batch per group.
pub open spec fn read_plan(config: PlannerConfig, specs: Seq<PointReadSpec>) -> Seq<ReadBatch> {
    groups(config.limits_spec(), stable_sort(specs)).map_values(
        |g: Seq<PointReadSpec>| read_batch_of(g),
    )
}

/// A list of read batches as mathematical data.
pub open spec fn read_batches_view(v: Seq<ReadBatchSpec>) -> Seq<ReadBatch> {
    v.map_values(|b: ReadBatchSpec| b@)
}

fn read_batch(g: &Vec<PointReadSpec>) -> (r: ReadBatchSpec)
    requires
        g@.len() > 0,
        total_len(g@) <= 0xFFFF,
    ensures
        r@ == read_batch_of(g@),
{
    let mut entries: Vec<BatchEntry> = Vec::with_capacity(g.len());
    let mut points: u16 = 0;
    for i in 0..g.len()
        invariant
            total_len(g@) <= 0xFFFF,
            points == total_len(g@.take(i as int)),
            entries@.len() == i,
            forall|j: int| 0 <= j < i ==> #[trigger] entries@[j] == entry_of(g@, j),
    {
        let s = g[i];
        entries.push(
            BatchEntry { index: s.index, offset_words: points, len_words: s.word_len },
        );
        proof {
            lemma_total_take(g@, i as int);
        }
        points = points + s.word_len;
    }
    proof {
        assert(g@.take(g@.len() as int) =~= g@);
        assert(entries@ =~= read_batch_of(g@).entries);
    }
    ReadBatchSpec {
        device: g[0].addr.device,
        device_code: g[0].device_code,
        head: g[0].addr.head,
        points,
        entries,
    }
}

/// Build read batches from point specs under planner capacity constraints.
///
/// Specs are sorted by (device, head); batches are split when the device
/// changes, addresses are not contiguous, or a limit would be exceeded.
pub fn plan_read_batches(config: &PlannerConfig, specs: Vec<PointReadSpec>) -> (r: Vec<
    ReadBatchSpec,
>)
    ensures
        read_batches_view(r@) == read_plan(*config, specs@),
{
    let ghost s0 = specs@;
    let sorted = sort_by_key(specs);
    let grouped = group_items(config.limits(), sorted);
    let ghost gs = groups(config.limits_spec(), stable_sort(s0));
    proof {
        super::grouping::groups_are_contiguous_and_within_limits(
            config.limits_spec(),
            stable_sort(s0),
        );
    }
    let mut out: Vec<ReadBatchSpec> = Vec::with_capacity(grouped.len());
    for i in 0..grouped.len()
        invariant
            nested(grouped@) == gs,
            forall|j: int|
                0 <= j < gs.len() ==> contiguous(#[trigger] gs[j]) && total_len(gs[j]) <= 0xFFFF,
            out@.len() == i,
            forall|j: int| 0 <= j < i ==> (#[trigger] out@[j])@ == read_batch_of(gs[j]),
    {
        assert(nested(grouped@)[i as int] == grouped@[i as int]@);
        assert(contiguous(gs[i as int]));
        out.push(read_batch(&grouped[i]));
    }
    proof {
        assert(nested(grouped@).len() == grouped@.len());
        assert(read_batches_view(out@) =~= read_plan(*config, s0));
    }
    out
}

/// Logical write specification for a single MC parameter or point.
#[derive(Debug, Clone)]
pub struct WriteEntry {
    /// Parsed logical address.
    pub addr: McLogicalAddress,
    /// Number of logical words for this write.
    pub word_len: u16,
    /// Encoded device code used by the MC protocol.
    pub device_code: u16,
    /// Fully encoded payload for this entry.
    pub data: Bytes,
}

impl SortKey for WriteEntry {
    open spec fn key_spec(self) -> int {
        self.addr.order_spec()
    }

    fn sort_key(&self) -> (k: u64) {
        self.addr.order()
    }
}

impl PlanItem for WriteEntry {
    open spec fn addr_spec(self) -> McLogicalAddress {
        self.addr
    }

    open spec fn code_spec(self) -> u16 {
        self.device_code
    }

    open spec fn len_spec(self) -> u16 {
        self.word_len
    }

    fn item_addr(&self) -> (r: McLogicalAddress) {
        self.addr
    }

    fn item_code(&self) -> (r: u16) {
        self.device_code
    }

    fn item_len(&self) -> (r: u16) {
        self.word_len
    }
}

/// One batch write request.
#[derive(Debug)]
pub struct WriteBatchSpec {
    /// Device type for this batch.
    pub device: McDeviceType,
    /// Encoded device code used on the wire.
    pub device_code: u16,
    /// Head logical address (device index) of the batch.
    pub head: u32,
    /// Total logical points (words) within this batch.
    pub points: u16,
    /// Contiguous payload buffer for all entries in the batch.
    pub data: BytesMut,
}

/// A write batch as mathematical data.
pub struct WriteBatch {
    pub device: McDeviceType,
    pub device_code: u16,
    pub head: u32,
    pub points: u16,
    pub data: Seq<u8>,
}

impl View for WriteBatchSpec {
    type V = WriteBatch;

    open spec fn view(&self) -> WriteBatch {
        WriteBatch {
            device: self.device,
            device_code: self.device_code,
            head: self.head,
            points: self.points,
            data: buf_content(self.data),
        }
    }
}

/// Payload `d` of the group `g` with the data of `e` put at its place: the
/// payload is filled up with zeros to the size of the grown group, and the
/// bytes from the end of `g` on become those of `e`. `None` where the data of
/// `e` has not the length that its points call for.
pub open spec fn placed(g: Seq<WriteEntry>, d: Seq<u8>, e: WriteEntry) -> Option<Seq<u8>> {
    let unit = e.addr.device.unit_spec();
    let total = total_len(g.push(e)) * unit;
    let at = total_len(g) * unit;
    let base = if d.len() < total {
        resized(d, total as nat, 0)
    } else {
        d
    };
    let data = bytes_content(e.data);
    if data.len() == e.word_len * unit {
        Some(overwritten(base, at, data))
    } else {
        None
    }
}

/// Payload of the batch that writes a group: the data of the first entry as
/// it is, then each further entry at its place. `None` where an entry cannot
/// be placed.
pub open spec fn packed(g: Seq<WriteEntry>) -> Option<Seq<u8>>
    decreases g.len(),
{
    if g.len() == 0 {
        Some(Seq::empty())
    } else if g.len() == 1 {
        Some(bytes_content(g[0].data))
    } else {
        match packed(g.drop_last()) {
            Some(d) => placed(g.drop_last(), d, g.last()),
            None => None,
        }
    }
}

/// The batch that writes a group that can be packed.
pub open spec fn write_batch_of(g: Seq<WriteEntry>) -> WriteBatch {
    WriteBatch {
        device: g[0].addr.device,
        device_code: g[0].device_code,
        head: g[0].addr.head,
        points: total_len(g) as u16,
        data: packed(g)->0,
    }
}

/// The groups that write a list of entries: ordered by device and head, cut
/// into contiguous groups within the limits.
pub open spec fn write_groups(config: PlannerConfig, entries: Seq<WriteEntry>) -> Seq<
    Seq<WriteEntry>,
> {
    groups(config.limits_spec(), stable_sort(entries))
}

/// Every group can be packed into a payload.
pub open spec fn write_plan_fits(config: PlannerConfig, entries: Seq<WriteEntry>) -> bool {
    forall|i: int|
        0 <= i < write_groups(config, entries).len() ==> packed(
            #[trigger] write_groups(config, entries)[i],
        ) is Some
}

/// The batches that write a list of entries, one per group.
pub open spec fn write_plan(config: PlannerConfig, entries: Seq<WriteEntry>) -> Seq<WriteBatch> {
    write_groups(config, entries).map_values(|g: Seq<WriteEntry>| write_batch_of(g))
}

/// A list of write batches as mathematical data.
pub open spec fn write_batches_view(v: Seq<WriteBatchSpec>) -> Seq<WriteBatch> {
    v.map_values(|b: WriteBatchSpec| b@)
}

fn write_batch(g: &Vec<WriteEntry>) -> (r: Option<WriteBatchSpec>)
    requires
        contiguous(g@),
        total_len(g@) <= 0xFFFF,
    ensures
        match r {
            Some(b) => packed(g@) is Some && b@ == write_batch_of(g@),
            None => packed(g@) is None,
        },
{
    let mut data: BytesMut = buf_new();
    buf_extend(&mut data, bytes_as_slice(&g[0].data));
    let mut points: u16 = g[0].word_len;
    let unit: usize = g[0].addr.device.unit_size();
    proof {
        assert(g@.take(1) =~= seq![g@[0]]);
        assert(g@.take(1).drop_last() =~= Seq::<WriteEntry>::empty());
        assert(total_len(g@.take(1).drop_last()) == 0);
        assert(buf_content(data) =~= bytes_content(g@[0].data));
    }
    for i in 1..g.len()
        invariant
            contiguous(g@),
            total_len(g@) <= 0xFFFF,
            unit == g@[0].addr.device.unit_spec(),
            points == total_len(g@.take(i as int)),
            packed(g@.take(i as int)) == Some(buf_content(data)),
    {
        let e = &g[i];
        let ghost before = g@.take(i as int);
        proof {
            assert(g@[i as int].addr_spec().device == g@[0].addr_spec().device);
            lemma_total_take(g@, i as int);
            assert(g@.take(i + 1).drop_last() =~= before);
            assert(g@.take(i + 1) =~= before.push(*e));
        }
        let next: u16 = points + e.word_len;
        let at: usize = points as usize * unit;
        let total: usize = next as usize * unit;
        let want: usize = e.word_len as usize * unit;
        if buf_as_slice(&data).len() < total {
            buf_resize(&mut data, total, 0);
        }
        let bytes = bytes_as_slice(&e.data);
        if bytes.len() != want {
            proof {
                lemma_packed_prefix(g@, i + 1);
            }
            return None;
        }
        assert(next * unit == points * unit + e.word_len * unit) by (nonlinear_arith)
            requires
                next == points + e.word_len,
        ;
        buf_overwrite(&mut data, at, bytes);
        points = next;
    }
    proof {
        assert(g@.take(g@.len() as int) =~= g@);
    }
    Some(
        WriteBatchSpec {
            device: g[0].addr.device,
            device_code: g[0].device_code,
            head: g[0].addr.head,
            points,
            data,
        },
    )
}

/// A group of which a front part cannot be packed cannot be packed.
proof fn lemma_packed_prefix(g: Seq<WriteEntry>, n: int)
    requires
        1 < n <= g.len(),
        packed(g.take(n)) is None,
    ensures
        packed(g) is None,
    decreases g.len(),
{
    if n == g.len() {
        assert(g.take(n) =~= g);
    } else {
        assert(g.drop_last().take(n) =~= g.take(n));
        lemma_packed_prefix(g.drop_last(), n);
    }
}

/// Build write batches from write entries, as `plan_write_batches`; `None`
/// where the data of some entry does not fit its place in a batch.
pub fn try_plan_write_batches(config: &PlannerConfig, entries: Vec<WriteEntry>) -> (r: Option<
    Vec<WriteBatchSpec>,
>)
    ensures
        match r {
            Some(v) => write_plan_fits(*config, entries@) && write_batches_view(v@) == write_plan(
                *config,
                entries@,
            ),
            None => !write_plan_fits(*config, entries@),
        },
{
    let ghost e0 = entries@;
    let sorted = sort_by_key(entries);
    let grouped = group_items(config.limits(), sorted);
    let ghost gs = write_groups(*config, e0);
    proof {
        super::grouping::groups_are_contiguous_and_within_limits(
            config.limits_spec(),
            stable_sort(e0),
        );
    }
    let mut out: Vec<WriteBatchSpec> = Vec::with_capacity(grouped.len());
    for i in 0..grouped.len()
        invariant
            nested(grouped@) == gs,
            e0 == entries@,
            gs == write_groups(*config, e0),
            forall|j: int|
                0 <= j < gs.len() ==> contiguous(#[trigger] gs[j]) && total_len(gs[j]) <= 0xFFFF,
            out@.len() == i,
            forall|j: int| 0 <= j < i ==> packed(#[trigger] gs[j]) is Some,
            forall|j: int| 0 <= j < i ==> (#[trigger] out@[j])@ == write_batch_of(gs[j]),
    {
        assert(nested(grouped@)[i as int] == grouped@[i as int]@);
        assert(contiguous(gs[i as int]));
        match write_batch(&grouped[i]) {
            Some(b) => {
                out.push(b);
            },
            None => {
                assert(packed(write_groups(*config, e0)[i as int]) is None);
                return None;
            },
        }
    }
    proof {
        assert(nested(grouped@).len() == grouped@.len());
        assert(write_batches_view(out@) =~= write_plan(*config, e0));
    }
    Some(out)
}

/// Build write batches from logical write entries under planner capacity
/// constraints.
///
/// Entries are sorted by (device, head); batches are split when the device
/// changes, addresses are not contiguous, or a limit would be exceeded. An
/// entry that joins a batch must bring as many bytes as its points call for.
pub fn plan_write_batches(config: &PlannerConfig, entries: Vec<WriteEntry>) -> (r: Vec<
    WriteBatchSpec,
>)
    requires
        write_plan_fits(*config, entries@),
    ensures
        write_batches_view(r@) == write_plan(*config, entries@),
{
    match try_plan_write_batches(config, entries) {
        Some(v) => v,
        None => Vec::new(),
    }
}

/// The data of all entries of a group, end to end.
pub open spec fn all_data(g: Seq<WriteEntry>) -> Seq<u8>
    decreases g.len(),
{
    if g.len() == 0 {
        Seq::empty()
    } else {
        all_data(g.drop_last()) + bytes_content(g.last().data)
    }
}

/// Where every entry of a group of one device brings the bytes that its
/// points call for, the group can be packed and its payload is the data of its
/// entries end to end.
pub proof fn payload_is_the_data_end_to_end(g: Seq<WriteEntry>)
    requires
        forall|i: int|
            0 <= i < g.len() ==> (#[trigger] g[i]).addr.device == g[0].addr.device && bytes_content(
                g[i].data,
            ).len() == g[i].word_len * g[i].addr.device.unit_spec(),
    ensures
        packed(g) == Some(all_data(g)),
        all_data(g).len() == if g.len() == 0 {
            0
        } else {
            total_len(g) * g[0].addr.device.unit_spec()
        },
    decreases g.len(),
{
    if g.len() > 0 {
        let d = g.drop_last();
        let e = g.last();
        lemma_total_len_nonneg(d);
        assert forall|i: int| 0 <= i < d.len() implies (#[trigger] d[i]).addr.device
            == d[0].addr.device && bytes_content(d[i].data).len() == d[i].word_len
            * d[i].addr.device.unit_spec() by {
            assert(d[i] == g[i]);
            assert(d[0] == g[0]);
        }
        payload_is_the_data_end_to_end(d);
        assert(g[g.len() - 1] == e);
        let unit = e.addr.device.unit_spec();
        if g.len() == 1 {
            assert(d =~= Seq::<WriteEntry>::empty());
            assert(all_data(g) =~= bytes_content(g[0].data));
            assert(total_len(g) == e.word_len);
        } else {
            assert(d[0] == g[0]);
            assert(d.push(e) =~= g);
            let a = all_data(d);
            let data = bytes_content(e.data);
            assert((total_len(d) + e.word_len) * unit == total_len(d) * unit + e.word_len * unit)
                by (nonlinear_arith);
            let total = total_len(g) * unit;
            let base = if a.len() < total {
                resized(a, total as nat, 0)
            } else {
                a
            };
            assert(overwritten(base, a.len() as int, data) =~= a + data);
        }
    }
}

} // verus!
