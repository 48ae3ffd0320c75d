//! Bit devices: nibble-coded payloads and contiguous bit batches.

use super::super::error::{violates, Error};
use super::super::frame::device::McDeviceType;
use super::super::grouping::{
    contiguous, group_items, groups, groups_are_contiguous_and_within_limits,
    lemma_total_take, nested, total_len, Limits,
};
use super::super::merge::McReadItemRaw;
use super::super::order::{sort_by_key, stable_sort};
use super::super::planner::{PlannerConfig, PointReadSpec, WriteEntry};
use crate::wire::{
    buf_content, buf_freeze, buf_new, buf_put_u8, bytes_as_slice, bytes_content, bytes_from_vec,
};
use bytes::{Bytes, BytesMut};
use vstd::prelude::*;

verus! {

/// Bit `i` of a payload with two bits per byte: the high nibble holds the
/// first bit of a pair and the low nibble the second, each as 1 when set.
pub open spec fn nibble_bit(payload: Seq<u8>, i: int) -> bool {
    if i % 2 == 0 {
        payload[i / 2] / 16 == 1
    } else {
        payload[i / 2] % 16 == 1
    }
}

/// The bits of a payload, no more than `points`.
pub open spec fn decoded_bits(payload: Seq<u8>, points: u16) -> Seq<bool> {
    Seq::new(
        if points <= 2 * payload.len() {
            points as nat
        } else {
            2 * payload.len()
        },
        |i: int| nibble_bit(payload, i),
    )
}

/// Byte `k` of the payload for a list of bits.
pub open spec fn bit_pair(bools: Seq<bool>, k: int) -> u8 {
    ((if bools[2 * k] {
        0x10int
    } else {
        0
    }) + (if 2 * k + 1 < bools.len() && bools[2 * k + 1] {
        1int
    } else {
        0
    })) as u8
}

/// The payload for a list of bits: one byte per pair.
pub open spec fn encoded_bits(bools: Seq<bool>) -> Seq<u8> {
    Seq::new(((bools.len() + 1) / 2) as nat, |k: int| bit_pair(bools, k))
}

/// Decode an MC bit payload into a sequence of booleans.
pub fn decode_mc_bits(payload: &[u8], points: u16) -> (r: Vec<bool>)
    ensures
        r@ == decoded_bits(payload@, points),
{
    let mut res: Vec<bool> = Vec::with_capacity(points as usize);
    let mut i: usize = 0;
    while i < payload.len() && res.len() < points as usize
        invariant
            i <= payload@.len(),
            res@.len() == if points <= 2 * i {
                points as nat
            } else {
                (2 * i) as nat
            },
            forall|j: int| 0 <= j < res@.len() ==> #[trigger] res@[j] == nibble_bit(payload@, j),
        decreases payload@.len() - i,
    {
        let b: u8 = payload[i];
        if res.len() < points as usize {
            res.push(b / 16 == 1);
        }
        if res.len() < points as usize {
            res.push(b % 16 == 1);
        }
        i += 1;
    }
    assert(res@ =~= decoded_bits(payload@, points));
    res
}

/// Encode booleans into an MC bit payload.
pub fn encode_mc_bits(bools: &[bool]) -> (r: Bytes)
    ensures
        bytes_content(r) == encoded_bits(bools@),
{
    let mut out: BytesMut = buf_new();
    let mut i: usize = 0;
    while i < bools.len()
        invariant
            i % 2 == 0,
            i <= bools@.len() + 1,
            buf_content(out).len() == i / 2,
            forall|k: int|
                0 <= k < i / 2 ==> #[trigger] buf_content(out)[k] == bit_pair(bools@, k),
        decreases bools@.len() + 1 - i,
    {
        let mut b: u8 = 0;
        if bools[i] {
            b += 0x10;
        }
        if i < bools.len() - 1 && bools[i + 1] {
            b += 0x01;
        }
        buf_put_u8(&mut out, b);
        if i >= bools.len() - 1 {
            assert(buf_content(out) =~= encoded_bits(bools@));
            return buf_freeze(out);
        }
        i += 2;
    }
    assert(buf_content(out) =~= encoded_bits(bools@));
    buf_freeze(out)
}

/// Bits that were written into a payload are read back from it.
pub proof fn written_bits_are_read_back(bools: Seq<bool>)
    requires
        bools.len() <= 0xFFFF,
    ensures
        decoded_bits(encoded_bits(bools), bools.len() as u16) == bools,
{
    let p = encoded_bits(bools);
    assert forall|i: int| 0 <= i < bools.len() implies nibble_bit(p, i) == bools[i] by {
        assert(p[i / 2] == bit_pair(bools, i / 2));
    }
    assert(decoded_bits(p, bools.len() as u16) =~= bools);
}

/// Entry mapping a single logical bit point into a batch payload.
#[derive(Debug, Clone, Copy, PartialEq, Eq, Structural)]
pub struct BitBatchEntry {
    /// Index of the point in the caller-provided list.
    pub index: usize,
    /// Offset (in bits) from the head bit of this batch.
    pub offset_bits: u16,
}

/// One batch read of a bit device.
#[derive(Debug, Clone)]
pub struct BitReadBatchSpec {
    /// Device type for this batch (bit-addressed).
    pub device: McDeviceType,
    /// Encoded device code used on the wire.
    pub device_code: u16,
    /// Head logical bit address of the batch.
    pub head: u32,
    /// Total logical points (bits) within this batch.
    pub points: u16,
    /// Entries describing individual points within the batch.
    pub entries: Vec<BitBatchEntry>,
}

/// The limits of a bit batch: only the points are limited.
pub open spec fn bit_limits_spec(cfg: PlannerConfig) -> Limits {
    Limits { max_points: cfg.max_points_per_batch, max_bytes: 0xFFFF }
}

fn bit_limits(cfg: &PlannerConfig) -> (r: Limits)
    ensures
        r == bit_limits_spec(*cfg),
{
    Limits { max_points: cfg.max_points_per_batch, max_bytes: 0xFFFF }
}

/// The batch reads the group of bit points.
pub open spec fn is_bit_batch(b: BitReadBatchSpec, g: Seq<PointReadSpec>) -> bool {
    &&& b.device == g[0].addr.device
    &&& b.device_code == g[0].device_code
    &&& b.head == g[0].addr.head
    &&& b.points == total_len(g)
    &&& b.entries@.len() == g.len()
    &&& forall|i: int|
        0 <= i < g.len() ==> #[trigger] b.entries@[i] == (BitBatchEntry {
            index: g[i].index,
            offset_bits: total_len(g.take(i)) as u16,
        })
}

/// Every device of the list is bit-addressed.
pub open spec fn all_bit_devices(s: Seq<PointReadSpec>) -> bool {
    forall|i: int| 0 <= i < s.len() ==> (#[trigger] s[i]).addr.device.bit_spec()
}

/// The groups of a list of bit points: ordered by device and head, cut into
/// contiguous groups within the point limit.
pub open spec fn bit_groups(cfg: PlannerConfig, s: Seq<PointReadSpec>) -> Seq<
    Seq<PointReadSpec>,
> {
    groups(bit_limits_spec(cfg), stable_sort(s))
}

fn bit_batch(g: &Vec<PointReadSpec>) -> (r: BitReadBatchSpec)
    requires
        g@.len() > 0,
        total_len(g@) <= 0xFFFF,
    ensures
        is_bit_batch(r, g@),
{
    let mut entries: Vec<BitBatchEntry> = Vec::with_capacity(g.len());
    let mut points: u16 = 0;
    for i in 0..g.len()
        invariant
            total_len(g@) <= 0xFFFF,
            points == total_len(g@.take(i as int)),
            entries@.len() == i,
            forall|j: int|
                0 <= j < i ==> #[trigger] entries@[j] == (BitBatchEntry {
                    index: g@[j].index,
                    offset_bits: total_len(g@.take(j)) as u16,
                }),
    {
        let s = g[i];
        entries.push(BitBatchEntry { index: s.index, offset_bits: points });
        proof {
            lemma_total_take(g@, i as int);
        }
        points = points + s.word_len;
    }
    proof {
        assert(g@.take(g@.len() as int) =~= g@);
    }
    BitReadBatchSpec {
        device: g[0].addr.device,
        device_code: g[0].device_code,
        head: g[0].addr.head,
        points,
        entries,
    }
}

/// Pack bit-addressed points into contiguous batches under the point limit.
/// A point of any other device is a protocol violation.
pub fn plan_bit_read_batches(cfg: &PlannerConfig, specs: Vec<PointReadSpec>) -> (r: Result<
    Vec<BitReadBatchSpec>,
    Error,
>)
    ensures
        match r {
            Err(e) => !all_bit_devices(specs@) && violates(
                e,
                "read_points_typed_bits expects only bit-addressed devices"@,
            ),
            Ok(v) => {
                let gs = bit_groups(*cfg, specs@);
                &&& all_bit_devices(specs@)
                &&& v@.len() == gs.len()
                &&& forall|i: int| 0 <= i < gs.len() ==> is_bit_batch(#[trigger] v@[i], gs[i])
            },
        },
{
    for i in 0..specs.len()
        invariant
            forall|j: int| 0 <= j < i ==> (#[trigger] specs@[j]).addr.device.bit_spec(),
    {
        if !specs[i].addr.device.is_bit() {
            return Err(
                Error::ProtocolViolation {
                    context: "read_points_typed_bits expects only bit-addressed devices",
                },
            );
        }
    }
    let ghost s0 = specs@;
    let ghost gs = bit_groups(*cfg, s0);
    let grouped = group_items(bit_limits(cfg), sort_by_key(specs));
    proof {
        groups_are_contiguous_and_within_limits(bit_limits_spec(*cfg), stable_sort(s0));
        assert(nested(grouped@).len() == grouped@.len());
    }
    let mut out: Vec<BitReadBatchSpec> = Vec::with_capacity(grouped.len());
    for i in 0..grouped.len()
        invariant
            nested(grouped@) == gs,
            forall|j: int|
                0 <= j < gs.len() ==> contiguous(#[trigger] gs[j]) && total_len(gs[j]) <= 0xFFFF,
            out@.len() == i,
            forall|j: int| 0 <= j < i ==> is_bit_batch(#[trigger] out@[j], gs[j]),
    {
        assert(nested(grouped@)[i as int] == grouped@[i as int]@);
        assert(contiguous(gs[i as int]));
        out.push(bit_batch(&grouped[i]));
    }
    Ok(out)
}

/// What a bit batch result says of one entry: the code of a failed batch, or
/// one byte with the bit at its offset; no value where the payload ends
/// before it.
pub open spec fn bit_item(
    entry: BitBatchEntry,
    points: u16,
    end_code: u16,
    payload: Seq<u8>,
) -> super::super::merge::ReadItem {
    let bits = decoded_bits(payload, points);
    super::super::merge::ReadItem {
        index: entry.index,
        end_code: end_code,
        payload: if end_code != 0 || entry.offset_bits >= bits.len() {
            None
        } else {
            Some(
                seq![
                    if bits[entry.offset_bits as int] {
                        1u8
                    } else {
                        0u8
                    },
                ],
            )
        },
    }
}

/// Turn the response to a bit batch into read items, one per entry.
pub fn bit_items(batch: &BitReadBatchSpec, end_code: u16, payload: &Bytes) -> (r: Vec<
    McReadItemRaw,
>)
    ensures
        r@.len() == batch.entries@.len(),
        forall|i: int|
            0 <= i < r@.len() ==> (#[trigger] r@[i])@ == bit_item(
                batch.entries@[i],
                batch.points,
                end_code,
                bytes_content(*payload),
            ),
{
    let bits = decode_mc_bits(bytes_as_slice(payload), batch.points);
    let mut out: Vec<McReadItemRaw> = Vec::with_capacity(batch.entries.len());
    for i in 0..batch.entries.len()
        invariant
            bits@ == decoded_bits(bytes_content(*payload), batch.points),
            out@.len() == i,
            forall|j: int|
                0 <= j < i ==> (#[trigger] out@[j])@ == bit_item(
                    batch.entries@[j],
                    batch.points,
                    end_code,
                    bytes_content(*payload),
                ),
    {
        let e = batch.entries[i];
        let off: usize = e.offset_bits as usize;
        let value = if end_code != 0 || off >= bits.len() {
            None
        } else {
            let mut one: Vec<u8> = Vec::new();
            one.push(
                if bits[off] {
                    1
                } else {
                    0
                },
            );
            let b = bytes_from_vec(one);
            assert(bytes_content(b) =~= seq![
                if bits@[off as int] {
                    1u8
                } else {
                    0u8
                },
            ]);
            Some(b)
        };
        out.push(McReadItemRaw { index: e.index, end_code, payload: value });
    }
    out
}

/// The bits that a group of write entries sets: one per entry, set where the
/// first byte of its data is not 0.
pub open spec fn entry_bits(g: Seq<WriteEntry>) -> Seq<bool> {
    Seq::new(
        g.len(),
        |i: int| bytes_content(g[i].data).len() > 0 && bytes_content(g[i].data)[0] != 0,
    )
}

/// One batch write of a bit device.
#[derive(Debug)]
pub struct BitWriteBatch {
    /// Encoded device code used on the wire.
    pub device_code: u16,
    /// Head logical bit address of the batch.
    pub head: u32,
    /// Total logical points (bits) within this batch.
    pub points: u16,
    /// Nibble-coded bits.
    pub data: Bytes,
}

/// The batch writes the group of bit entries.
pub open spec fn is_bit_write(b: BitWriteBatch, g: Seq<WriteEntry>) -> bool {
    &&& b.device_code == g[0].device_code
    &&& b.head == g[0].addr.head
    &&& b.points == total_len(g)
    &&& bytes_content(b.data) == encoded_bits(entry_bits(g))
}

/// The groups of a list of bit entries: ordered by device and head, cut into
/// contiguous groups within the point limit.
pub open spec fn bit_write_groups(cfg: PlannerConfig, s: Seq<WriteEntry>) -> Seq<Seq<WriteEntry>> {
    groups(bit_limits_spec(cfg), stable_sort(s))
}

fn bit_write(g: &Vec<WriteEntry>) -> (r: BitWriteBatch)
    requires
        g@.len() > 0,
        total_len(g@) <= 0xFFFF,
    ensures
        is_bit_write(r, g@),
{
    let mut bools: Vec<bool> = Vec::with_capacity(g.len());
    let mut points: u16 = 0;
    for i in 0..g.len()
        invariant
            total_len(g@) <= 0xFFFF,
            points == total_len(g@.take(i as int)),
            bools@ == entry_bits(g@.take(i as int)),
    {
        let data = bytes_as_slice(&g[i].data);
        bools.push(data.len() > 0 && data[0] != 0);
        proof {
            lemma_total_take(g@, i as int);
            assert(bools@ =~= entry_bits(g@.take(i + 1)));
        }
        points = points + g[i].word_len;
    }
    proof {
        assert(g@.take(g@.len() as int) =~= g@);
    }
    BitWriteBatch {
        device_code: g[0].device_code,
        head: g[0].addr.head,
        points,
        data: encode_mc_bits(bools.as_slice()),
    }
}

/// The entry is fit for a bit write.
pub open spec fn bit_entry_ok(e: WriteEntry) -> bool {
    e.addr.device.bit_spec() && bytes_content(e.data).len() > 0
}

/// The first entry that is not fit for a bit write, or the length of the list.
pub open spec fn first_unfit(s: Seq<WriteEntry>) -> int
    decreases s.len(),
{
    if s.len() == 0 || !bit_entry_ok(s[0]) {
        0
    } else {
        1 + first_unfit(s.skip(1))
    }
}

/// Pack bit-addressed write entries into contiguous batches. The first entry
/// of another device is a protocol violation, the first without data an
/// encode error.
pub fn plan_bit_write_batches(cfg: &PlannerConfig, entries: Vec<WriteEntry>) -> (r: Result<
    Vec<BitWriteBatch>,
    Error,
>)
    ensures
        ({
            let bad = first_unfit(entries@);
            match r {
                Err(e) => bad < entries@.len() && if !entries@[bad].addr.device.bit_spec() {
                    violates(e, "write_points_typed_bits expects only bit-addressed devices"@)
                } else {
                    e matches Error::Encode { context } && context@
                        == "MC bit write entry has empty payload"@
                },
                Ok(v) => {
                    let gs = bit_write_groups(*cfg, entries@);
                    &&& bad == entries@.len()
                    &&& v@.len() == gs.len()
                    &&& forall|i: int| 0 <= i < gs.len() ==> is_bit_write(#[trigger] v@[i], gs[i])
                },
            }
        }),
{
    assert(entries@.skip(0) =~= entries@);
    for i in 0..entries.len()
        invariant
            first_unfit(entries@) == i + first_unfit(entries@.skip(i as int)),
    {
        proof {
            assert(entries@.skip(i as int)[0] == entries@[i as int]);
            assert(entries@.skip(i as int).skip(1) =~= entries@.skip(i + 1));
        }
        if !entries[i].addr.device.is_bit() {
            return Err(
                Error::ProtocolViolation {
                    context: "write_points_typed_bits expects only bit-addressed devices",
                },
            );
        }
        if bytes_as_slice(&entries[i].data).len() == 0 {
            return Err(Error::Encode { context: "MC bit write entry has empty payload" });
        }
    }
    let ghost s0 = entries@;
    let ghost gs = bit_write_groups(*cfg, s0);
    let grouped = group_items(bit_limits(cfg), sort_by_key(entries));
    proof {
        groups_are_contiguous_and_within_limits(bit_limits_spec(*cfg), stable_sort(s0));
        assert(nested(grouped@).len() == grouped@.len());
    }
    let mut out: Vec<BitWriteBatch> = Vec::with_capacity(grouped.len());
    for i in 0..grouped.len()
        invariant
            nested(grouped@) == gs,
            forall|j: int|
                0 <= j < gs.len() ==> contiguous(#[trigger] gs[j]) && total_len(gs[j]) <= 0xFFFF,
            out@.len() == i,
            forall|j: int| 0 <= j < i ==> is_bit_write(#[trigger] out@[j], gs[j]),
    {
        assert(nested(grouped@)[i as int] == grouped@[i as int]@);
        assert(contiguous(gs[i as int]));
        out.push(bit_write(&grouped[i]));
    }
    Ok(out)
}

} // verus!
