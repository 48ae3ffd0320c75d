//! How answers are shared out: bits by nibble, items by index, random reads by
//! position.

use super::error::{error_text, failure_error, Error, RequestFailure};
use super::frame::{header::McHeader, McAppBody, McMessage};
use super::grouping::{contiguous, lemma_total_take, total_len, PlanItem};
use super::merge::ReadItem;
use super::planner::{PlannerConfig, PointReadSpec, WriteEntry};
use super::random::RandomReadEntry;
use super::session::bits::{
    bit_item, bit_limits_spec, decoded_bits, encoded_bits, entry_bits, is_bit_batch, nibble_bit,
    BitBatchEntry, BitReadBatchSpec,
};
use super::session::random_access::{attached, failed};
use super::session::reads::{overlaid, raw_response};
use super::session::state::monitoring_ms_spec;
use super::session::writes::bit_block;
use crate::text::hex16;
use crate::wire::bytes_content;
use vstd::prelude::*;

verus! {

/// Two bits stand in a byte, the first in the high nibble and the second in
/// the low one. A nibble of 1 is a set bit, and no more bits are read than
/// were asked for or than the payload holds.
pub proof fn bits_stand_in_nibbles(payload: Seq<u8>, points: u16, k: int)
    requires
        0 <= k < payload.len(),
    ensures
        decoded_bits(payload, points).len() <= points,
        decoded_bits(payload, points).len() == points || decoded_bits(payload, points).len()
            == payload.len() + payload.len(),
        2 * k < points ==> (decoded_bits(payload, points)[2 * k] <==> 0x10 <= payload[k] <= 0x1F),
        2 * k + 1 < points ==> (decoded_bits(payload, points)[2 * k + 1] <==> payload[k] % 16 == 1),
{
    assert((2 * k) / 2 == k && (2 * k) % 2 == 0);
    assert((2 * k + 1) / 2 == k && (2 * k + 1) % 2 == 1);
    assert(nibble_bit(payload, 2 * k) == (payload[k] / 16 == 1));
    assert(nibble_bit(payload, 2 * k + 1) == (payload[k] % 16 == 1));
}

/// Two bits are written into a byte: 0x10 for the first, 0x01 for the second.
/// A last bit without a second one leaves the low nibble at 0.
pub proof fn bits_are_written_in_nibbles(bits: Seq<bool>, k: int)
    requires
        0 <= 2 * k < bits.len(),
    ensures
        2 * encoded_bits(bits).len() == bits.len() || 2 * encoded_bits(bits).len() == bits.len()
            + 1,
        2 * k + 1 < bits.len() ==> encoded_bits(bits)[k] == match (bits[2 * k], bits[2 * k + 1]) {
            (true, true) => 0x11u8,
            (true, false) => 0x10,
            (false, true) => 0x01,
            (false, false) => 0x00,
        },
        2 * k + 1 == bits.len() ==> encoded_bits(bits)[k] == if bits[2 * k] {
            0x10u8
        } else {
            0x00
        },
{
}

/// The bit at the offset of an entry is its value, as one byte of 1 or 0.
/// A failed batch gives its code, and a payload that ends before the bit gives
/// no value.
pub proof fn bit_points_get_their_bit(
    entry: BitBatchEntry,
    points: u16,
    end_code: u16,
    payload: Seq<u8>,
)
    ensures
        ({
            let item = bit_item(entry, points, end_code, payload);
            let at = entry.offset_bits as int;
            &&& item.index == entry.index
            &&& item.end_code == end_code
            &&& end_code != 0 ==> item.payload is None
            &&& end_code == 0 ==> (item.payload is None <==> at >= points || at / 2
                >= payload.len())
            &&& item.payload matches Some(b) ==> b.len() == 1 && b[0] == (if at % 2 == 0 {
                if payload[at / 2] / 16 == 1 {
                    1u8
                } else {
                    0
                }
            } else {
                if payload[at / 2] % 16 == 1 {
                    1u8
                } else {
                    0
                }
            })
        }),
{
}

/// The entries of a bit batch stand at the distance of their heads from the
/// head of the batch, and the batch asks for the bits up to the end of the
/// last one.
pub proof fn bit_entries_stand_at_their_heads(
    b: BitReadBatchSpec,
    g: Seq<PointReadSpec>,
    i: int,
)
    requires
        contiguous(g),
        total_len(g) <= 0xFFFF,
        is_bit_batch(b, g),
        0 <= i < g.len(),
    ensures
        b.device == g[i].addr.device,
        b.device_code == g[i].device_code,
        b.entries@[i].index == g[i].index,
        b.head + b.entries@[i].offset_bits == g[i].addr.head,
        b.entries@[i].offset_bits + g[i].word_len <= b.points,
        i == g.len() - 1 ==> b.entries@[i].offset_bits + g[i].word_len == b.points,
{
    assert(g[i].addr_spec().device == g[0].addr_spec().device);
    lemma_total_take(g, i);
    assert(b.entries@[i] == (BitBatchEntry {
        index: g[i].index,
        offset_bits: total_len(g.take(i)) as u16,
    }));
    if i == g.len() - 1 {
        assert(g.take(i + 1) =~= g);
    }
}

/// The limits of bit batches: the points of the settings, and no limit of
/// bytes below what 16 bits hold.
pub proof fn bit_batches_are_limited_in_points(config: PlannerConfig)
    ensures
        bit_limits_spec(config).max_points == config.max_points_per_batch,
        bit_limits_spec(config).max_bytes == u16::MAX,
{
}

/// A bit is set by an entry whose data starts with anything but 0, and the
/// block that writes a group starts at its first entry.
pub proof fn bit_writes_set_what_is_not_zero(g: Seq<WriteEntry>, i: int)
    requires
        0 <= i < g.len(),
        bytes_content(g[i].data).len() > 0,
        total_len(g) <= 0xFFFF,
    ensures
        entry_bits(g).len() == g.len(),
        entry_bits(g)[i] <==> bytes_content(g[i].data)[0] != 0,
        bit_block(g).head == g[0].addr.head,
        bit_block(g).device_code == g[0].device_code,
        0 <= total_len(g) ==> bit_block(g).points == total_len(g),
        bit_block(g).data == encoded_bits(entry_bits(g)),
{
}

/// No two of the items have the same index.
pub open spec fn own_indices(items: Seq<ReadItem>) -> bool {
    forall|i: int, j: int|
        0 <= i < j < items.len() ==> (#[trigger] items[i]).index != (#[trigger] items[j]).index
}

/// Items are put at their indices: an item with an index of its own stands
/// there, and what no item is for stays as it was.
pub proof fn items_are_put_at_their_indices(
    base: Seq<ReadItem>,
    items: Seq<ReadItem>,
    n: int,
    m: int,
)
    requires
        own_indices(items),
        0 <= n <= items.len(),
        0 <= m < base.len(),
    ensures
        overlaid(base, items, n).len() == base.len(),
        forall|k: int|
            0 <= k < n && (#[trigger] items[k]).index == m ==> overlaid(base, items, n)[m]
                == items[k],
        (forall|k: int| 0 <= k < n ==> (#[trigger] items[k]).index != m) ==> overlaid(
            base,
            items,
            n,
        )[m] == base[m],
    decreases n,
{
    if n > 0 {
        items_are_put_at_their_indices(base, items, n - 1, m);
        assert(forall|k: int|
            0 <= k < n - 1 ==> (#[trigger] items[k]).index != items[n - 1].index);
    }
}

/// No two of the entries have the same index.
pub open spec fn own_entries(entries: Seq<RandomReadEntry>) -> bool {
    forall|i: int, j: int|
        0 <= i < j < entries.len() ==> (#[trigger] entries[i]).index != (
        #[trigger] entries[j]).index
}

/// The answer to a random read holds the items one behind the other: entry `k`
/// takes the bytes behind those of the entries before it.
pub proof fn random_items_are_taken_in_order(
    items: Seq<ReadItem>,
    entries: Seq<RandomReadEntry>,
    payload: Seq<u8>,
    at: int,
    width: int,
    n: int,
    m: int,
)
    requires
        own_entries(entries),
        0 <= n <= entries.len(),
        0 <= m < items.len(),
    ensures
        attached(items, entries, payload, at, width, n).len() == items.len(),
        forall|k: int|
            0 <= k < n && (#[trigger] entries[k]).index == m ==> {
                let x = attached(items, entries, payload, at, width, n)[m];
                &&& x.index == items[m].index
                &&& x.end_code == 0
                &&& x.payload == Some(payload.subrange(at + k * width, at + k * width + width))
            },
        (forall|k: int| 0 <= k < n ==> (#[trigger] entries[k]).index != m) ==> attached(
            items,
            entries,
            payload,
            at,
            width,
            n,
        )[m] == items[m],
    decreases n,
{
    if n > 0 {
        random_items_are_taken_in_order(items, entries, payload, at, width, n - 1, m);
        assert(forall|k: int|
            0 <= k < n - 1 ==> (#[trigger] entries[k]).index != entries[n - 1].index);
    }
}

/// A random read that failed gives its code to every entry, and to no other
/// item.
pub proof fn random_failures_are_told_to_every_entry(
    items: Seq<ReadItem>,
    entries: Seq<RandomReadEntry>,
    code: u16,
    n: int,
    m: int,
)
    requires
        0 <= n <= entries.len(),
        0 <= m < items.len(),
    ensures
        failed(items, entries, code, n).len() == items.len(),
        failed(items, entries, code, n)[m].index == items[m].index,
        forall|k: int|
            0 <= k < n && (#[trigger] entries[k]).index == m ==> failed(
                items,
                entries,
                code,
                n,
            )[m].end_code == code && failed(items, entries, code, n)[m].payload is None,
        (forall|k: int| 0 <= k < n ==> (#[trigger] entries[k]).index != m) ==> failed(
            items,
            entries,
            code,
            n,
        )[m] == items[m],
    decreases n,
{
    if n > 0 {
        random_failures_are_told_to_every_entry(items, entries, code, n - 1, m);
    }
}

/// A request waits for as long as its timeout says, but at least a quarter of
/// a second.
pub proof fn requests_wait_for_their_timeout(timeout_ms: u64)
    requires
        timeout_ms <= u32::MAX,
    ensures
        monitoring_ms_spec(timeout_ms) >= timeout_ms,
        monitoring_ms_spec(timeout_ms) >= 250,
        monitoring_ms_spec(timeout_ms) == timeout_ms || monitoring_ms_spec(timeout_ms) == 250,
{
}

/// Only an acknowledge of a 3E frame with a raw body is an answer to a batch
/// or random command. Its completion code is that of its header.
pub proof fn answers_are_raw_3e_acknowledges(m: McMessage)
    ensures
        raw_response(m) is Some <==> m.header is Ack3E && (m.body matches Some(b) && b is Raw),
        raw_response(m) matches Some((code, payload)) ==> (m.header matches McHeader::Ack3E(h)
            && h.end_code == code) && m.body == Some(McAppBody::Raw(payload)),
{
}

/// An exchange that ran out of time is a timeout, one that the transport
/// failed is an I/O error with its words.
pub proof fn failures_are_told_apart(f: RequestFailure)
    ensures
        f is TimedOut <==> failure_error(f) is RequestTimeout,
        f matches RequestFailure::Io(why) ==> failure_error(f) == Error::Io(why),
{
}

/// What errors say.
pub proof fn words_of_errors(e: Error)
    ensures
        e matches Error::Io(why) ==> error_text(e) == "I/O error: "@ + why@,
        e is RequestTimeout ==> error_text(e) == "request timeout"@,
        e is InvalidFrame ==> error_text(e) == "invalid frame"@,
        e matches Error::ProtocolViolation { context } ==> error_text(e)
            == "protocol violation: "@ + context@,
        e matches Error::Encode { context } ==> error_text(e) == "encode error: "@ + context@,
        e matches Error::Decode { context } ==> error_text(e) == "decode error: "@ + context@,
        e matches Error::UnsupportedFeature { feature } ==> error_text(e)
            == "unsupported feature: "@ + feature@,
        e matches Error::EndCode { code } ==> error_text(e) == "MC end_code error: "@ + hex16(code),
{
}

} // verus!
