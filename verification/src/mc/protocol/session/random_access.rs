//! Random access: the requests of a random read or write and its responses.

use super::super::error::{failure_error, violates, Error, RequestFailure};
use super::super::frame::{
    addr::McLogicalAddress,
    builder::{
        build_device_random_read_message, build_device_random_write_message, is_request,
        item_content, items_content, request_body,
    },
    command::McCommandKind,
    device::McDeviceType,
    header::McHeader,
    message::McMessage,
    pdu::McRequestBody,
};
use super::super::merge::{blank, blank_items, items_view, set_item, updated, McReadItemRaw, ReadItem};
use super::super::random::{
    plan_random_read_batches, plan_random_write_batches, random_read_windows, random_write_windows,
    read_command_of, write_command_of, RandomReadBatchSpec, RandomReadEntry, RandomWrite,
    RandomWriteBatchSpec, RandomWriteEntry,
};
use super::reads::{expect_raw_response, raw_response};
use super::state::{monitoring_ms, monitoring_ms_spec, SessionConfig};
use super::writes::expect_write_ack;
use crate::wire::{bytes_as_slice, bytes_content, bytes_slice};
use bytes::Bytes;
use vstd::prelude::*;

verus! {

/// One address of a multi-address read.
#[derive(Debug, Clone, Copy, PartialEq, Eq, Structural)]
pub struct MultiAddressReadSpec {
    /// Caller-supplied index to preserve input ordering in results.
    pub index: usize,
    /// Logical MC address to read from.
    pub addr: McLogicalAddress,
}

/// One address of a multi-address write.
#[derive(Debug, Clone)]
pub struct MultiAddressWriteSpec {
    /// Logical MC address to write to.
    pub addr: McLogicalAddress,
    /// Pre-encoded MC payload bytes for this logical address.
    pub data: Bytes,
}

/// No address of the list is bit-addressed.
pub open spec fn no_bits(s: Seq<McDeviceType>) -> bool {
    forall|i: int| 0 <= i < s.len() ==> !(#[trigger] s[i]).bit_spec()
}

/// Devices of random read entries.
pub open spec fn read_devices(s: Seq<RandomReadEntry>) -> Seq<McDeviceType> {
    s.map_values(|e: RandomReadEntry| e.addr.device)
}

/// The entries of dword devices, in their order.
pub open spec fn dword_reads(s: Seq<RandomReadEntry>) -> Seq<RandomReadEntry> {
    s.filter(|e: RandomReadEntry| e.addr.device.dword_spec())
}

/// The entries of word devices, in their order.
pub open spec fn word_reads(s: Seq<RandomReadEntry>) -> Seq<RandomReadEntry> {
    s.filter(|e: RandomReadEntry| !e.addr.device.dword_spec())
}

/// Number of items of a random read: one more than the greatest index; none
/// for an empty list.
pub open spec fn is_random_count(s: Seq<RandomReadEntry>, n: nat) -> bool {
    &&& s.len() == 0 ==> n == 0
    &&& forall|i: int| 0 <= i < s.len() ==> (#[trigger] s[i]).index < n
    &&& s.len() > 0 ==> n == 1 || exists|i: int|
        0 <= i < s.len() && (#[trigger] s[i]).index == n - 1
}

/// Head and code of random read entries.
pub open spec fn read_addrs(s: Seq<RandomReadEntry>) -> Seq<(u32, u16)> {
    s.map_values(|e: RandomReadEntry| (e.addr.head, e.device_code))
}

fn addrs_of(v: &Vec<RandomReadEntry>) -> (r: Vec<(u32, u16)>)
    ensures
        r@ == read_addrs(v@),
{
    let mut out: Vec<(u32, u16)> = Vec::with_capacity(v.len());
    for i in 0..v.len()
        invariant
            out@.len() == i,
            forall|j: int|
                0 <= j < i ==> #[trigger] out@[j] == (v@[j].addr.head, v@[j].device_code),
    {
        out.push((v[i].addr.head, v[i].device_code));
    }
    assert(out@ =~= read_addrs(v@));
    out
}

/// The items after the first `n` entries of one width have taken their bytes
/// from the payload, from `at` on.
pub open spec fn attached(
    items: Seq<ReadItem>,
    entries: Seq<RandomReadEntry>,
    payload: Seq<u8>,
    at: int,
    width: int,
    n: int,
) -> Seq<ReadItem>
    decreases n,
{
    if n <= 0 {
        items
    } else {
        updated(
            attached(items, entries, payload, at, width, n - 1),
            entries[n - 1].index as int,
            Some(
                (
                    0u16,
                    Some(payload.subrange(at + (n - 1) * width, at + (n - 1) * width + width)),
                ),
            ),
        )
    }
}

/// The items after the first `n` entries have taken the code of a failed
/// command.
pub open spec fn failed(items: Seq<ReadItem>, entries: Seq<RandomReadEntry>, code: u16, n: int) -> Seq<
    ReadItem,
>
    decreases n,
{
    if n <= 0 {
        items
    } else {
        updated(
            failed(items, entries, code, n - 1),
            entries[n - 1].index as int,
            Some((code, None)),
        )
    }
}

fn attach(
    items: &mut Vec<McReadItemRaw>,
    entries: &Vec<RandomReadEntry>,
    payload: &Bytes,
    at: usize,
    width: usize,
    context: &'static str,
) -> (r: Result<(), Error>)
    requires
        width == 2 || width == 4,
        at <= bytes_content(*payload).len(),
    ensures
        final(items)@.len() == old(items)@.len(),
        match r {
            Ok(_) => {
                &&& at + entries@.len() * width <= bytes_content(*payload).len()
                &&& items_view(final(items)@) == attached(
                    items_view(old(items)@),
                    entries@,
                    bytes_content(*payload),
                    at as int,
                    width as int,
                    entries@.len() as int,
                )
            },
            Err(e) => at + entries@.len() * width > bytes_content(*payload).len() && violates(
                e,
                context@,
            ),
        },
{
    let len: usize = bytes_as_slice(payload).len();
    let mut offset: usize = at;
    for i in 0..entries.len()
        invariant
            width == 2 || width == 4,
            len == bytes_content(*payload).len(),
            offset == at + i * width,
            offset <= len,
            items@.len() == old(items)@.len(),
            items_view(items@) == attached(
                items_view(old(items)@),
                entries@,
                bytes_content(*payload),
                at as int,
                width as int,
                i as int,
            ),
    {
        proof {
            assert((i + 1) * width == i * width + width) by (nonlinear_arith);
        }
        if len - offset < width {
            proof {
                assert(entries@.len() * width >= (i + 1) * width) by (nonlinear_arith)
                    requires
                        i < entries@.len(),
                        width >= 0,
                ;
            }
            return Err(Error::ProtocolViolation { context });
        }
        let slice = bytes_slice(payload, offset, offset + width);
        let index: usize = entries[i].index;
        offset += width;
        if index < items.len() {
            set_item(items, index, 0, Some(slice));
        }
    }
    Ok(())
}

fn fail_all(items: &mut Vec<McReadItemRaw>, entries: &Vec<RandomReadEntry>, code: u16)
    ensures
        final(items)@.len() == old(items)@.len(),
        items_view(final(items)@) == failed(
            items_view(old(items)@),
            entries@,
            code,
            entries@.len() as int,
        ),
{
    for i in 0..entries.len()
        invariant
            items@.len() == old(items)@.len(),
            items_view(items@) == failed(items_view(old(items)@), entries@, code, i as int),
    {
        let index: usize = entries[i].index;
        if index < items.len() {
            set_item(items, index, code, None);
        }
    }
}

/// A random read in progress.
#[derive(Debug)]
pub struct RandomReads {
    /// Commands of the read.
    pub batches: Vec<RandomReadBatchSpec>,
    /// Number of commands that have been answered.
    pub answered: usize,
    /// Items as far as they have been answered.
    pub items: Vec<McReadItemRaw>,
}

impl RandomReads {
    /// Not more commands are answered than there are.
    pub open spec fn wf(&self) -> bool {
        self.answered <= self.batches.len()
    }

    /// Plan the commands of a random read under the limits of the series. A
    /// bit device is a protocol violation.
    pub fn begin(config: &SessionConfig, entries: Vec<RandomReadEntry>) -> (r: Result<Self, Error>)
        requires
            forall|i: int| 0 <= i < entries@.len() ==> (#[trigger] entries@[i]).index < usize::MAX,
        ensures
            match r {
                Err(e) => !no_bits(read_devices(entries@)) && violates(
                    e,
                    "read_random_points_typed does not support bit devices"@,
                ),
                Ok(x) => {
                    let words = word_reads(entries@);
                    let dwords = dword_reads(entries@);
                    let ws = random_read_windows(config.series, words.len(), dwords.len());
                    &&& no_bits(read_devices(entries@))
                    &&& x.wf()
                    &&& x.answered == 0
                    &&& x.batches@.len() == ws.len()
                    &&& forall|i: int|
                        0 <= i < ws.len() ==> read_command_of(
                            #[trigger] x.batches@[i],
                            words,
                            dwords,
                            ws[i],
                        )
                    &&& is_random_count(entries@, x.items@.len())
                    &&& items_view(x.items@) == blank_items(x.items@.len())
                },
            },
    {
        let mut words: Vec<RandomReadEntry> = Vec::new();
        let mut dwords: Vec<RandomReadEntry> = Vec::new();
        let mut total: usize = 0;
        proof {
            assert(entries@.take(0) =~= Seq::<RandomReadEntry>::empty());
            reveal(Seq::filter);
        }
        for i in 0..entries.len()
            invariant
                forall|j: int|
                    0 <= j < entries@.len() ==> (#[trigger] entries@[j]).index < usize::MAX,
                words@ == word_reads(entries@.take(i as int)),
                dwords@ == dword_reads(entries@.take(i as int)),
                is_random_count(entries@.take(i as int), total as nat),
                forall|j: int| 0 <= j < i ==> !(#[trigger] entries@[j]).addr.device.bit_spec(),
        {
            let e = entries[i];
            let ghost n0 = total;
            proof {
                let t = entries@.take(i + 1);
                assert(t.drop_last() =~= entries@.take(i as int));
                assert(t.last() == e);
                reveal(Seq::filter);
            }
            if e.addr.device.is_bit() {
                assert(read_devices(entries@)[i as int].bit_spec());
                return Err(
                    Error::ProtocolViolation {
                        context: "read_random_points_typed does not support bit devices",
                    },
                );
            }
            if e.index >= total {
                total = e.index + 1;
            }
            if e.addr.device.is_dword() {
                dwords.push(e);
            } else {
                words.push(e);
            }
            proof {
                let t0 = entries@.take(i as int);
                let t = entries@.take(i + 1);
                assert(t[i as int] == e);
                assert forall|j: int| 0 <= j < t.len() implies (#[trigger] t[j]).index < total by {
                    if j < i {
                        assert(t[j] == t0[j]);
                    }
                }
                if total != 1 && total == n0 {
                    let j = choose|j: int| 0 <= j < t0.len() && (#[trigger] t0[j]).index == total - 1;
                    assert(t[j].index == total - 1);
                }
            }
        }
        assert(entries@.take(entries@.len() as int) =~= entries@);
        let batches = plan_random_read_batches(config.series, words, dwords);
        Ok(RandomReads { batches, answered: 0, items: blank(total) })
    }

    /// The next request; `None` when all commands have been answered.
    pub fn request(&self, config: &SessionConfig) -> (r: Option<McMessage>)
        requires
            self.wf(),
        ensures
            match r {
                None => self.answered == self.batches@.len(),
                Some(m) => {
                    let b = self.batches@[self.answered as int];
                    &&& self.answered < self.batches@.len()
                    &&& is_request(
                        m,
                        config.series,
                        McCommandKind::DeviceAccessRandomReadUnits,
                        config.frame_variant,
                        monitoring_ms_spec(config.read_timeout_ms),
                    )
                    &&& request_body(m) matches Some(
                        McRequestBody::DeviceAccessRandomReadUnits { word_addrs, dword_addrs },
                    ) && word_addrs@ == read_addrs(b.word_entries@) && dword_addrs@ == read_addrs(
                        b.dword_entries@,
                    )
                },
            },
    {
        if self.answered >= self.batches.len() {
            return None;
        }
        let b = &self.batches[self.answered];
        let words = addrs_of(&b.word_entries);
        let dwords = addrs_of(&b.dword_entries);
        Some(
            build_device_random_read_message(
                config.series,
                config.frame_variant,
                monitoring_ms(config.read_timeout_ms),
                words.as_slice(),
                dwords.as_slice(),
            ),
        )
    }

    /// Take the response to the last request. The items of a failed command
    /// get its code; otherwise each word item takes two bytes of the payload
    /// and each dword item four, words first. A payload that is too short is
    /// a protocol violation.
    pub fn accept(&mut self, resp: Result<McMessage, RequestFailure>) -> (r: Result<(), Error>)
        requires
            old(self).wf(),
            old(self).answered < old(self).batches@.len(),
        ensures
            final(self).wf(),
            final(self).batches == old(self).batches,
            final(self).items@.len() == old(self).items@.len(),
            resp matches Err(f) ==> r == Err::<(), Error>(failure_error(f)),
            resp matches Ok(m) ==> match raw_response(m) {
                None => r matches Err(e) && violates(
                    e,
                    "unexpected MC response header for read_random_points_typed"@,
                ),
                Some((code, payload)) => {
                    let b = old(self).batches@[old(self).answered as int];
                    let w = b.word_entries@;
                    let d = b.dword_entries@;
                    let p = bytes_content(payload);
                    let before = items_view(old(self).items@);
                    let after = items_view(final(self).items@);
                    if code != 0 {
                        &&& r is Ok
                        &&& after == failed(
                            failed(before, w, code, w.len() as int),
                            d,
                            code,
                            d.len() as int,
                        )
                    } else if 2 * w.len() > p.len() {
                        r matches Err(e) && violates(
                            e,
                            "MC random read payload too short for word entries"@,
                        )
                    } else if 2 * w.len() + 4 * d.len() > p.len() {
                        r matches Err(e) && violates(
                            e,
                            "MC random read payload too short for dword entries"@,
                        )
                    } else {
                        &&& r is Ok
                        &&& after == attached(
                            attached(before, w, p, 0, 2, w.len() as int),
                            d,
                            p,
                            2 * w.len() as int,
                            4,
                            d.len() as int,
                        )
                    }
                },
            },
            r is Ok ==> final(self).answered == old(self).answered + 1,
    {
        let (code, payload) = match expect_raw_response(
            resp,
            "unexpected MC response header for read_random_points_typed",
        ) {
            Ok(x) => x,
            Err(e) => {
                return Err(e);
            },
        };
        let b = &self.batches[self.answered];
        if code != 0 {
            fail_all(&mut self.items, &b.word_entries, code);
            fail_all(&mut self.items, &b.dword_entries, code);
        } else {
            match attach(
                &mut self.items,
                &b.word_entries,
                &payload,
                0,
                2,
                "MC random read payload too short for word entries",
            ) {
                Ok(_) => {},
                Err(e) => {
                    return Err(e);
                },
            }
            let len: usize = bytes_as_slice(&payload).len();
            assert(b.word_entries@.len() * 2 <= len);
            let at: usize = b.word_entries.len() * 2;
            match attach(
                &mut self.items,
                &b.dword_entries,
                &payload,
                at,
                4,
                "MC random read payload too short for dword entries",
            ) {
                Ok(_) => {},
                Err(e) => {
                    return Err(e);
                },
            }
        }
        self.answered += 1;
        Ok(())
    }
}

/// Devices of random write entries.
pub open spec fn write_devices(s: Seq<RandomWriteEntry>) -> Seq<McDeviceType> {
    s.map_values(|e: RandomWriteEntry| e.addr.device)
}

/// The entries of dword devices, in their order.
pub open spec fn dword_writes(s: Seq<RandomWriteEntry>) -> Seq<RandomWriteEntry> {
    s.filter(|e: RandomWriteEntry| e.addr.device.dword_spec())
}

/// The entries of word devices, in their order.
pub open spec fn word_writes(s: Seq<RandomWriteEntry>) -> Seq<RandomWriteEntry> {
    s.filter(|e: RandomWriteEntry| !e.addr.device.dword_spec())
}

/// Head, code and data of random writes.
pub open spec fn write_items(s: Seq<RandomWriteEntry>) -> Seq<(u32, u16, Seq<u8>)> {
    s.map_values(|e: RandomWriteEntry| (e.addr.head, e.device_code, bytes_content(e.data)))
}

fn items_of(v: &Vec<RandomWriteEntry>) -> (r: Vec<(u32, u16, Bytes)>)
    ensures
        items_content(r@) == write_items(v@),
{
    let mut out: Vec<(u32, u16, Bytes)> = Vec::with_capacity(v.len());
    for i in 0..v.len()
        invariant
            out@.len() == i,
            forall|j: int|
                0 <= j < i ==> item_content(#[trigger] out@[j]) == (
                    v@[j].addr.head,
                    v@[j].device_code,
                    bytes_content(v@[j].data),
                ),
    {
        out.push((v[i].addr.head, v[i].device_code, v[i].data.clone()));
    }
    assert(items_content(out@) =~= write_items(v@));
    out
}

/// A random write in progress.
#[derive(Debug)]
pub struct RandomWrites {
    /// Commands of the write.
    pub batches: Vec<RandomWriteBatchSpec>,
    /// Number of commands that have been answered.
    pub answered: usize,
}

impl RandomWrites {
    /// Not more commands are answered than there are.
    pub open spec fn wf(&self) -> bool {
        self.answered <= self.batches.len()
    }

    /// Plan the commands of a random write under the limits of the series. A
    /// bit device is a protocol violation.
    pub fn begin(config: &SessionConfig, entries: Vec<RandomWriteEntry>) -> (r: Result<
        Self,
        Error,
    >)
        ensures
            match r {
                Err(e) => !no_bits(write_devices(entries@)) && violates(
                    e,
                    "write_random_points_typed does not support bit devices"@,
                ),
                Ok(x) => {
                    let words = word_writes(entries@);
                    let dwords = dword_writes(entries@);
                    let ws = random_write_windows(config.series, words.len(), dwords.len());
                    &&& no_bits(write_devices(entries@))
                    &&& x.wf()
                    &&& x.answered == 0
                    &&& x.batches@.len() == ws.len()
                    &&& forall|i: int|
                        0 <= i < ws.len() ==> write_command_of(
                            #[trigger] x.batches@[i],
                            words,
                            dwords,
                            ws[i],
                        )
                },
            },
    {
        let ghost e0 = entries@;
        let mut words: Vec<RandomWriteEntry> = Vec::new();
        let mut dwords: Vec<RandomWriteEntry> = Vec::new();
        proof {
            assert(e0.take(0) =~= Seq::<RandomWriteEntry>::empty());
            reveal(Seq::filter);
        }
        for e in it: entries
            invariant
                it.seq() == e0,
                e0 == entries@,
                words@ == word_writes(e0.take(it.index() as int)),
                dwords@ == dword_writes(e0.take(it.index() as int)),
                forall|j: int| 0 <= j < it.index() ==> !(#[trigger] e0[j]).addr.device.bit_spec(),
        {
            proof {
                let t = e0.take(it.index() + 1);
                assert(t.drop_last() =~= e0.take(it.index() as int));
                assert(t.last() == e);
                assert(e0[it.index() as int] == e);
                reveal(Seq::filter);
            }
            if e.addr.device.is_bit() {
                assert(write_devices(entries@)[it.index() as int].bit_spec());
                return Err(
                    Error::ProtocolViolation {
                        context: "write_random_points_typed does not support bit devices",
                    },
                );
            }
            if e.addr.device.is_dword() {
                dwords.push(e);
            } else {
                words.push(e);
            }
        }
        assert(e0.take(e0.len() as int) =~= e0);
        let batches = plan_random_write_batches(config.series, words, dwords);
        Ok(RandomWrites { batches, answered: 0 })
    }

    /// The next request; `None` when all commands have been answered.
    pub fn request(&self, config: &SessionConfig) -> (r: Option<McMessage>)
        requires
            self.wf(),
        ensures
            match r {
                None => self.answered == self.batches@.len(),
                Some(m) => {
                    let b = self.batches@[self.answered as int];
                    &&& self.answered < self.batches@.len()
                    &&& is_request(
                        m,
                        config.series,
                        McCommandKind::DeviceAccessRandomWriteUnits,
                        config.frame_variant,
                        monitoring_ms_spec(config.write_timeout_ms),
                    )
                    &&& request_body(m) matches Some(
                        McRequestBody::DeviceAccessRandomWriteUnits { word_items: w, dword_items: d },
                    ) && items_content(w@) == write_items(b.word_entries@) && items_content(d@)
                        == write_items(b.dword_entries@)
                },
            },
    {
        if self.answered >= self.batches.len() {
            return None;
        }
        let b = &self.batches[self.answered];
        let words = items_of(&b.word_entries);
        let dwords = items_of(&b.dword_entries);
        Some(
            build_device_random_write_message(
                config.series,
                config.frame_variant,
                monitoring_ms(config.write_timeout_ms),
                words.as_slice(),
                dwords.as_slice(),
            ),
        )
    }

    /// Take the response to the last request; anything but an acknowledge
    /// with end code 0 ends the write with an error.
    pub fn accept(&mut self, resp: Result<McMessage, RequestFailure>) -> (r: Result<(), Error>)
        requires
            old(self).wf(),
            old(self).answered < old(self).batches@.len(),
        ensures
            final(self).wf(),
            final(self).batches == old(self).batches,
            match resp {
                Err(f) => r == Err::<(), Error>(failure_error(f)),
                Ok(m) => match m.header {
                    McHeader::Ack3E(h) => if h.end_code == 0 {
                        r is Ok
                    } else {
                        r == Err::<(), Error>(Error::EndCode { code: h.end_code })
                    },
                    _ => r matches Err(e) && violates(
                        e,
                        "unexpected MC response header for write_random_points_typed"@,
                    ),
                },
            },
            final(self).answered == old(self).answered + if r is Ok {
                1int
            } else {
                0
            },
    {
        let r = expect_write_ack(
            resp,
            "unexpected MC response header for write_random_points_typed",
        );
        if let Ok(_) = &r {
            self.answered += 1;
        }
        r
    }
}

/// Build the entries of a multi-address read. A bit device is a protocol
/// violation.
pub fn multi_address_reads(specs: &[MultiAddressReadSpec]) -> (r: Result<
    Vec<RandomReadEntry>,
    Error,
>)
    ensures
        match r {
            Err(e) => {
                &&& exists|i: int| 0 <= i < specs@.len() && (#[trigger] specs@[i]).addr.device.bit_spec()
                &&& violates(e, "read_multi_address_typed does not support bit devices"@)
            },
            Ok(v) => {
                &&& v@.len() == specs@.len()
                &&& forall|i: int|
                    0 <= i < specs@.len() ==> !(#[trigger] specs@[i]).addr.device.bit_spec()
                        && v@[i] == (RandomReadEntry {
                        index: specs@[i].index,
                        addr: specs@[i].addr,
                        device_code: specs@[i].addr.device.code_3e_spec(),
                    })
            },
        },
{
    let mut out: Vec<RandomReadEntry> = Vec::with_capacity(specs.len());
    for i in 0..specs.len()
        invariant
            out@.len() == i,
            forall|j: int|
                0 <= j < i ==> !(#[trigger] specs@[j]).addr.device.bit_spec() && out@[j] == (
                RandomReadEntry {
                    index: specs@[j].index,
                    addr: specs@[j].addr,
                    device_code: specs@[j].addr.device.code_3e_spec(),
                }),
    {
        let s = specs[i];
        if s.addr.device.is_bit() {
            assert(specs@[i as int].addr.device.bit_spec());
            return Err(
                Error::ProtocolViolation {
                    context: "read_multi_address_typed does not support bit devices",
                },
            );
        }
        let device_code: u16 = match s.addr.device.device_code_3e() {
            Some(c) => c,
            None => {
                return Err(
                    Error::ProtocolViolation {
                        context: "unsupported MC device type for random read",
                    },
                );
            },
        };
        out.push(RandomReadEntry { index: s.index, addr: s.addr, device_code });
    }
    Ok(out)
}

/// Build the entries of a multi-address write, one word unit each. A bit
/// device is a protocol violation.
pub fn multi_address_writes(specs: Vec<MultiAddressWriteSpec>) -> (r: Result<
    Vec<RandomWriteEntry>,
    Error,
>)
    ensures
        match r {
            Err(e) => {
                &&& exists|i: int| 0 <= i < specs@.len() && (#[trigger] specs@[i]).addr.device.bit_spec()
                &&& violates(e, "write_multi_address_typed does not support bit devices"@)
            },
            Ok(v) => {
                &&& v@.len() == specs@.len()
                &&& forall|i: int|
                    0 <= i < specs@.len() ==> !(#[trigger] specs@[i]).addr.device.bit_spec()
                        && v@[i]@ == (RandomWrite {
                        addr: specs@[i].addr,
                        device_code: specs@[i].addr.device.code_3e_spec(),
                        word_len: 1,
                        data: bytes_content(specs@[i].data),
                    })
            },
        },
{
    let ghost s0 = specs@;
    let mut out: Vec<RandomWriteEntry> = Vec::with_capacity(specs.len());
    for s in it: specs
        invariant
            it.seq() == s0,
            s0 == specs@,
            out@.len() == it.index(),
            forall|j: int|
                0 <= j < it.index() ==> !(#[trigger] s0[j]).addr.device.bit_spec() && out@[j]@ == (
                RandomWrite {
                    addr: s0[j].addr,
                    device_code: s0[j].addr.device.code_3e_spec(),
                    word_len: 1,
                    data: bytes_content(s0[j].data),
                }),
    {
        assert(s0[it.index() as int] == s);
        if s.addr.device.is_bit() {
            assert(specs@[it.index() as int].addr.device.bit_spec());
            return Err(
                Error::ProtocolViolation {
                    context: "write_multi_address_typed does not support bit devices",
                },
            );
        }
        let device_code: u16 = match s.addr.device.device_code_3e() {
            Some(c) => c,
            None => {
                return Err(
                    Error::ProtocolViolation {
                        context: "unsupported MC device type for random write",
                    },
                );
            },
        };
        out.push(RandomWriteEntry { addr: s.addr, device_code, word_len: 1, data: s.data });
    }
    Ok(out)
}

} // verus!
