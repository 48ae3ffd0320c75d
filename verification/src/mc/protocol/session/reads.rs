//! Batch reads: the requests of a read operation, its responses, and the
//! items that come out.

use super::super::error::{error_of_failure, failure_error, violates, Error, RequestFailure};
use super::super::frame::{
    builder::{build_device_batch_read_message, is_request, request_body},
    command::McCommandKind,
    device::McDeviceType,
    header::McHeader,
    message::{McAppBody, McMessage},
    pdu::McRequestBody,
};
use super::super::grouping::{
    contiguous, groups, groups_are_contiguous_and_within_limits, groups_hold_list_items,
    groups_keep_distinct, lemma_total_take, total_len,
};
use super::super::merge::{
    after_batches, batches_of, blank, blank_items, each_item_gets_its_own_slice, indices_fit, is_item_count, items_view, merge_read_raw,
    results_of, BatchResult, McReadItemRaw, ReadBatchResult, ReadItem,
};
use super::super::order::{
    distinct_by, sorted_items_are_list_items, sorting_keeps_distinct, stable_sort,
};
use super::super::planner::{
    plan_read_batches, read_batches_view, read_plan, PlannerConfig, PointReadSpec, ReadBatchSpec,
};
use super::bits::{
    all_bit_devices, bit_groups, bit_item, bit_items, is_bit_batch, plan_bit_read_batches,
    BitReadBatchSpec,
};
use super::state::{monitoring_ms, monitoring_ms_spec, SessionConfig};
use crate::wire::bytes_content;
use bytes::Bytes;
use vstd::prelude::*;

verus! {

/// End code and payload of a 3E acknowledge with a raw body.
pub open spec fn raw_response(m: McMessage) -> Option<(u16, Bytes)> {
    match (m.header, m.body) {
        (McHeader::Ack3E(h), Some(McAppBody::Raw(b))) => Some((h.end_code, b)),
        _ => None,
    }
}

/// End code and payload of a response. Any message but a 3E acknowledge with
/// a raw body is a protocol violation with the given context.
pub fn expect_raw_response(resp: Result<McMessage, RequestFailure>, context: &'static str) -> (r:
    Result<(u16, Bytes), Error>)
    ensures
        match resp {
            Err(f) => r == Err::<(u16, Bytes), Error>(failure_error(f)),
            Ok(m) => match raw_response(m) {
                Some(x) => r == Ok::<(u16, Bytes), Error>(x),
                None => r matches Err(e) && violates(e, context@),
            },
        },
{
    match resp {
        Err(f) => Err(error_of_failure(f)),
        Ok(m) => match (m.header, m.body) {
            (McHeader::Ack3E(h), Some(McAppBody::Raw(b))) => Ok((h.end_code, b)),
            _ => Err(Error::ProtocolViolation { context }),
        },
    }
}

/// The points of word and dword devices, in their order.
pub open spec fn word_points(s: Seq<PointReadSpec>) -> Seq<PointReadSpec> {
    s.filter(|x: PointReadSpec| !x.addr.device.bit_spec())
}

/// The points of bit devices, in their order.
pub open spec fn bit_points(s: Seq<PointReadSpec>) -> Seq<PointReadSpec> {
    s.filter(|x: PointReadSpec| x.addr.device.bit_spec())
}

/// Number of items of a read: one more than the greatest index; none for an
/// empty list.
pub open spec fn is_read_count(s: Seq<PointReadSpec>, n: nat) -> bool {
    &&& s.len() == 0 ==> n == 0
    &&& forall|i: int| 0 <= i < s.len() ==> (#[trigger] s[i]).index < n
    &&& s.len() > 0 ==> n == 1 || exists|i: int|
        0 <= i < s.len() && (#[trigger] s[i]).index == n - 1
}

/// The items `base` with the first `n` of `items` put at their indices.
pub open spec fn overlaid(base: Seq<ReadItem>, items: Seq<ReadItem>, n: int) -> Seq<ReadItem>
    decreases n,
{
    if n <= 0 {
        base
    } else {
        let before = overlaid(base, items, n - 1);
        let x = items[n - 1];
        if x.index < before.len() {
            before.update(x.index as int, x)
        } else {
            before
        }
    }
}

/// A batch read in progress: word and dword batches first, then bit batches.
#[derive(Debug)]
pub struct PointReads {
    /// Number of items that come out.
    pub total: usize,
    /// Word and dword batches.
    pub word_batches: Vec<ReadBatchSpec>,
    /// Results of the word and dword batches that have been answered.
    pub word_results: Vec<ReadBatchResult>,
    /// Bit batches.
    pub bit_batches: Vec<BitReadBatchSpec>,
    /// Number of bit batches that have been answered.
    pub bits_done: usize,
    /// Items of the bit batches that have been answered.
    pub bit_items: Vec<McReadItemRaw>,
}

fn overlay(base: &mut Vec<McReadItemRaw>, items: Vec<McReadItemRaw>)
    ensures
        items_view(final(base)@) == overlaid(
            items_view(old(base)@),
            items_view(items@),
            items@.len() as int,
        ),
{
    let ghost all = items_view(items@);
    for x in it: items
        invariant
            it.seq() == items@,
            all == items_view(items@),
            items_view(base@) == overlaid(items_view(old(base)@), all, it.index() as int),
            items_view(base@).len() == base@.len(),
    {
        let i: usize = x.index;
        let ghost before = items_view(base@);
        assert(all[it.index() as int] == x@);
        if i < base.len() {
            base.set(i, x);
            assert(items_view(base@) =~= before.update(i as int, x@));
        }
    }
}

impl PointReads {
    /// Counters do not pass what they count, and all indices of word entries
    /// can be counted.
    pub open spec fn wf(&self) -> bool {
        &&& self.word_results@.len() <= self.word_batches@.len()
        &&& self.bits_done <= self.bit_batches.len()
        &&& indices_fit(batches_of(self.word_batches@))
    }

    /// All batches have been answered.
    pub open spec fn done(&self) -> bool {
        self.word_results@.len() == self.word_batches@.len() && self.bits_done
            == self.bit_batches@.len()
    }

    /// Plan the batches of a read: points of bit devices and all others are
    /// batched apart.
    pub fn begin(planner_cfg: &PlannerConfig, specs: Vec<PointReadSpec>) -> (r: Self)
        requires
            forall|i: int| 0 <= i < specs@.len() ==> (#[trigger] specs@[i]).index < usize::MAX,
        ensures
            r.wf(),
            is_read_count(specs@, r.total as nat),
            read_batches_view(r.word_batches@) == read_plan(*planner_cfg, word_points(specs@)),
            ({
                let gs = bit_groups(*planner_cfg, bit_points(specs@));
                &&& r.bit_batches@.len() == gs.len()
                &&& forall|i: int|
                    0 <= i < gs.len() ==> is_bit_batch(#[trigger] r.bit_batches@[i], gs[i])
            }),
            r.word_results@.len() == 0,
            r.bits_done == 0,
            r.bit_items@.len() == 0,
    {
        let mut bits: Vec<PointReadSpec> = Vec::new();
        let mut words: Vec<PointReadSpec> = Vec::new();
        let mut total: usize = 0;
        proof {
            assert(specs@.take(0) =~= Seq::<PointReadSpec>::empty());
            assert(word_points(Seq::<PointReadSpec>::empty()) =~= Seq::<PointReadSpec>::empty())
                by {
                reveal(Seq::filter);
            }
            assert(bit_points(Seq::<PointReadSpec>::empty()) =~= Seq::<PointReadSpec>::empty())
                by {
                reveal(Seq::filter);
            }
        }
        for i in 0..specs.len()
            invariant
                forall|j: int| 0 <= j < specs@.len() ==> (#[trigger] specs@[j]).index < usize::MAX,
                words@ == word_points(specs@.take(i as int)),
                bits@ == bit_points(specs@.take(i as int)),
                all_bit_devices(bits@),
                is_read_count(specs@.take(i as int), total as nat),
                forall|j: int| 0 <= j < words@.len() ==> (#[trigger] words@[j]).index < usize::MAX,
        {
            let s = specs[i];
            let ghost n0 = total;
            proof {
                let t = specs@.take(i + 1);
                assert(t.drop_last() =~= specs@.take(i as int));
                assert(t.last() == s);
                reveal(Seq::filter);
            }
            if s.addr.device.is_bit() {
                bits.push(s);
            } else {
                words.push(s);
            }
            if s.index >= total {
                total = s.index + 1;
            }
            proof {
                let t0 = specs@.take(i as int);
                let t = specs@.take(i + 1);
                assert(t[i as int] == s);
                assert forall|j: int| 0 <= j < t.len() implies (#[trigger] t[j]).index < total by {
                    if j < i {
                        assert(t[j] == t0[j]);
                    }
                }
                if total != 1 && total == n0 {
                    let j = choose|j: int| 0 <= j < t0.len() && (#[trigger] t0[j]).index == total - 1;
                    assert(t[j].index == total - 1);
                }
            }
        }
        assert(specs@.take(specs@.len() as int) =~= specs@);
        let ghost w = words@;
        let word_batches = plan_read_batches(planner_cfg, words);
        proof {
            lemma_plan_indices_fit(*planner_cfg, w);
            assert(batches_of(word_batches@) =~= read_batches_view(word_batches@));
        }
        let bit_batches = match plan_bit_read_batches(planner_cfg, bits) {
            Ok(v) => v,
            Err(_) => Vec::new(),
        };
        PointReads {
            total,
            word_batches,
            word_results: Vec::new(),
            bit_batches,
            bits_done: 0,
            bit_items: Vec::new(),
        }
    }

    /// The message reads the block of a batch.
    pub open spec fn is_read_of(
        m: McMessage,
        config: SessionConfig,
        head: u32,
        points: u16,
        device_code: u16,
    ) -> bool {
        &&& is_request(
            m,
            config.series,
            McCommandKind::DeviceAccessBatchReadUnits,
            config.frame_variant,
            monitoring_ms_spec(config.read_timeout_ms),
        )
        &&& request_body(m) == Some(
            McRequestBody::DeviceAccessBatchReadUnits { head, points, device_code },
        )
    }

    /// The next request: the first batch that has not been answered; `None`
    /// when all have been.
    pub fn request(&self, config: &SessionConfig) -> (r: Option<McMessage>)
        requires
            self.wf(),
        ensures
            match r {
                None => self.done(),
                Some(m) => !self.done() && if self.word_results@.len()
                    < self.word_batches@.len() {
                    let b = self.word_batches@[self.word_results@.len() as int];
                    Self::is_read_of(m, *config, b.head, b.points, b.device_code)
                } else {
                    let b = self.bit_batches@[self.bits_done as int];
                    Self::is_read_of(m, *config, b.head, b.points, b.device_code)
                },
            },
    {
        let timeout: u32 = monitoring_ms(config.read_timeout_ms);
        if self.word_results.len() < self.word_batches.len() {
            let b = &self.word_batches[self.word_results.len()];
            Some(
                build_device_batch_read_message(
                    config.series,
                    config.frame_variant,
                    timeout,
                    b.head,
                    b.points,
                    b.device_code,
                ),
            )
        } else if self.bits_done < self.bit_batches.len() {
            let b = &self.bit_batches[self.bits_done];
            Some(
                build_device_batch_read_message(
                    config.series,
                    config.frame_variant,
                    timeout,
                    b.head,
                    b.points,
                    b.device_code,
                ),
            )
        } else {
            None
        }
    }

    /// Take the response to the last request. A word or dword batch keeps its
    /// result, a bit batch becomes items; an exchange without a response and
    /// a response of another kind end the read with an error.
    pub fn accept(&mut self, resp: Result<McMessage, RequestFailure>) -> (r: Result<(), Error>)
        requires
            old(self).wf(),
            !old(self).done(),
        ensures
            final(self).wf(),
            final(self).total == old(self).total,
            final(self).word_batches == old(self).word_batches,
            final(self).bit_batches == old(self).bit_batches,
            r is Err ==> *final(self) == *old(self),
            resp matches Err(f) ==> r == Err::<(), Error>(failure_error(f)),
            resp matches Ok(m) ==> match raw_response(m) {
                None => r matches Err(e) && violates(
                    e,
                    if old(self).word_results@.len() < old(self).word_batches@.len() {
                        "unexpected MC response header for read_points_typed (word/dword)"@
                    } else {
                        "unexpected MC response header for read_points_typed_bits"@
                    },
                ),
                Some((end_code, payload)) => {
                    &&& r is Ok
                    &&& if old(self).word_results@.len() < old(self).word_batches@.len() {
                        &&& results_of(final(self).word_results@) == results_of(
                            old(self).word_results@,
                        ).push(
                            BatchResult {
                                end_code,
                                payload: Some(bytes_content(payload)),
                            },
                        )
                        &&& final(self).bits_done == old(self).bits_done
                        &&& final(self).bit_items == old(self).bit_items
                    } else {
                        let b = old(self).bit_batches@[old(self).bits_done as int];
                        &&& final(self).word_results == old(self).word_results
                        &&& final(self).bits_done == old(self).bits_done + 1
                        &&& items_view(final(self).bit_items@) == items_view(
                            old(self).bit_items@,
                        ) + Seq::new(
                            b.entries@.len(),
                            |i: int|
                                bit_item(
                                    b.entries@[i],
                                    b.points,
                                    end_code,
                                    bytes_content(payload),
                                ),
                        )
                    }
                },
            },
    {
        if self.word_results.len() < self.word_batches.len() {
            let (end_code, payload) = match expect_raw_response(
                resp,
                "unexpected MC response header for read_points_typed (word/dword)",
            ) {
                Ok(x) => x,
                Err(e) => {
                    return Err(e);
                },
            };
            self.word_results.push(ReadBatchResult { end_code, payload: Some(payload) });
            proof {
                assert(results_of(self.word_results@) =~= results_of(
                    old(self).word_results@,
                ).push(self.word_results@.last()@));
            }
        } else {
            let (end_code, payload) = match expect_raw_response(
                resp,
                "unexpected MC response header for read_points_typed_bits",
            ) {
                Ok(x) => x,
                Err(e) => {
                    return Err(e);
                },
            };
            let mut more = bit_items(&self.bit_batches[self.bits_done], end_code, &payload);
            let ghost added = items_view(more@);
            proof {
                let b = self.bit_batches@[self.bits_done as int];
                assert(added =~= Seq::new(
                    b.entries@.len(),
                    |i: int|
                        bit_item(b.entries@[i], b.points, end_code, bytes_content(payload)),
                ));
            }
            self.bit_items.append(&mut more);
            self.bits_done += 1;
            proof {
                assert(items_view(self.bit_items@) =~= items_view(old(self).bit_items@) + added);
            }
        }
        Ok(())
    }

    /// The items of a read of which all batches have been answered: slices of
    /// the word and dword batches, over them the bits of the bit batches.
    pub fn finish(self) -> (r: Vec<McReadItemRaw>)
        requires
            self.wf(),
            self.done(),
        ensures
            ({
                let bs = batches_of(self.word_batches@);
                let rs = results_of(self.word_results@);
                let bits = items_view(self.bit_items@);
                let start = blank_items(self.total as nat);
                exists|n: nat|
                    #![trigger is_item_count(bs, n)]
                    is_item_count(bs, n) && {
                        let merged = after_batches(blank_items(n), bs, rs, bs.len() as int);
                        let words = if bs.len() == 0 {
                            start
                        } else {
                            overlaid(start, merged, merged.len() as int)
                        };
                        items_view(r@) == overlaid(words, bits, bits.len() as int)
                    }
            }),
    {
        let ghost bs = batches_of(self.word_batches@);
        let ghost rs = results_of(self.word_results@);
        let merged = merge_read_raw(self.word_batches.as_slice(), self.word_results.as_slice());
        let ghost n = merged@.len();
        let ghost m = items_view(merged@);
        let mut items = blank(self.total);
        if self.word_batches.len() > 0 {
            overlay(&mut items, merged);
        }
        overlay(&mut items, self.bit_items);
        assert(is_item_count(bs, n));
        items
    }
}

proof fn lemma_plan_indices_fit(config: PlannerConfig, specs: Seq<PointReadSpec>)
    requires
        forall|i: int| 0 <= i < specs.len() ==> (#[trigger] specs[i]).index < usize::MAX,
    ensures
        indices_fit(read_plan(config, specs)),
{
    let bs = read_plan(config, specs);
    let sorted = stable_sort(specs);
    let gs = groups(config.limits_spec(), sorted);
    assert forall|i: int, j: int| 0 <= i < bs.len() && 0 <= j < bs[i].entries.len() implies (
    #[trigger] bs[i].entries[j]).index < usize::MAX by {
        groups_hold_list_items(config.limits_spec(), sorted, i, j);
        let k = choose|k: int| 0 <= k < sorted.len() && sorted[k] == gs[i][j];
        sorted_items_are_list_items(specs, k);
        assert(specs.contains(gs[i][j]));
        let l = choose|l: int| 0 <= l < specs.len() && specs[l] == gs[i][j];
        assert(specs[l].index < usize::MAX);
    }
}

/// The bytes of a block of units of a device whose memory is `mem`, one
/// byte per number.
pub open spec fn block(
    mem: spec_fn(McDeviceType, int) -> u8,
    device: McDeviceType,
    head: int,
    points: int,
) -> Seq<u8> {
    Seq::new(
        (points * device.unit_spec()) as nat,
        |x: int| mem(device, head * device.unit_spec() + x),
    )
}

/// A batch read returns what the devices hold: where every point has its own
/// index and every batch is answered with the block that it asks for, the
/// item of a point is the block of units at the address of that point.
pub proof fn batch_reads_return_what_the_devices_hold(
    config: PlannerConfig,
    specs: Seq<PointReadSpec>,
    mem: spec_fn(McDeviceType, int) -> u8,
    rs: Seq<BatchResult>,
    count: nat,
    i: int,
    j: int,
)
    requires
        distinct_by(specs, |s: PointReadSpec| s.index as int),
        rs.len() == read_plan(config, specs).len(),
        forall|k: int|
            0 <= k < rs.len() ==> (#[trigger] rs[k]) == (BatchResult {
                end_code: 0,
                payload: Some(
                    block(
                        mem,
                        read_plan(config, specs)[k].device,
                        read_plan(config, specs)[k].head as int,
                        read_plan(config, specs)[k].points as int,
                    ),
                ),
            }),
        ({
            let gs = groups(config.limits_spec(), stable_sort(specs));
            &&& 0 <= i < gs.len()
            &&& 0 <= j < gs[i].len()
            &&& gs[i][j].index < count
        }),
    ensures
        ({
            let s = groups(config.limits_spec(), stable_sort(specs))[i][j];
            let bs = read_plan(config, specs);
            after_batches(blank_items(count), bs, rs, bs.len() as int)[s.index as int] == (
            ReadItem {
                index: s.index,
                end_code: 0,
                payload: Some(block(mem, s.addr.device, s.addr.head as int, s.word_len as int)),
            })
        }),
{
    let lim = config.limits_spec();
    let sorted = stable_sort(specs);
    let gs = groups(lim, sorted);
    let bs = read_plan(config, specs);
    let f = |s: PointReadSpec| s.index as int;
    sorting_keeps_distinct(specs, f);
    groups_keep_distinct(lim, sorted, f);
    groups_are_contiguous_and_within_limits(lim, sorted);
    assert forall|a: int, b: int, c: int, d: int|
        0 <= a < bs.len() && 0 <= b < bs[a].entries.len() && 0 <= c < bs.len() && 0 <= d
            < bs[c].entries.len() && (#[trigger] bs[a].entries[b]).index == (
        #[trigger] bs[c].entries[d]).index implies a == c && b == d by {
        assert(f(gs[a][b]) == f(gs[c][d]));
    }
    let g = gs[i];
    let e = bs[i].entries[j];
    let s = g[j];
    assert(contiguous(g));
    each_item_gets_its_own_slice(bs, rs, count, bs.len() as int, i, j);
    lemma_total_take(g, j);
    let unit = s.addr.device.unit_spec() as int;
    let o = total_len(g.take(j));
    assert(e.offset_words == o);
    let p = rs[i].payload->0;
    let total = total_len(g);
    assert(o * unit + s.word_len * unit <= total * unit) by (nonlinear_arith)
        requires
            o + s.word_len <= total,
            unit >= 0,
    ;
    assert(p.subrange(o * unit, o * unit + s.word_len * unit) =~= block(
        mem,
        s.addr.device,
        s.addr.head as int,
        s.word_len as int,
    )) by {
        assert(s.addr.head * unit == g[0].addr.head * unit + o * unit) by (nonlinear_arith)
            requires
                s.addr.head == g[0].addr.head + o,
        ;
    }
}

} // verus!
