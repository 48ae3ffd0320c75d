//! Batch writes: the requests of a write operation and its responses.

use super::super::error::{error_of_failure, failure_error, violates, Error, RequestFailure};
use super::super::frame::{
    builder::{build_device_batch_write_message, is_request, request_body},
    command::McCommandKind,
    header::McHeader,
    message::McMessage,
    pdu::McRequestBody,
};
use super::super::planner::{
    try_plan_write_batches, write_batches_view, write_plan, write_plan_fits, PlannerConfig, WriteBatch,
    WriteEntry,
};
use super::bits::{
    bit_write_groups, encoded_bits, entry_bits, first_unfit, is_bit_write, plan_bit_write_batches,
    BitWriteBatch,
};
use super::state::{monitoring_ms, monitoring_ms_spec, SessionConfig};
use crate::wire::{buf_freeze, bytes_content};
use std::collections::VecDeque;
use vstd::prelude::*;

verus! {

/// The acknowledge of a write: success for end code 0 of a 3E acknowledge, an
/// end code error for any other code, a protocol violation with the given
/// context for any other header.
pub fn expect_write_ack(resp: Result<McMessage, RequestFailure>, context: &'static str) -> (r:
    Result<(), Error>)
    ensures
        match resp {
            Err(f) => r == Err::<(), Error>(failure_error(f)),
            Ok(m) => match m.header {
                McHeader::Ack3E(h) => if h.end_code == 0 {
                    r is Ok
                } else {
                    r == Err::<(), Error>(Error::EndCode { code: h.end_code })
                },
                _ => r matches Err(e) && violates(e, context@),
            },
        },
{
    match resp {
        Err(f) => Err(error_of_failure(f)),
        Ok(m) => match m.header {
            McHeader::Ack3E(h) => if h.end_code != 0 {
                Err(Error::EndCode { code: h.end_code })
            } else {
                Ok(())
            },
            _ => Err(Error::ProtocolViolation { context }),
        },
    }
}

/// A block write request as mathematical data.
pub struct BlockWrite {
    pub head: u32,
    pub points: u16,
    pub device_code: u16,
    pub data: Seq<u8>,
}

/// The message writes the block.
pub open spec fn is_write_of(m: McMessage, config: SessionConfig, w: BlockWrite) -> bool {
    &&& is_request(
        m,
        config.series,
        McCommandKind::DeviceAccessBatchWriteUnits,
        config.frame_variant,
        monitoring_ms_spec(config.write_timeout_ms),
    )
    &&& request_body(m) matches Some(
        McRequestBody::DeviceAccessBatchWriteUnits { head, points, device_code, data },
    ) && head == w.head && points == w.points && device_code == w.device_code && bytes_content(data)
        == w.data
}

/// The block of a word or dword batch.
pub open spec fn word_block(b: WriteBatch) -> BlockWrite {
    BlockWrite { head: b.head, points: b.points, device_code: b.device_code, data: b.data }
}

/// The block of a group of bit entries.
pub open spec fn bit_block(g: Seq<WriteEntry>) -> BlockWrite {
    BlockWrite {
        head: g[0].addr.head,
        points: super::super::grouping::total_len(g) as u16,
        device_code: g[0].device_code,
        data: encoded_bits(entry_bits(g)),
    }
}

/// The entries of word and dword devices, in their order.
pub open spec fn word_entries(s: Seq<WriteEntry>) -> Seq<WriteEntry> {
    s.filter(|x: WriteEntry| !x.addr.device.bit_spec())
}

/// The entries of bit devices, in their order.
pub open spec fn bit_entries(s: Seq<WriteEntry>) -> Seq<WriteEntry> {
    s.filter(|x: WriteEntry| x.addr.device.bit_spec())
}

/// The messages write the blocks, one each, in order.
pub open spec fn writes_blocks(
    q: Seq<McMessage>,
    config: SessionConfig,
    blocks: Seq<BlockWrite>,
) -> bool {
    &&& q.len() == blocks.len()
    &&& forall|i: int| 0 <= i < q.len() ==> is_write_of(#[trigger] q[i], config, blocks[i])
}

/// A batch write in progress: word and dword batches first, then bit batches.
pub struct PointWrites {
    /// Requests of the current part that have not been sent.
    pub queue: VecDeque<McMessage>,
    /// Bit entries that have not been planned yet.
    pub bits: Option<Vec<WriteEntry>>,
}

impl PointWrites {
    /// Plan the word and dword batches of a write; bit entries are kept for
    /// later. `None` where an entry that joins a batch has not the data that
    /// its points call for.
    pub fn begin(config: &SessionConfig, planner_cfg: &PlannerConfig, entries: Vec<WriteEntry>) -> (r:
        Option<Self>)
        ensures
            match r {
                None => !write_plan_fits(*planner_cfg, word_entries(entries@)),
                Some(w) => {
                    &&& write_plan_fits(*planner_cfg, word_entries(entries@))
                    &&& writes_blocks(
                        w.queue@,
                        *config,
                        write_plan(*planner_cfg, word_entries(entries@)).map_values(
                            |b: WriteBatch| word_block(b),
                        ),
                    )
                    &&& w.bits matches Some(v) && v@ == bit_entries(entries@)
                },
            },
    {
        let ghost e0 = entries@;
        let mut bits: Vec<WriteEntry> = Vec::new();
        let mut words: Vec<WriteEntry> = Vec::new();
        proof {
            assert(e0.take(0) =~= Seq::<WriteEntry>::empty());
            reveal(Seq::filter);
        }
        for e in it: entries
            invariant
                it.seq() == entries@,
                e0 == entries@,
                words@ == word_entries(e0.take(it.index() as int)),
                bits@ == bit_entries(e0.take(it.index() as int)),
        {
            proof {
                let t = e0.take(it.index() + 1);
                assert(t.drop_last() =~= e0.take(it.index() as int));
                assert(t.last() == e);
                reveal(Seq::filter);
            }
            if e.addr.device.is_bit() {
                bits.push(e);
            } else {
                words.push(e);
            }
        }
        assert(e0.take(e0.len() as int) =~= e0);
        let batches = match try_plan_write_batches(planner_cfg, words) {
            Some(b) => b,
            None => {
                return None;
            },
        };
        let ghost plan = write_plan(*planner_cfg, word_entries(e0));
        let mut queue: VecDeque<McMessage> = VecDeque::new();
        let timeout: u32 = monitoring_ms(config.write_timeout_ms);
        let ghost bs = batches@;
        for b in it: batches
            invariant
                it.seq() == bs,
                write_batches_view(bs) == plan,
                timeout == monitoring_ms_spec(config.write_timeout_ms),
                queue@.len() == it.index(),
                forall|i: int|
                    0 <= i < it.index() ==> is_write_of(
                        #[trigger] queue@[i],
                        *config,
                        word_block(plan[i]),
                    ),
        {
            assert(write_batches_view(bs)[it.index() as int] == b@);
            let m = build_device_batch_write_message(
                config.series,
                config.frame_variant,
                timeout,
                b.head,
                b.points,
                b.device_code,
                buf_freeze(b.data),
            );
            queue.push_back(m);
        }
        assert(write_batches_view(bs).len() == bs.len());
        Some(PointWrites { queue, bits: Some(bits) })
    }

    /// Take the response to the last request; anything but an acknowledge
    /// with end code 0 ends the write with an error.
    pub fn accept(&self, resp: Result<McMessage, RequestFailure>) -> (r: Result<(), Error>)
        ensures
            match resp {
                Err(f) => r == Err::<(), Error>(failure_error(f)),
                Ok(m) => match m.header {
                    McHeader::Ack3E(h) => if h.end_code == 0 {
                        r is Ok
                    } else {
                        r == Err::<(), Error>(Error::EndCode { code: h.end_code })
                    },
                    _ => r matches Err(e) && violates(
                        e,
                        if self.bits is Some {
                            "unexpected MC response header for write_points_typed"@
                        } else {
                            "unexpected MC response header for write_points_typed_bits"@
                        },
                    ),
                },
            },
    {
        let context: &'static str = match &self.bits {
            Some(_) => "unexpected MC response header for write_points_typed",
            None => "unexpected MC response header for write_points_typed_bits",
        };
        expect_write_ack(resp, context)
    }

    /// The next request; `Ok(None)` when the write is complete. When the word
    /// and dword batches have been sent, the bit entries are planned, which
    /// fails where one of them has no data.
    pub fn request(&mut self, config: &SessionConfig, planner_cfg: &PlannerConfig) -> (r: Result<
        Option<McMessage>,
        Error,
    >)
        ensures
            old(self).queue@.len() > 0 ==> {
                &&& r == Ok::<Option<McMessage>, Error>(Some(old(self).queue@[0]))
                &&& final(self).queue@ == old(self).queue@.skip(1)
                &&& final(self).bits == old(self).bits
            },
            old(self).queue@.len() == 0 ==> match old(self).bits {
                None => {
                    &&& r == Ok::<Option<McMessage>, Error>(None)
                    &&& final(self).queue@.len() == 0
                    &&& final(self).bits is None
                },
                Some(v) => {
                    let bad = first_unfit(v@);
                    let blocks = bit_write_groups(*planner_cfg, v@).map_values(
                        |g: Seq<WriteEntry>| bit_block(g),
                    );
                    &&& final(self).bits is None
                    &&& match r {
                        Err(e) => {
                            &&& bad < v@.len()
                            &&& final(self).queue@.len() == 0
                            &&& if !v@[bad].addr.device.bit_spec() {
                                violates(
                                    e,
                                    "write_points_typed_bits expects only bit-addressed devices"@,
                                )
                            } else {
                                e matches Error::Encode { context } && context@
                                    == "MC bit write entry has empty payload"@
                            }
                        },
                        Ok(None) => {
                            &&& bad == v@.len()
                            &&& blocks.len() == 0
                            &&& final(self).queue@.len() == 0
                        },
                        Ok(Some(m)) => {
                            &&& bad == v@.len()
                            &&& writes_blocks(seq![m] + final(self).queue@, *config, blocks)
                        },
                    }
                },
            },
    {
        if let Some(m) = self.queue.pop_front() {
            assert(self.queue@ =~= old(self).queue@.skip(1));
            return Ok(Some(m));
        }
        let bits = match self.bits.take() {
            None => {
                return Ok(None);
            },
            Some(v) => v,
        };
        let ghost v = bits@;
        let ghost gs = bit_write_groups(*planner_cfg, v);
        let batches: Vec<BitWriteBatch> = match plan_bit_write_batches(planner_cfg, bits) {
            Ok(b) => b,
            Err(e) => {
                return Err(e);
            },
        };
        let timeout: u32 = monitoring_ms(config.write_timeout_ms);
        let mut queue: VecDeque<McMessage> = VecDeque::new();
        let ghost bs = batches@;
        for b in it: batches
            invariant
                it.seq() == bs,
                bs.len() == gs.len(),
                forall|i: int| 0 <= i < gs.len() ==> is_bit_write(#[trigger] bs[i], gs[i]),
                timeout == monitoring_ms_spec(config.write_timeout_ms),
                queue@.len() == it.index(),
                forall|i: int|
                    0 <= i < it.index() ==> is_write_of(
                        #[trigger] queue@[i],
                        *config,
                        bit_block(gs[i]),
                    ),
        {
            assert(bs[it.index() as int] == b);
            let m = build_device_batch_write_message(
                config.series,
                config.frame_variant,
                timeout,
                b.head,
                b.points,
                b.device_code,
                b.data,
            );
            queue.push_back(m);
        }
        let ghost all = queue@;
        let first = queue.pop_front();
        self.queue = queue;
        proof {
            if all.len() > 0 {
                assert(seq![all[0]] + self.queue@ =~= all);
            }
        }
        Ok(first)
    }
}

} // verus!
