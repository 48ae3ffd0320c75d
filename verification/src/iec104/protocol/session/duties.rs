//! What a connection owes the other station and the application, in terms of
//! the bytes of frames, sequence numbers around 32768 and nanoseconds.

use super::super::frame::apci::{iframe, SApci, UApci, SeqPending,};
use super::super::frame::asdu::Asdu;
use super::super::frame::Apdu;
use super::link::{
    asdu_outcome, frame_outcome, opened, request_outcome, sent_outcome, tick_outcome, ActionData,
    AfterSend, Link, Priority, Request, TickPhase,
};
use super::state::{
    default_config, distance, in_range, not_behind, sat_minus, sat_plus, seq_plus, total_size,
    LinkState, SessionConfig, SessionEvent, SessionLifecycleState,
};
use crate::clock::{never, time_is_counted_in_milliseconds, UtcTime};
use vstd::prelude::*;

verus! {

/// The number of a frame in its control bytes.
pub open spec fn number_sent(apdu: Apdu) -> int {
    apdu.apci.ctrl1 / 2 + 128 * apdu.apci.ctrl2
}

/// The number that a frame acknowledges up to, in its control bytes.
pub open spec fn number_acknowledged(apdu: Apdu) -> int {
    apdu.apci.ctrl3 / 2 + 128 * apdu.apci.ctrl4
}

/// How many frames are sent and not acknowledged.
pub open spec fn unacknowledged(l: Link) -> int {
    (l.state.send_sn - l.state.ack_sendsn) % 32768
}

/// An acknowledgement lies between the last one and the next number to send.
pub open spec fn within(l: Link, n: int) -> bool {
    (n - l.state.ack_sendsn) % 32768 <= unacknowledged(l)
}

/// The bytes of a frame without ASDU.
pub open spec fn short_frame(c1: int, c2: int, c3: int, c4: int) -> Seq<u8> {
    seq![0x68u8, 4u8, c1 as u8, c2 as u8, c3 as u8, c4 as u8]
}

/// The bytes of an information frame.
pub open spec fn information_frame(asdu: Asdu, sent: int, received: int) -> Seq<u8> {
    seq![
        0x68u8,
        (10 + asdu@.raw.len()) as u8,
        (2 * (sent % 128)) as u8,
        (sent / 128) as u8,
        (2 * (received % 128)) as u8,
        (received / 128) as u8,
    ] + asdu@.encoded()
}

/// Nanoseconds from one moment to another.
pub open spec fn nanos_between(since: UtcTime, now: UtcTime) -> int {
    (now.secs - since.secs) * 1_000_000_000 + now.nanos - since.nanos
}

/// So many milliseconds have passed since a moment.
pub open spec fn passed(since: UtcTime, now: UtcTime, ms: u64) -> bool {
    nanos_between(since, now) >= ms * 1_000_000
}

/// A moment that is not ahead.
pub open spec fn not_ahead(since: UtcTime, now: UtcTime) -> bool {
    since.wf() && now.wf() && nanos_between(since, now) >= 0
}

/// An information frame with the number that is due and an acknowledgement
/// within the window hands its ASDU to the application, whatever was
/// acknowledged to the other station before; the next number is then due and
/// the frames that it acknowledges no longer wait. Every other information
/// frame ends the connection and advances nothing.
pub proof fn information_frames_in_sequence_are_delivered(l: Link, apdu: Apdu, now: UtcTime)
    requires
        apdu.apci.ctrl1 % 2 == 0,
    ensures
        ({
            let o = frame_outcome(l, apdu, now);
            let due = number_sent(apdu) == l.state.rcv_sn && within(l, number_acknowledged(apdu));
            &&& due ==> o.action == match apdu.asdu {
                Some(a) => ActionData::Deliver(a),
                None => ActionData::Nothing,
            }
            &&& due ==> o.link == Link {
                state: LinkState {
                    rcv_sn: ((l.state.rcv_sn + 1) % 32768) as u16,
                    ack_sendsn: number_acknowledged(apdu) as u16,
                    idle_since: now,
                    unacked_rcv_since: if l.state.ack_rcvsn == l.state.rcv_sn {
                        now
                    } else {
                        l.state.unacked_rcv_since
                    },
                    pending: o.link.state.pending,
                    pending_bytes: o.link.state.pending_bytes,
                    ..l.state
                },
                ..l
            }
            &&& due && l.state.pending.len() == unacknowledged(l) ==> o.link.state.pending
                == l.state.pending.skip((number_acknowledged(apdu) - l.state.ack_sendsn) % 32768)
            &&& !due ==> o.action is Close
            &&& !due ==> o.link.state.rcv_sn == l.state.rcv_sn && o.link.state.send_sn
                == l.state.send_sn && o.link.queue == l.queue && o.link.lifecycle == l.lifecycle
            &&& o.after is Nothing
        }),
{
}

/// A supervisory frame within the window acknowledges frames and does nothing
/// else; one outside of it ends the connection.
pub proof fn supervisory_frames_acknowledge(l: Link, apdu: Apdu, now: UtcTime)
    requires
        apdu.apci.ctrl1 % 4 == 1,
    ensures
        ({
            let o = frame_outcome(l, apdu, now);
            let n = number_acknowledged(apdu);
            &&& within(l, n) ==> o.action is Nothing
            &&& within(l, n) ==> o.link == Link {
                state: LinkState {
                    ack_sendsn: n as u16,
                    idle_since: now,
                    pending: o.link.state.pending,
                    pending_bytes: o.link.state.pending_bytes,
                    ..l.state
                },
                ..l
            }
            &&& within(l, n) && l.state.pending.len() == unacknowledged(l)
                ==> o.link.state.pending == l.state.pending.skip(
                (n - l.state.ack_sendsn) % 32768,
            )
            &&& !within(l, n) ==> o.action is Close
            &&& o.after is Nothing
        }),
{
}

/// Unnumbered frames by their control byte: start (0x07), stop (0x13) and test
/// (0x43) are answered by their confirmations (0x0b, 0x23, 0x83), and data
/// transfer is started or stopped once the answer is sent. A confirmation of
/// start or stop starts or stops data transfer and disarms its timer, that of
/// a test disarms its timer.
pub proof fn unnumbered_frames_are_answered(l: Link, apdu: Apdu, now: UtcTime, later: UtcTime)
    requires
        apdu.apci.ctrl1 % 4 == 3,
    ensures
        ({
            let o = frame_outcome(l, apdu, now);
            let c = apdu.apci.ctrl1;
            let heard = Link { state: LinkState { idle_since: now, ..l.state }, ..l };
            let (behind, action) = sent_outcome(o.link, o.after, later);
            &&& c == 0x07 ==> {
                &&& o.action matches ActionData::Send(f) && f.encoded() == short_frame(0x0b, 0, 0, 0)
                &&& o.link == heard
                &&& behind == Link { lifecycle: SessionLifecycleState::Active, ..heard }
                &&& action == ActionData::Enter(SessionLifecycleState::Active)
            }
            &&& c == 0x13 ==> {
                &&& o.action matches ActionData::Send(f) && f.encoded() == short_frame(0x23, 0, 0, 0)
                &&& o.link == heard
                &&& behind == Link { lifecycle: SessionLifecycleState::Inactive, ..heard }
                &&& action == ActionData::Enter(SessionLifecycleState::Inactive)
            }
            &&& c == 0x43 ==> {
                &&& o.action matches ActionData::Send(f) && f.encoded() == short_frame(0x83, 0, 0, 0)
                &&& o.link == heard
                &&& behind == heard
            }
            &&& c == 0x0b ==> {
                &&& o.action == ActionData::Enter(SessionLifecycleState::Active)
                &&& o.link == Link {
                    lifecycle: SessionLifecycleState::Active,
                    start_sent_since: never(),
                    ..heard
                }
            }
            &&& c == 0x23 ==> {
                &&& o.action == ActionData::Enter(SessionLifecycleState::Inactive)
                &&& o.link == Link {
                    lifecycle: SessionLifecycleState::Inactive,
                    stop_sent_since: never(),
                    ..heard
                }
            }
            &&& c == 0x83 ==> {
                &&& o.action is Nothing
                &&& o.link == Link { test_sent_since: never(), ..heard }
            }
            &&& c != 0x07 && c != 0x13 && c != 0x43 && c != 0x0b && c != 0x23 && c != 0x83 ==> {
                &&& o.action is Nothing
                &&& o.link == heard
            }
            &&& !o.fatal
        }),
{
}

/// A new connection has sent and received nothing, is not active, and waits
/// for the confirmation of its start alone.
pub proof fn connections_start_from_nothing(config: SessionConfig, now: UtcTime, started: UtcTime)
    ensures
        ({
            let l = opened(config, now, started);
            &&& l.config == config
            &&& l.state.send_sn == 0 && l.state.ack_sendsn == 0
            &&& l.state.rcv_sn == 0 && l.state.ack_rcvsn == 0
            &&& l.state.consecutive_t1_timeouts == 0
            &&& l.state.pending.len() == 0 && l.state.pending_bytes == 0
            &&& l.queue.len() == 0 && l.queue_bytes == 0
            &&& l.state.last_low_prio is None
            &&& l.state.idle_since == now
            &&& l.start_sent_since == started
            &&& l.stop_sent_since == never() && l.test_sent_since == never()
            &&& l.lifecycle is Inactive
        }),
        never().secs == 8_210_266_876_799 && never().nanos == 999_999_999,
{
}

/// The settings that a session has unless others are given.
pub proof fn default_settings()
    ensures
        ({
            let c = default_config();
            &&& c.connection_timeout_ms == 10_000
            &&& c.t0_ms == 10_000
            &&& c.t1_ms == 15_000
            &&& c.t2_ms == 10_000
            &&& c.t3_ms == 20_000
            &&& c.k_window == 12
            &&& c.w_threshold == 8
            &&& c.send_queue_capacity == 1024
            &&& c.tcp_nodelay
            &&& c.max_pending_asdu_bytes == 1024 * 1024
            &&& c.discard_low_priority_when_window_full
            &&& c.merge_low_priority
            &&& c.low_prio_flush_max_age_ms == 2000
        }),
{
}

/// The oldest frame that waits is given up once t1 has passed since it was
/// sent, and that is reported; the fifth time in a row ends the connection.
/// Where nothing waits the count starts anew, where nothing is overdue it goes
/// down by one.
pub proof fn overdue_frames_are_given_up(l: Link, now: UtcTime)
    requires
        l.state.pending.len() > 0 ==> not_ahead(l.state.pending[0].send_time, now),
        l.state.consecutive_t1_timeouts < u32::MAX,
        l.state.pending.len() > 0 ==> l.state.pending_bytes >= l.state.pending[0].size_bytes,
    ensures
        ({
            let o = tick_outcome(l, TickPhase::T1, now);
            let waits = l.state.send_sn != l.state.ack_sendsn;
            let late = waits && l.state.pending.len() > 0 && passed(
                l.state.pending[0].send_time,
                now,
                l.config.t1_ms,
            );
            let n = l.state.consecutive_t1_timeouts;
            &&& late ==> {
                &&& o.action == ActionData::Emit(SessionEvent::T1Timeout)
                &&& o.link == Link {
                    state: LinkState {
                        ack_sendsn: ((l.state.ack_sendsn + 1) % 32768) as u16,
                        consecutive_t1_timeouts: (n + 1) as u32,
                        pending: l.state.pending.skip(1),
                        pending_bytes: (l.state.pending_bytes - l.state.pending[0].size_bytes) as usize,
                        ..l.state
                    },
                    ..l
                }
                &&& o.on_ok == if n >= 4 {
                    TickPhase::Leave
                } else {
                    TickPhase::T3
                }
                &&& o.on_err == o.on_ok
            }
            &&& !late ==> {
                &&& o.action is Nothing
                &&& o.on_ok is T3
                &&& o.on_err is T3
                &&& o.link == Link {
                    state: LinkState {
                        consecutive_t1_timeouts: if !waits || n == 0 {
                            0
                        } else {
                            (n - 1) as u32
                        },
                        ..l.state
                    },
                    ..l
                }
            }
        }),
{
    if l.state.pending.len() > 0 {
        time_is_counted_in_milliseconds(l.state.pending[0].send_time, now);
        let first = l.state.pending.take(1);
        assert(first.len() == 1 && first[0] == l.state.pending[0]);
        assert(first.skip(1) =~= Seq::empty());
        reveal_with_fuel(total_size, 2);
        assert(total_size(first) == l.state.pending[0].size_bytes);
    }
}

/// A connection that has been silent for t3 is tested, and the test is timed.
pub proof fn silent_connections_are_tested(l: Link, now: UtcTime)
    requires
        not_ahead(l.state.idle_since, now),
    ensures
        ({
            let o = tick_outcome(l, TickPhase::T3, now);
            let sent = tick_outcome(l, TickPhase::T3Sent, now);
            let silent = passed(l.state.idle_since, now, l.config.t3_ms);
            &&& silent ==> {
                &&& o.action matches ActionData::Send(f) && f.encoded() == short_frame(0x43, 0, 0, 0)
                &&& o.link == Link { test_sent_since: now, ..l }
                &&& o.on_ok is T3Sent
                &&& o.on_err is Done
            }
            &&& !silent ==> o.action is Nothing && o.link == l && o.on_ok is Ack
            &&& sent.action is Nothing
            &&& sent.link == Link { state: LinkState { idle_since: now, ..l.state }, ..l }
            &&& sent.on_ok is Ack
        }),
{
    time_is_counted_in_milliseconds(l.state.idle_since, now);
}

/// What was received is acknowledged by a supervisory frame with the number
/// that is due next, as soon as w frames wait for it or t2 has passed since
/// the first of them.
pub proof fn received_frames_are_acknowledged(l: Link, now: UtcTime)
    requires
        l.state.rcv_sn < 32768,
        not_ahead(l.state.unacked_rcv_since, now),
    ensures
        ({
            let o = tick_outcome(l, TickPhase::Ack, now);
            let n = (l.state.rcv_sn - l.state.ack_rcvsn) % 32768;
            let owed = l.state.rcv_sn != l.state.ack_rcvsn && (n >= l.config.w_threshold || passed(
                l.state.unacked_rcv_since,
                now,
                l.config.t2_ms,
            ));
            &&& owed ==> {
                &&& o.action matches ActionData::Send(f) && f.encoded() == short_frame(
                    1,
                    0,
                    2 * (l.state.rcv_sn % 128) as int,
                    l.state.rcv_sn as int / 128,
                )
                &&& o.link == Link {
                    state: LinkState { ack_rcvsn: l.state.rcv_sn, ..l.state },
                    ..l
                }
            }
            &&& !owed ==> o.action is Nothing && o.link == l
            &&& o.on_ok is Flush
            &&& o.on_err is Flush
        }),
{
    time_is_counted_in_milliseconds(l.state.unacked_rcv_since, now);
}

/// While data transfer is started and the window has free slots, the backlog
/// goes out into them, the oldest first.
pub proof fn backlog_goes_out_in_order(l: Link, now: UtcTime, slots: u16)
    requires
        l.state.send_sn < 32768,
        l.state.rcv_sn < 32768,
        l.queue.len() > 0 ==> l.queue[0].0@.raw.len() <= 243,
    ensures
        ({
            let o = tick_outcome(l, TickPhase::Flush, now);
            let free = l.config.k_window - unacknowledged(l);
            &&& o.action is Nothing
            &&& o.link == l
            &&& l.lifecycle is Active && free > 0 ==> o.on_ok == TickPhase::FlushNext {
                slots: free as u16,
            }
            &&& !(l.lifecycle is Active && free > 0) ==> o.on_ok is T0
        }),
        ({
            let o = tick_outcome(l, TickPhase::FlushNext { slots }, now);
            &&& slots > 0 && l.queue.len() > 0 ==> {
                &&& o.action matches ActionData::Send(f) && f.encoded() == information_frame(
                    l.queue[0].0,
                    l.state.send_sn as int,
                    l.state.rcv_sn as int,
                )
                &&& o.link == Link { queue: l.queue.skip(1), ..l }
                &&& o.on_ok == TickPhase::FlushSent { slots, size: l.queue[0].1 }
                &&& o.on_err is LowPrio
            }
            &&& slots == 0 || l.queue.len() == 0 ==> {
                &&& o.action is Nothing
                &&& o.link == l
                &&& o.on_ok is LowPrio
            }
        }),
{
    if l.queue.len() > 0 {
        lemma_information_frame(l.queue[0].0, l.state.send_sn, l.state.rcv_sn);
    }
}

/// A frame that is sent takes the next number, waits for its acknowledgement
/// from then on, and acknowledges all that was received; so does one of the
/// backlog, whose bytes no longer wait there.
pub proof fn sent_frames_wait_for_their_acknowledgement(
    l: Link,
    now: UtcTime,
    slots: u16,
    size: usize,
)
    requires
        slots > 0,
        l.state.pending_bytes + size <= usize::MAX,
        l.queue_bytes >= size,
    ensures
        ({
            let (m, action) = sent_outcome(l, AfterSend::CountFrame(size), now);
            let o = tick_outcome(l, TickPhase::FlushSent { slots, size }, now);
            &&& action is Nothing
            &&& m.state.send_sn == (l.state.send_sn + 1) % 32768
            &&& m.state.ack_rcvsn == l.state.rcv_sn
            &&& m.state.pending.len() == l.state.pending.len() + 1
            &&& m.state.pending.drop_last() == l.state.pending
            &&& m.state.pending.last().seq == l.state.send_sn
            &&& m.state.pending.last().send_time == now
            &&& m.state.pending.last().size_bytes == size
            &&& m == Link {
                state: LinkState {
                    send_sn: m.state.send_sn,
                    ack_rcvsn: m.state.ack_rcvsn,
                    pending: m.state.pending,
                    pending_bytes: (l.state.pending_bytes + size) as usize,
                    ..l.state
                },
                ..l
            }
            &&& o.action is Nothing
            &&& o.link == Link { queue_bytes: (l.queue_bytes - size) as usize, ..m }
            &&& o.on_ok == TickPhase::FlushNext { slots: (slots - 1) as u16 }
        }),
{
    let m = sent_outcome(l, AfterSend::CountFrame(size), now).0;
    assert(m.state.pending.drop_last() =~= l.state.pending);
}

/// A kept item of low priority goes back to the requests once it is old
/// enough and nothing else waits.
pub proof fn kept_items_come_back(l: Link, now: UtcTime)
    requires
        l.state.last_low_prio_since matches Some(t) ==> not_ahead(t, now),
    ensures
        ({
            let o = tick_outcome(l, TickPhase::LowPrio, now);
            let back = l.queue.len() == 0 && l.config.low_prio_flush_max_age_ms > 0
                && l.state.last_low_prio is Some && (l.state.last_low_prio_since matches Some(t)
                && passed(t, now, l.config.low_prio_flush_max_age_ms));
            &&& back ==> o.action == ActionData::Requeue(l.state.last_low_prio->0)
            &&& back ==> o.link == Link {
                state: LinkState { last_low_prio: None, last_low_prio_since: None, ..l.state },
                ..l
            }
            &&& !back ==> o.action is Nothing && o.link == l
            &&& o.on_ok is T0
            &&& o.on_err is T0
        }),
{
    match l.state.last_low_prio_since {
        Some(t) => {
            time_is_counted_in_milliseconds(t, now);
        },
        None => {},
    }
}

/// The connection is left when t0 has passed since a start, a stop or a test
/// that is not confirmed, and then alone.
pub proof fn missing_confirmations_end_the_connection(l: Link, now: UtcTime)
    requires
        now.wf(),
        l.test_sent_since.wf(),
        l.start_sent_since.wf(),
        l.stop_sent_since.wf(),
    ensures
        ({
            let o = tick_outcome(l, TickPhase::T0, now);
            let leave = tick_outcome(l, TickPhase::Leave, now);
            let missing = |since: UtcTime|
                nanos_between(since, now) > -1_000_000 && passed(since, now, l.config.t0_ms);
            let missed = missing(l.test_sent_since) || missing(l.start_sent_since) || missing(
                l.stop_sent_since,
            );
            &&& o.action is Nothing
            &&& o.link == l
            &&& l.config.t0_ms > 0 ==> (o.on_ok is Leave <==> missed)
            &&& l.config.t0_ms > 0 ==> (o.on_ok is Done <==> !missed)
            &&& leave.action is Close
            &&& leave.link == l
        }),
{
}

/// The bytes of frames that wait, with those of a further frame.
pub open spec fn bytes_waiting(l: Link, asdu: Asdu) -> int {
    l.state.pending_bytes + l.queue_bytes + 12 + asdu@.raw.len()
}

/// An ASDU that the application asks to send goes out at once where data
/// transfer is started, it fits a frame of 255 bytes, the window has a free
/// slot and the byte budget is kept; it carries the next number and the number
/// that is due from the other station.
pub proof fn requested_asdus_are_sent(l: Link, asdu: Asdu, prio: Priority, now: UtcTime)
    requires
        l.state.send_sn < 32768,
        l.state.rcv_sn < 32768,
        l.lifecycle is Active,
        12 + asdu@.raw.len() <= 255,
        unacknowledged(l) < l.config.k_window,
        bytes_waiting(l, asdu) <= l.config.max_pending_asdu_bytes,
    ensures
        ({
            let o = asdu_outcome(l, asdu, prio, now);
            &&& o.action matches ActionData::Send(f) && f.encoded() == information_frame(
                asdu,
                l.state.send_sn as int,
                l.state.rcv_sn as int,
            )
            &&& o.link == l
            &&& o.after == AfterSend::CountFrame((12 + asdu@.raw.len()) as usize)
            &&& o.fatal
        }),
{
    lemma_information_frame(asdu, l.state.send_sn, l.state.rcv_sn);
}

/// Where it cannot go out at once: without data transfer it is dropped without
/// a word; one that fits no frame is dropped with a report; with a full window
/// one of high priority joins the backlog where that has room, else it is
/// dropped; where only the byte budget is spent it is dropped.
pub proof fn urgent_asdus_wait_or_are_dropped(l: Link, asdu: Asdu, now: UtcTime)
    ensures
        ({
            let o = asdu_outcome(l, asdu, Priority::High, now);
            let size = 12 + asdu@.raw.len();
            let full = unacknowledged(l) >= l.config.k_window;
            let over = bytes_waiting(l, asdu) > l.config.max_pending_asdu_bytes;
            let active = l.lifecycle is Active;
            let room = l.queue.len() < l.config.send_queue_capacity && !over;
            &&& !active ==> o.action is Nothing && o.link == l
            &&& active && size > 255 ==> o.action == ActionData::Emit(
                SessionEvent::FrameTooLargeDrop,
            ) && o.link == l
            &&& active && size <= 255 && full && room && bytes_waiting(l, asdu) <= usize::MAX ==> {
                &&& o.action is Nothing
                &&& o.link == Link {
                    queue: l.queue.push((asdu, size as usize)),
                    queue_bytes: (l.queue_bytes + size) as usize,
                    ..l
                }
            }
            &&& active && size <= 255 && full && !room && bytes_waiting(l, asdu) <= usize::MAX
                ==> o.action == ActionData::Emit(SessionEvent::WindowFullDrop) && o.link == l
            &&& active && size <= 255 && !full && over && bytes_waiting(l, asdu) <= usize::MAX
                ==> o.action == ActionData::Emit(SessionEvent::MemoryBudgetDrop) && o.link == l
        }),
{
}

/// With a full window one of low priority is dropped where the settings say
/// so, else it takes the place of the one that is kept where the settings say
/// so, else it joins the backlog where that has room; where only the byte
/// budget is spent it does not join the backlog.
pub proof fn other_asdus_are_dropped_or_kept(l: Link, asdu: Asdu, now: UtcTime)
    requires
        l.lifecycle is Active,
        12 + asdu@.raw.len() <= 255,
        bytes_waiting(l, asdu) <= usize::MAX,
        unacknowledged(l) >= l.config.k_window || bytes_waiting(l, asdu)
            > l.config.max_pending_asdu_bytes,
    ensures
        ({
            let o = asdu_outcome(l, asdu, Priority::Low, now);
            let size = 12 + asdu@.raw.len();
            let full = unacknowledged(l) >= l.config.k_window;
            let room = full && l.queue.len() < l.config.send_queue_capacity && bytes_waiting(l, asdu)
                <= l.config.max_pending_asdu_bytes;
            let dropped = if full {
                SessionEvent::WindowFullDrop
            } else {
                SessionEvent::MemoryBudgetDrop
            };
            let discard = l.config.discard_low_priority_when_window_full;
            let merge = l.config.merge_low_priority;
            &&& discard ==> o.action == ActionData::Emit(dropped) && o.link == l
            &&& !discard && merge ==> {
                &&& o.action == ActionData::Emit(SessionEvent::LowPriorityMerged)
                &&& o.link == Link {
                    state: LinkState {
                        last_low_prio: Some(asdu),
                        last_low_prio_since: Some(now),
                        ..l.state
                    },
                    ..l
                }
            }
            &&& !discard && !merge && room ==> {
                &&& o.action is Nothing
                &&& o.link == Link {
                    queue: l.queue.push((asdu, size as usize)),
                    queue_bytes: (l.queue_bytes + size) as usize,
                    ..l
                }
            }
            &&& !discard && !merge && !room ==> o.action == ActionData::Emit(dropped) && o.link == l
        }),
{
}

/// Control frames that the application asks for are sent as they are; a start
/// and a stop are timed from then on.
pub proof fn requested_control_frames_are_sent(
    l: Link,
    asdu: Asdu,
    prio: Priority,
    u: UApci,
    s: SApci,
    now: UtcTime,
)
    requires
        u.function % 4 == 0,
        s.rcv_sn < 32768,
    ensures
        request_outcome(l, Request::I(asdu, prio), now) == asdu_outcome(l, asdu, prio, now),
        ({
            let o = request_outcome(l, Request::U(u), now);
            &&& o.action matches ActionData::Send(f) && f.encoded() == short_frame(
                u.function + 3,
                0,
                0,
                0,
            )
            &&& o.after is Nothing
            &&& o.fatal
            &&& o.link == if u.function == 0x04 {
                Link { start_sent_since: now, ..l }
            } else if u.function == 0x10 {
                Link { stop_sent_since: now, ..l }
            } else {
                l
            }
        }),
        ({
            let o = request_outcome(l, Request::S(s), now);
            &&& o.action matches ActionData::Send(f) && f.encoded() == short_frame(
                1,
                0,
                2 * (s.rcv_sn % 128) as int,
                s.rcv_sn as int / 128,
            )
            &&& o.after is Nothing
            &&& o.fatal
            &&& o.link == l
        }),
{
}

/// Numbers of frames run from 0 to 32767 and start over.
pub proof fn numbers_start_over(a: u16, b: u16, x: u16)
    requires
        a < 32768,
        b < 32768,
        x < 32768,
    ensures
        seq_plus(a as int, 1) == if a == 32767 {
            0
        } else {
            a + 1
        },
        distance(a, b) == if a <= b {
            b - a
        } else {
            b + 32768 - a
        },
        a <= b ==> (in_range(a, b, x) <==> a <= x <= b),
        a > b ==> (in_range(a, b, x) <==> x >= a || x <= b),
        not_behind(a, b) <==> a <= b,
{
}

/// The bytes of frames that wait are added up and taken off, between 0 and
/// what can be counted.
pub proof fn sizes_are_added_up(a: usize, b: usize)
    ensures
        a + b <= usize::MAX ==> sat_plus(a, b) == a + b,
        a + b > usize::MAX ==> sat_plus(a, b) == usize::MAX,
        a >= b ==> sat_minus(a, b) == a - b,
        a < b ==> sat_minus(a, b) == 0,
{
}

proof fn lemma_information_frame(asdu: Asdu, send_sn: u16, rcv_sn: u16)
    requires
        send_sn < 32768,
        rcv_sn < 32768,
        12 + asdu@.raw.len() <= 255,
    ensures
        iframe(asdu@, send_sn, rcv_sn).encoded() == information_frame(
            asdu,
            send_sn as int,
            rcv_sn as int,
        ),
{
    assert(iframe(asdu@, send_sn, rcv_sn).encoded() =~= information_frame(
        asdu,
        send_sn as int,
        rcv_sn as int,
    ));
}

/// The sizes of waiting frames add up one by one, and frames that leave take
/// their bytes with them, down to none.
pub proof fn leaving_frames_free_their_bytes(s: LinkState, x: SeqPending, n: int)
    requires
        0 <= n <= s.pending.len(),
    ensures
        total_size(Seq::empty()) == 0,
        total_size(seq![x] + s.pending) == x.size_bytes + total_size(s.pending),
        s.without(n).pending == s.pending.skip(n),
        s.without(n).pending_bytes <= s.pending_bytes || total_size(s.pending.take(n)) < 0,
        s.pending_bytes >= total_size(s.pending.take(n)) >= 0 ==> s.without(n).pending_bytes
            + total_size(s.pending.take(n)) == s.pending_bytes,
        s.pending_bytes < total_size(s.pending.take(n)) ==> s.without(n).pending_bytes == 0,
        s.without(n).ack_sendsn == s.ack_sendsn,
        s.without(n).send_sn == s.send_sn,
{
    let all = seq![x] + s.pending;
    assert(all.skip(1) =~= s.pending);
}

} // verus!
