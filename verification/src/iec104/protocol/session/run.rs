//! A connection from its opening on: the frames that it writes and the ASDUs
//! that it hands to the application, step by step.

use super::super::frame::apci::{
    frame_numbers_are_read_back, iframe, kind_of, ApciKind, APDU_SIZE_MAX,
};
use super::super::frame::asdu::Asdu;
use super::super::frame::{Apdu, ApduData};
use super::duties::{
    information_frames_in_sequence_are_delivered, number_acknowledged, number_sent,
};
use super::link::{
    frame_outcome, opened, queued_ok, request_outcome, sent_outcome, slots_are_free, tick_outcome,
    ActionData, Link, Outcome, Request, TickPhase,
};
use super::state::{
    acknowledged_frames_leave, distance, giving_up_keeps_the_window, in_range,
    pending_is_unacknowledged, sending_keeps_the_window, LinkState, SessionConfig, SessionLifecycleState,
};
use crate::clock::UtcTime;
use crate::wire::lemma_le_bytes_len;
use vstd::prelude::*;

verus! {

/// An information frame that was written, the lifecycle state that it was
/// written in, and how many frames were written then and neither acknowledged
/// nor given up, this one among them.
pub struct Written {
    pub frame: ApduData,
    pub lifecycle: SessionLifecycleState,
    pub outstanding: int,
}

/// A connection as it runs: where its tick stands, the information frames that
/// it wrote, how many of them were acknowledged or given up, the ASDUs that it
/// handed to the application, and whether the loop is left.
pub struct Run {
    pub link: Link,
    pub phase: TickPhase,
    pub written: Seq<Written>,
    pub released: int,
    pub delivered: Seq<Asdu>,
    pub over: bool,
}

/// What happens to a connection. Sending what it asks for succeeds or fails;
/// `later` is the moment at which a frame is sent.
pub enum Step {
    /// The timer ticks.
    Tick,
    /// The tick goes on by a phase.
    Phase { now: UtcTime, ok: bool },
    /// The application asks for something.
    Request { req: Request, now: UtcTime, ok: bool, later: UtcTime },
    /// A frame comes in.
    Frame { apdu: Apdu, now: UtcTime, ok: bool, later: UtcTime },
}

/// A connection that has just been opened.
pub open spec fn started_run(config: SessionConfig, now: UtcTime, started: UtcTime) -> Run {
    Run {
        link: opened(config, now, started),
        phase: TickPhase::Done,
        written: Seq::empty(),
        released: 0,
        delivered: Seq::empty(),
        over: false,
    }
}

/// The frames written once an action is carried out: an information frame that
/// could be sent is a further one.
pub open spec fn written_with(r: Run, action: ActionData, ok: bool) -> Seq<Written> {
    match action {
        ActionData::Send(frame) => if ok && kind_of(frame.apci) is I {
            r.written.push(
                Written {
                    frame,
                    lifecycle: r.link.lifecycle,
                    outstanding: r.written.len() + 1 - r.released,
                },
            )
        } else {
            r.written
        },
        _ => r.written,
    }
}

/// The ASDUs handed over once an action is carried out.
pub open spec fn delivered_with(r: Run, action: ActionData) -> Seq<Asdu> {
    match action {
        ActionData::Deliver(asdu) => r.delivered.push(asdu),
        _ => r.delivered,
    }
}

/// How many frames an incoming frame acknowledges.
pub open spec fn acknowledged_by(l: Link, apdu: Apdu) -> int {
    match kind_of(apdu.apci) {
        ApciKind::I(i) => if in_range(l.state.ack_sendsn, l.state.send_sn, i.rcv_sn) {
            distance(l.state.ack_sendsn, i.rcv_sn)
        } else {
            0
        },
        ApciKind::S(s) => if in_range(l.state.ack_sendsn, l.state.send_sn, s.rcv_sn) {
            distance(l.state.ack_sendsn, s.rcv_sn)
        } else {
            0
        },
        ApciKind::U(u) => 0,
    }
}

/// A reaction is carried out.
pub open spec fn reacted(r: Run, o: Outcome, ok: bool, later: UtcTime) -> Run {
    Run {
        link: if o.action is Send && ok {
            sent_outcome(o.link, o.after, later).0
        } else {
            o.link
        },
        written: written_with(r, o.action, ok),
        delivered: delivered_with(r, o.action),
        over: o.action is Close || o.action is Send && !ok && o.fatal,
        ..r
    }
}

/// A step is taken. Requests and frames are looked at when no tick is under
/// way, and nothing happens once the loop is left.
pub open spec fn stepped(r: Run, step: Step) -> Run {
    if r.over {
        r
    } else if r.phase is Done {
        match step {
            Step::Tick => Run { phase: TickPhase::T1, ..r },
            Step::Phase { now, ok } => r,
            Step::Request { req, now, ok, later } => reacted(
                r,
                request_outcome(r.link, req, now),
                ok,
                later,
            ),
            Step::Frame { apdu, now, ok, later } => reacted(
                Run { released: r.released + acknowledged_by(r.link, apdu), ..r },
                frame_outcome(r.link, apdu, now),
                ok,
                later,
            ),
        }
    } else {
        match step {
            Step::Phase { now, ok } => {
                let o = tick_outcome(r.link, r.phase, now);
                Run {
                    link: o.link,
                    phase: if ok {
                        o.on_ok
                    } else {
                        o.on_err
                    },
                    written: written_with(r, o.action, ok),
                    released: r.released + if r.phase is T1 && r.link.state.is_overdue(
                        now,
                        r.link.config.t1_ms,
                    ) {
                        1int
                    } else {
                        0
                    },
                    delivered: delivered_with(r, o.action),
                    over: o.action is Close,
                }
            },
            _ => r,
        }
    }
}

/// A connection after some steps.
pub open spec fn run_after(
    config: SessionConfig,
    now: UtcTime,
    started: UtcTime,
    steps: Seq<Step>,
) -> Run
    decreases steps.len(),
{
    if steps.len() == 0 {
        started_run(config, now, started)
    } else {
        stepped(run_after(config, now, started, steps.drop_last()), steps.last())
    }
}

/// A frame that may have been written: it carries the number of its place, was
/// written while data transfer was started and within the window, and is no
/// longer than a frame may be.
pub open spec fn written_in_order(w: Written, place: int, k_window: u16) -> bool {
    &&& kind_of(w.frame.apci) matches ApciKind::I(i)
    &&& i.send_sn == place % 32768
    &&& w.lifecycle is Active
    &&& w.outstanding <= k_window
    &&& w.frame.encoded().len() <= APDU_SIZE_MAX
}

/// Information frames that are sent and counted: in the middle of a tick the
/// last one that was written is still to be counted.
pub open spec fn counted_frames(r: Run) -> int {
    r.written.len() - if r.phase is FlushSent {
        1int
    } else {
        0
    }
}

/// What every step of a connection keeps.
pub open spec fn run_ok(r: Run, config: SessionConfig) -> bool {
    let s = r.link.state;
    &&& r.link.config == config
    &&& s.rcv_sn < 32768
    &&& pending_is_unacknowledged(s)
    &&& s.inflight() <= config.k_window
    &&& slots_are_free(r.link, r.phase)
    &&& r.phase is FlushNext || r.phase is FlushSent ==> r.link.lifecycle is Active
    &&& forall|i: int| 0 <= i < r.link.queue.len() ==> queued_ok(#[trigger] r.link.queue[i])
    &&& 0 <= r.released <= counted_frames(r)
    &&& counted_frames(r) - r.released == s.inflight()
    &&& s.send_sn == counted_frames(r) % 32768
    &&& s.ack_sendsn == r.released % 32768
    &&& forall|j: int|
        0 <= j < r.written.len() ==> written_in_order(#[trigger] r.written[j], j, config.k_window)
}

proof fn lemma_frame_in_order(r: Run, config: SessionConfig, frame: ApduData)
    requires
        run_ok(r, config),
        !(r.phase is FlushSent),
        r.link.lifecycle is Active,
        r.link.state.inflight() < config.k_window,
        frame.asdu matches Some(a) && 12 + a.raw.len() <= APDU_SIZE_MAX && frame == iframe(
            a,
            r.link.state.send_sn,
            r.link.state.rcv_sn,
        ),
    ensures
        ({
            let w = written_with(r, ActionData::Send(frame), true);
            &&& w.len() == r.written.len() + 1
            &&& forall|j: int|
                0 <= j < w.len() ==> written_in_order(#[trigger] w[j], j, config.k_window)
        }),
{
    let a = frame.asdu->0;
    frame_numbers_are_read_back(a, r.link.state.send_sn, r.link.state.rcv_sn, 0);
    assert(frame.apci.encoded().len() == 6);
    lemma_le_bytes_len(a.identifier.common_addr as nat, 2);
    assert(frame.encoded().len() == 12 + a.raw.len());
}

proof fn lemma_counted(r: Run, config: SessionConfig, now: UtcTime, size: usize)
    requires
        config.k_window <= 32767,
        pending_is_unacknowledged(r.link.state),
        r.link.state.inflight() < config.k_window,
        r.link.state.send_sn == (r.released + r.link.state.inflight()) % 32768,
    ensures
        ({
            let t = r.link.frame_sent(now, size).state;
            &&& pending_is_unacknowledged(t)
            &&& t.inflight() == r.link.state.inflight() + 1
            &&& t.send_sn == (r.released + t.inflight()) % 32768
            &&& t.ack_sendsn == r.link.state.ack_sendsn
        }),
{
    let s = r.link.state;
    sending_keeps_the_window(s, now, size, config.k_window);
    let t = r.link.frame_sent(now, size).state;
    assert(t.pending == s.pushed(s.send_sn, now, size).pending);
}

proof fn lemma_request_step(
    r: Run,
    config: SessionConfig,
    req: Request,
    now: UtcTime,
    ok: bool,
    later: UtcTime,
)
    requires
        config.k_window <= 32767,
        run_ok(r, config),
        !r.over,
        r.phase is Done,
    ensures
        run_ok(stepped(r, Step::Request { req, now, ok, later }), config),
{
    let t = stepped(r, Step::Request { req, now, ok, later });
    let o = request_outcome(r.link, req, now);
    match req {
        Request::I(asdu, prio) => {
            match o.action {
                ActionData::Send(frame) => {
                    if ok {
                        lemma_frame_in_order(r, config, frame);
                        lemma_counted(r, config, later, (12 + asdu@.raw.len()) as usize);
                    }
                },
                _ => {},
            }
            assert forall|i: int| 0 <= i < t.link.queue.len() implies queued_ok(
                #[trigger] t.link.queue[i],
            ) by {
                if i < r.link.queue.len() {
                    assert(t.link.queue[i] == r.link.queue[i]);
                }
            }
        },
        _ => {},
    }
}

proof fn lemma_frame_step(
    r: Run,
    config: SessionConfig,
    apdu: Apdu,
    now: UtcTime,
    ok: bool,
    later: UtcTime,
)
    requires
        config.k_window <= 32767,
        run_ok(r, config),
        !r.over,
        r.phase is Done,
    ensures
        run_ok(stepped(r, Step::Frame { apdu, now, ok, later }), config),
{
    let s = r.link.state;
    match kind_of(apdu.apci) {
        ApciKind::I(i) => {
            if in_range(s.ack_sendsn, s.send_sn, i.rcv_sn) {
                lemma_acknowledged(r, i.rcv_sn, now);
            }
        },
        ApciKind::S(x) => {
            if in_range(s.ack_sendsn, s.send_sn, x.rcv_sn) {
                lemma_acknowledged(r, x.rcv_sn, now);
            }
        },
        _ => {},
    }
}

proof fn lemma_acknowledged(r: Run, ack: u16, now: UtcTime)
    requires
        pending_is_unacknowledged(r.link.state),
        r.link.state.ack_sendsn == r.released % 32768,
        ack < 32768,
        in_range(r.link.state.ack_sendsn, r.link.state.send_sn, ack),
    ensures
        ({
            let s = LinkState { idle_since: now, ..r.link.state };
            let n = distance(s.ack_sendsn, ack);
            &&& pending_is_unacknowledged(s.acked(ack))
            &&& 0 <= n <= r.link.state.inflight()
            &&& s.acked(ack).inflight() == r.link.state.inflight() - n
            &&& s.acked(ack).ack_sendsn == (r.released + n) % 32768
        }),
{
    let s = LinkState { idle_since: now, ..r.link.state };
    acknowledged_frames_leave(s, ack);
}

proof fn lemma_given_up(s: LinkState, released: int, now: UtcTime, t1_ms: u64)
    requires
        pending_is_unacknowledged(s),
        s.ack_sendsn == released % 32768,
    ensures
        ({
            let t = s.checked_t1(now, t1_ms);
            let n = if s.is_overdue(now, t1_ms) {
                1int
            } else {
                0
            };
            &&& pending_is_unacknowledged(t)
            &&& n <= s.inflight()
            &&& t.inflight() == s.inflight() - n
            &&& t.ack_sendsn == (released + n) % 32768
            &&& t.send_sn == s.send_sn
            &&& t.rcv_sn == s.rcv_sn
        }),
{
    giving_up_keeps_the_window(s, now, t1_ms);
}

proof fn lemma_overdue_step(r: Run, config: SessionConfig, now: UtcTime, ok: bool)
    requires
        config.k_window <= 32767,
        run_ok(r, config),
        !r.over,
        r.phase is T1,
    ensures
        run_ok(stepped(r, Step::Phase { now, ok }), config),
{
    lemma_given_up(r.link.state, r.released, now, r.link.config.t1_ms);
    let t = stepped(r, Step::Phase { now, ok });
    assert(t.written == r.written);
    assert(t.link.queue == r.link.queue);
}

proof fn lemma_flush_step(r: Run, config: SessionConfig, now: UtcTime, ok: bool)
    requires
        config.k_window <= 32767,
        run_ok(r, config),
        !r.over,
        r.phase is FlushNext,
    ensures
        run_ok(stepped(r, Step::Phase { now, ok }), config),
{
    let t = stepped(r, Step::Phase { now, ok });
    let slots = r.phase->FlushNext_slots;
    if slots > 0 && r.link.queue.len() > 0 {
        assert(queued_ok(r.link.queue[0]));
        assert forall|i: int| 0 <= i < t.link.queue.len() implies queued_ok(
            #[trigger] t.link.queue[i],
        ) by {
            assert(t.link.queue[i] == r.link.queue[i + 1]);
        }
        if ok {
            lemma_frame_in_order(
                r,
                config,
                iframe(r.link.queue[0].0@, r.link.state.send_sn, r.link.state.rcv_sn),
            );
        }
    }
}

proof fn lemma_flushed_step(r: Run, config: SessionConfig, now: UtcTime, ok: bool)
    requires
        config.k_window <= 32767,
        run_ok(r, config),
        !r.over,
        r.phase is FlushSent,
    ensures
        run_ok(stepped(r, Step::Phase { now, ok }), config),
{
    lemma_counted(r, config, now, r.phase->FlushSent_size);
}

proof fn lemma_other_step(r: Run, config: SessionConfig, now: UtcTime, ok: bool)
    requires
        config.k_window <= 32767,
        run_ok(r, config),
        !r.over,
        !(r.phase is T1 || r.phase is FlushNext || r.phase is FlushSent || r.phase is Done),
    ensures
        run_ok(stepped(r, Step::Phase { now, ok }), config),
{
    let t = stepped(r, Step::Phase { now, ok });
    assert(t.link.state.pending == r.link.state.pending);
    assert(t.written == r.written);
    assert(t.link.queue == r.link.queue);
}

proof fn lemma_step(r: Run, config: SessionConfig, step: Step)
    requires
        config.k_window <= 32767,
        run_ok(r, config),
    ensures
        run_ok(stepped(r, step), config),
{
    if !r.over {
        if r.phase is Done {
            match step {
                Step::Request { req, now, ok, later } => lemma_request_step(
                    r,
                    config,
                    req,
                    now,
                    ok,
                    later,
                ),
                Step::Frame { apdu, now, ok, later } => lemma_frame_step(
                    r,
                    config,
                    apdu,
                    now,
                    ok,
                    later,
                ),
                _ => {},
            }
        } else {
            match step {
                Step::Phase { now, ok } => match r.phase {
                    TickPhase::T1 => lemma_overdue_step(r, config, now, ok),
                    TickPhase::FlushNext { .. } => lemma_flush_step(r, config, now, ok),
                    TickPhase::FlushSent { .. } => lemma_flushed_step(r, config, now, ok),
                    _ => lemma_other_step(r, config, now, ok),
                },
                _ => {},
            }
        }
    }
}

proof fn lemma_run(config: SessionConfig, now: UtcTime, started: UtcTime, steps: Seq<Step>)
    requires
        config.k_window <= 32767,
    ensures
        run_ok(run_after(config, now, started, steps), config),
    decreases steps.len(),
{
    if steps.len() > 0 {
        lemma_run(config, now, started, steps.drop_last());
        lemma_step(run_after(config, now, started, steps.drop_last()), config, steps.last());
    }
}

/// Whatever happens to a connection, the information frames that it writes are
/// numbered from 0 on around 32768, one after the other; each is written while
/// data transfer is started and is no longer than a frame may be; and when one
/// is written, and at any time after, no more frames than the window holds are
/// written and neither acknowledged nor given up.
pub proof fn frames_of_a_run_are_in_order_and_within_the_window(
    config: SessionConfig,
    now: UtcTime,
    started: UtcTime,
    steps: Seq<Step>,
    j: int,
)
    requires
        config.k_window <= 32767,
        0 <= j < run_after(config, now, started, steps).written.len(),
    ensures
        ({
            let r = run_after(config, now, started, steps);
            let w = r.written[j];
            &&& kind_of(w.frame.apci) matches ApciKind::I(i) && i.send_sn == j % 32768
            &&& w.lifecycle is Active
            &&& w.frame.encoded().len() <= 255
            &&& w.outstanding <= config.k_window
            &&& r.written.len() - r.released <= config.k_window
        }),
{
    lemma_run(config, now, started, steps);
    let r = run_after(config, now, started, steps);
    assert(written_in_order(r.written[j], j, config.k_window));
}

/// A frame is an information frame in sequence: it is looked at, its number
/// follows those of the `accepted` frames before it, and it acknowledges no
/// frame twice and none that was not written.
pub open spec fn in_sequence(r: Run, apdu: Apdu, accepted: int) -> bool {
    &&& !r.over
    &&& r.phase is Done
    &&& apdu.apci.ctrl1 % 2 == 0
    &&& number_sent(apdu) == accepted % 32768
    &&& (number_acknowledged(apdu) - r.released) % 32768 <= r.written.len() - r.released
}

/// Number of information frames that came in in sequence.
pub open spec fn frames_in_sequence(
    config: SessionConfig,
    now: UtcTime,
    started: UtcTime,
    steps: Seq<Step>,
) -> int
    decreases steps.len(),
{
    if steps.len() == 0 {
        0
    } else {
        let n = frames_in_sequence(config, now, started, steps.drop_last());
        match steps.last() {
            Step::Frame { apdu, now: at, ok, later } => if in_sequence(
                run_after(config, now, started, steps.drop_last()),
                apdu,
                n,
            ) {
                n + 1
            } else {
                n
            },
            _ => n,
        }
    }
}

/// The ASDUs of the information frames that came in in sequence, in order.
pub open spec fn asdus_in_sequence(
    config: SessionConfig,
    now: UtcTime,
    started: UtcTime,
    steps: Seq<Step>,
) -> Seq<Asdu>
    decreases steps.len(),
{
    if steps.len() == 0 {
        Seq::empty()
    } else {
        let front = steps.drop_last();
        let before = asdus_in_sequence(config, now, started, front);
        match steps.last() {
            Step::Frame { apdu, now: at, ok, later } => if apdu.asdu is Some && in_sequence(
                run_after(config, now, started, front),
                apdu,
                frames_in_sequence(config, now, started, front),
            ) {
                before.push(apdu.asdu->0)
            } else {
                before
            },
            _ => before,
        }
    }
}

proof fn lemma_frame_delivers(
    r: Run,
    config: SessionConfig,
    apdu: Apdu,
    now: UtcTime,
    ok: bool,
    later: UtcTime,
    accepted: int,
)
    requires
        run_ok(r, config),
        !r.over,
        r.phase is Done,
        r.link.state.rcv_sn == accepted % 32768,
    ensures
        ({
            let t = stepped(r, Step::Frame { apdu, now, ok, later });
            if in_sequence(r, apdu, accepted) {
                &&& t.link.state.rcv_sn == (accepted + 1) % 32768
                &&& t.delivered == match apdu.asdu {
                    Some(a) => r.delivered.push(a),
                    None => r.delivered,
                }
                &&& !t.over
            } else {
                &&& t.link.state.rcv_sn == r.link.state.rcv_sn
                &&& t.delivered == r.delivered
                &&& apdu.apci.ctrl1 % 2 == 0 ==> t.over
            }
        }),
{
    if apdu.apci.ctrl1 % 2 == 0 {
        information_frames_in_sequence_are_delivered(r.link, apdu, now);
        let n = number_acknowledged(apdu);
        lemma_same_window(n, r.link.state.ack_sendsn as int, r.released);
        assert(r.link.state.inflight() == r.written.len() - r.released);
        lemma_next_number(r.link.state.rcv_sn as int, accepted);
    } else {
        lemma_other_frame(r.link, apdu, now);
    }
}

proof fn lemma_same_window(n: int, ack: int, released: int)
    requires
        ack == released % 32768,
    ensures
        (n - ack) % 32768 == (n - released) % 32768,
{
}

proof fn lemma_next_number(sn: int, accepted: int)
    requires
        sn == accepted % 32768,
    ensures
        (sn + 1) % 32768 == (accepted + 1) % 32768,
{
}

proof fn lemma_other_frame(l: Link, apdu: Apdu, now: UtcTime)
    requires
        apdu.apci.ctrl1 % 2 != 0,
    ensures
        ({
            let o = frame_outcome(l, apdu, now);
            &&& !(o.action is Deliver)
            &&& o.link.state.rcv_sn == l.state.rcv_sn
            &&& !(o.after is CountFrame)
        }),
{
}

/// Whatever happens to a connection, the application gets the ASDUs of all
/// information frames that come in in sequence, in their order and none left
/// out, and nothing else; and the number that the connection acknowledges is
/// the number of these frames around 32768.
pub proof fn every_asdu_in_sequence_is_delivered(
    config: SessionConfig,
    now: UtcTime,
    started: UtcTime,
    steps: Seq<Step>,
)
    requires
        config.k_window <= 32767,
    ensures
        ({
            let r = run_after(config, now, started, steps);
            &&& r.delivered == asdus_in_sequence(config, now, started, steps)
            &&& r.link.state.rcv_sn == frames_in_sequence(config, now, started, steps) % 32768
        }),
    decreases steps.len(),
{
    if steps.len() > 0 {
        let front = steps.drop_last();
        every_asdu_in_sequence_is_delivered(config, now, started, front);
        lemma_run(config, now, started, front);
        let r = run_after(config, now, started, front);
        let n = frames_in_sequence(config, now, started, front);
        match steps.last() {
            Step::Frame { apdu, now: at, ok, later } => {
                if !r.over && r.phase is Done {
                    lemma_frame_delivers(r, config, apdu, at, ok, later, n);
                }
            },
            Step::Request { req, now: at, ok, later } => {},
            Step::Phase { now: at, ok } => {},
            Step::Tick => {},
        }
    }
}

/// An information frame that is not in sequence ends the connection, and
/// nothing of it reaches the application.
pub proof fn frames_out_of_sequence_end_a_run(
    config: SessionConfig,
    now: UtcTime,
    started: UtcTime,
    steps: Seq<Step>,
    apdu: Apdu,
    at: UtcTime,
    ok: bool,
    later: UtcTime,
)
    requires
        config.k_window <= 32767,
        apdu.apci.ctrl1 % 2 == 0,
        !run_after(config, now, started, steps).over,
        run_after(config, now, started, steps).phase is Done,
        !in_sequence(
            run_after(config, now, started, steps),
            apdu,
            frames_in_sequence(config, now, started, steps),
        ),
    ensures
        ({
            let r = run_after(config, now, started, steps);
            let t = run_after(
                config,
                now,
                started,
                steps.push(Step::Frame { apdu, now: at, ok, later }),
            );
            t.over && t.delivered == r.delivered
        }),
{
    let r = run_after(config, now, started, steps);
    let step = Step::Frame { apdu, now: at, ok, later };
    lemma_run(config, now, started, steps);
    every_asdu_in_sequence_is_delivered(config, now, started, steps);
    lemma_frame_delivers(
        r,
        config,
        apdu,
        at,
        ok,
        later,
        frames_in_sequence(config, now, started, steps),
    );
    assert(steps.push(step).drop_last() =~= steps);
    assert(steps.push(step).last() == step);
}

} // verus!
