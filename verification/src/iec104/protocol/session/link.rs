//! Decisions of the connection loop. The loop waits for a timer tick, a
//! request or a frame, hands it over here, and carries out what comes back.

use super::super::frame::apci::{
    iframe, iframe_size, kind_of, new_iframe, new_sframe, new_uframe, sframe, uframe, ApciKind,
    SApci, UApci, APDU_SIZE_MAX, U_STARTDT_ACTIVE, U_STARTDT_CONFIRM, U_STOPDT_ACTIVE,
    U_STOPDT_CONFIRM, U_TESTFR_ACTIVE, U_TESTFR_CONFIRM,
};
use super::super::frame::asdu::Asdu;
use super::super::frame::{Apdu, ApduData};
use super::state::{
    distance, in_range, sat_minus, sat_plus, seq_plus, LinkState,
    SessionConfig, SessionEvent, SessionLifecycleState, SessionState,
};
use crate::clock::{elapsed, elapsed_ms, max_utc, millis_from, millis_since, never, UtcTime};
use crate::wire::bytes_as_slice;
use std::collections::VecDeque;
use vstd::prelude::*;

verus! {

/// How urgent a request is.
#[derive(Debug, Clone, Copy, PartialEq, Eq, Structural)]
pub enum Priority {
    High,
    Low,
}

/// What the application asks the session to send.
#[derive(Debug, Clone)]
pub enum Request {
    I(Asdu, Priority),
    U(UApci),
    S(SApci),
}

/// What the connection loop has to do.
pub enum Action {
    /// Nothing.
    Nothing,
    /// Report an event.
    Emit(SessionEvent),
    /// Enter a lifecycle state and report it.
    Enter(SessionLifecycleState),
    /// Send a frame.
    Send(Apdu),
    /// Hand an ASDU to the application.
    Deliver(Asdu),
    /// Put an ASDU back into the request queue, with low priority.
    Requeue(Asdu),
    /// Leave the loop.
    Close,
}

/// An action as mathematical data.
pub enum ActionData {
    Nothing,
    Emit(SessionEvent),
    Enter(SessionLifecycleState),
    Send(ApduData),
    Deliver(Asdu),
    Requeue(Asdu),
    Close,
}

impl View for Action {
    type V = ActionData;

    open spec fn view(&self) -> ActionData {
        match self {
            Action::Nothing => ActionData::Nothing,
            Action::Emit(e) => ActionData::Emit(*e),
            Action::Enter(s) => ActionData::Enter(*s),
            Action::Send(f) => ActionData::Send(f@),
            Action::Deliver(a) => ActionData::Deliver(*a),
            Action::Requeue(a) => ActionData::Requeue(*a),
            Action::Close => ActionData::Close,
        }
    }
}

/// A connection: link state, backlog and timers.
pub struct Connection {
    pub config: SessionConfig,
    pub state: SessionState,
    /// ASDUs that wait for a free slot of the window, with their frame sizes.
    pub hi_queue: VecDeque<(Asdu, usize)>,
    pub hi_queue_bytes: usize,
    pub test_sent_since: UtcTime,
    pub start_sent_since: UtcTime,
    pub stop_sent_since: UtcTime,
    pub lifecycle: SessionLifecycleState,
}

/// A connection as mathematical data.
pub struct Link {
    pub config: SessionConfig,
    pub state: LinkState,
    pub queue: Seq<(Asdu, usize)>,
    pub queue_bytes: usize,
    pub test_sent_since: UtcTime,
    pub start_sent_since: UtcTime,
    pub stop_sent_since: UtcTime,
    pub lifecycle: SessionLifecycleState,
}

impl View for Connection {
    type V = Link;

    open spec fn view(&self) -> Link {
        Link {
            config: self.config,
            state: self.state@,
            queue: self.hi_queue@,
            queue_bytes: self.hi_queue_bytes,
            test_sent_since: self.test_sent_since,
            start_sent_since: self.start_sent_since,
            stop_sent_since: self.stop_sent_since,
            lifecycle: self.lifecycle,
        }
    }
}

/// A waiting ASDU fits a frame, and its frame size is known.
pub open spec fn queued_ok(x: (Asdu, usize)) -> bool {
    x.1 == iframe_size(x.0@) && x.1 <= APDU_SIZE_MAX
}

impl Link {
    /// The timers stand at moments, the numbers are numbers of frames, and the
    /// backlog keeps its capacity.
    pub open spec fn wf(self) -> bool {
        &&& self.state.wf()
        &&& self.state.send_sn < 32768
        &&& self.state.rcv_sn < 32768
        &&& self.test_sent_since.wf()
        &&& self.start_sent_since.wf()
        &&& self.stop_sent_since.wf()
        &&& forall|i: int| 0 <= i < self.queue.len() ==> queued_ok(#[trigger] self.queue[i])
        &&& self.queue.len() <= self.config.send_queue_capacity
    }

    /// The bytes of frames that wait, with a further frame.
    pub open spec fn bytes_with(self, size: usize) -> usize {
        sat_plus(sat_plus(self.state.pending_bytes, self.queue_bytes), size)
    }

    /// The backlog takes a further frame.
    pub open spec fn has_room(self, size: usize) -> bool {
        self.queue.len() < self.config.send_queue_capacity && self.bytes_with(size)
            <= self.config.max_pending_asdu_bytes
    }

    /// A frame of this size has been sent: it waits for its acknowledgement,
    /// it acknowledged what was received, and the next number is due.
    pub open spec fn frame_sent(self, now: UtcTime, size: usize) -> Link {
        Link {
            state: LinkState {
                ack_rcvsn: self.state.rcv_sn,
                send_sn: seq_plus(self.state.send_sn as int, 1) as u16,
                ..self.state.pushed(self.state.send_sn, now, size)
            },
            ..self
        }
    }

    /// An ASDU has been put into the backlog.
    pub open spec fn queued(self, asdu: Asdu, size: usize) -> Link {
        Link {
            queue: self.queue.push((asdu, size)),
            queue_bytes: sat_plus(self.queue_bytes, size),
            ..self
        }
    }

    /// An ASDU has been kept as the last one of low priority.
    pub open spec fn kept(self, asdu: Asdu, now: UtcTime) -> Link {
        Link {
            state: LinkState {
                last_low_prio: Some(asdu),
                last_low_prio_since: Some(now),
                ..self.state
            },
            ..self
        }
    }

    /// A confirmation that was waited for has not come in time.
    pub open spec fn confirm_overdue(self, now: UtcTime) -> bool {
        ||| late(self.test_sent_since, now, self.config.t0_ms)
        ||| late(self.start_sent_since, now, self.config.t0_ms)
        ||| late(self.stop_sent_since, now, self.config.t0_ms)
    }
}

/// A moment lies at least so many milliseconds back.
pub open spec fn late(since: UtcTime, now: UtcTime, limit_ms: u64) -> bool {
    millis_from(since, now) >= 0 && millis_from(since, now) >= limit_ms
}

fn is_late(since: &UtcTime, now: &UtcTime, limit_ms: u64) -> (r: bool)
    requires
        since.wf(),
        now.wf(),
    ensures
        r == late(*since, *now, limit_ms),
{
    let ms: i64 = millis_since(now, since);
    ms >= 0 && ms as u64 >= limit_ms
}

/// A connection that has just been opened.
pub open spec fn opened(config: SessionConfig, now: UtcTime, started: UtcTime) -> Link {
    Link {
        config,
        state: LinkState {
            send_sn: 0,
            ack_sendsn: 0,
            rcv_sn: 0,
            ack_rcvsn: 0,
            idle_since: now,
            test_sent_since: never(),
            start_sent_since: never(),
            stop_sent_since: never(),
            unacked_rcv_since: never(),
            consecutive_t1_timeouts: 0,
            pending: Seq::empty(),
            pending_bytes: 0,
            last_low_prio: None,
            last_low_prio_since: None,
        },
        queue: Seq::empty(),
        queue_bytes: 0,
        test_sent_since: never(),
        start_sent_since: started,
        stop_sent_since: never(),
        lifecycle: SessionLifecycleState::Inactive,
    }
}

/// Where the work of a tick stands.
#[derive(Clone, Copy, PartialEq, Eq, Structural)]
pub enum TickPhase {
    /// Look for an overdue frame.
    T1,
    /// Test the connection if it is idle.
    T3,
    /// The test frame is sent.
    T3Sent,
    /// Acknowledge what was received.
    Ack,
    /// See whether the backlog can be sent.
    Flush,
    /// Send the next of the backlog into so many free slots.
    FlushNext { slots: u16 },
    /// A frame of the backlog of this size is sent.
    FlushSent { slots: u16, size: usize },
    /// Put a kept low-priority item back into the queue.
    LowPrio,
    /// Look for an overdue confirmation.
    T0,
    /// Leave the loop.
    Leave,
    /// The tick is done.
    Done,
}

/// The outcome of a phase: the link, what to do, and the phase that follows
/// when it succeeds or fails.
pub struct TickOutcome {
    pub link: Link,
    pub action: ActionData,
    pub on_ok: TickPhase,
    pub on_err: TickPhase,
}

/// Nothing to do; the tick goes on.
pub open spec fn go_on(link: Link, next: TickPhase) -> TickOutcome {
    TickOutcome { link, action: ActionData::Nothing, on_ok: next, on_err: next }
}

/// The outcome of a phase of a tick.
pub open spec fn tick_outcome(l: Link, phase: TickPhase, now: UtcTime) -> TickOutcome {
    match phase {
        TickPhase::T1 => {
            let link = Link { state: l.state.checked_t1(now, l.config.t1_ms), ..l };
            if l.state.is_overdue(now, l.config.t1_ms) {
                let next = if link.state.consecutive_t1_timeouts >= 5 {
                    TickPhase::Leave
                } else {
                    TickPhase::T3
                };
                TickOutcome {
                    link,
                    action: ActionData::Emit(SessionEvent::T1Timeout),
                    on_ok: next,
                    on_err: next,
                }
            } else {
                go_on(link, TickPhase::T3)
            }
        },
        TickPhase::T3 => if elapsed(l.state.idle_since, now) >= l.config.t3_ms {
            TickOutcome {
                link: Link { test_sent_since: now, ..l },
                action: ActionData::Send(uframe(U_TESTFR_ACTIVE)),
                on_ok: TickPhase::T3Sent,
                on_err: TickPhase::Done,
            }
        } else {
            go_on(l, TickPhase::Ack)
        },
        TickPhase::T3Sent => go_on(
            Link { state: LinkState { idle_since: now, ..l.state }, ..l },
            TickPhase::Ack,
        ),
        TickPhase::Ack => if l.state.owes_ack(now, l.config.t2_ms, l.config.w_threshold) {
            TickOutcome {
                link: Link { state: LinkState { ack_rcvsn: l.state.rcv_sn, ..l.state }, ..l },
                action: ActionData::Send(sframe(l.state.rcv_sn)),
                on_ok: TickPhase::Flush,
                on_err: TickPhase::Flush,
            }
        } else {
            go_on(l, TickPhase::Flush)
        },
        TickPhase::Flush => if l.lifecycle is Active && l.state.inflight() < l.config.k_window {
            go_on(
                l,
                TickPhase::FlushNext { slots: (l.config.k_window - l.state.inflight()) as u16 },
            )
        } else {
            go_on(l, TickPhase::T0)
        },
        TickPhase::FlushNext { slots } => if slots > 0 && l.queue.len() > 0 {
            TickOutcome {
                link: Link { queue: l.queue.skip(1), ..l },
                action: ActionData::Send(
                    iframe(l.queue[0].0@, l.state.send_sn, l.state.rcv_sn),
                ),
                on_ok: TickPhase::FlushSent { slots, size: l.queue[0].1 },
                on_err: TickPhase::LowPrio,
            }
        } else {
            go_on(l, TickPhase::LowPrio)
        },
        TickPhase::FlushSent { slots, size } => go_on(
            Link {
                queue_bytes: sat_minus(l.queue_bytes, size),
                ..l.frame_sent(now, size)
            },
            TickPhase::FlushNext { slots: (slots - 1) as u16 },
        ),
        TickPhase::LowPrio => if l.queue.len() == 0 && l.config.low_prio_flush_max_age_ms > 0
            && l.state.low_prio_is_old(now, l.config.low_prio_flush_max_age_ms) {
            TickOutcome {
                link: Link {
                    state: LinkState {
                        last_low_prio: None,
                        last_low_prio_since: None,
                        ..l.state
                    },
                    ..l
                },
                action: ActionData::Requeue(l.state.last_low_prio->0),
                on_ok: TickPhase::T0,
                on_err: TickPhase::T0,
            }
        } else {
            go_on(l, TickPhase::T0)
        },
        TickPhase::T0 => if l.confirm_overdue(now) {
            go_on(l, TickPhase::Leave)
        } else {
            go_on(l, TickPhase::Done)
        },
        TickPhase::Leave => TickOutcome {
            link: l,
            action: ActionData::Close,
            on_ok: TickPhase::Done,
            on_err: TickPhase::Done,
        },
        TickPhase::Done => go_on(l, TickPhase::Done),
    }
}

/// A phase of a tick as the loop meets it: a frame that was sent took a slot.
pub open spec fn phase_ok(phase: TickPhase) -> bool {
    phase matches TickPhase::FlushSent { slots, size } ==> slots > 0
}

/// What to do in a phase of a tick, and how it goes on.
pub struct TickStep {
    pub action: Action,
    pub on_ok: TickPhase,
    pub on_err: TickPhase,
}

fn proceed(next: TickPhase) -> (r: TickStep)
    ensures
        r.action@ == ActionData::Nothing,
        r.on_ok == next,
        r.on_err == next,
{
    TickStep { action: Action::Nothing, on_ok: next, on_err: next }
}

/// What becomes of a connection when a frame that it asked for is sent.
#[derive(Clone, Copy, PartialEq, Eq, Structural)]
pub enum AfterSend {
    Nothing,
    /// An information frame of this size waits for its acknowledgement.
    CountFrame(usize),
    /// Data transfer is started.
    BecomeActive,
    /// Data transfer is stopped.
    BecomeInactive,
}

/// What to do, and what follows when a frame is sent; where sending fails, the
/// loop is left if the failure is fatal.
pub struct Reaction {
    pub action: Action,
    pub after: AfterSend,
    pub fatal: bool,
}

/// A reaction as mathematical data, with the link behind it.
pub struct Outcome {
    pub link: Link,
    pub action: ActionData,
    pub after: AfterSend,
    pub fatal: bool,
}

/// A reaction that sends nothing.
pub open spec fn react(link: Link, action: ActionData) -> Outcome {
    Outcome { link, action, after: AfterSend::Nothing, fatal: false }
}

/// What becomes of an ASDU that the application asks to send. It is dropped
/// while data transfer is not started and where it fits no frame. Where the
/// window is full it waits in the backlog, is kept, or is dropped, by its
/// priority; where the byte budget is spent it is kept or dropped; else it is
/// sent.
pub open spec fn asdu_outcome(l: Link, asdu: Asdu, prio: Priority, now: UtcTime) -> Outcome {
    let size = iframe_size(asdu@) as usize;
    let low_outcome = |dropped: SessionEvent, may_queue: bool| -> Outcome {
        if l.config.discard_low_priority_when_window_full {
            react(l, ActionData::Emit(dropped))
        } else if l.config.merge_low_priority {
            react(l.kept(asdu, now), ActionData::Emit(SessionEvent::LowPriorityMerged))
        } else if may_queue && l.has_room(size) {
            react(l.queued(asdu, size), ActionData::Nothing)
        } else {
            react(l, ActionData::Emit(dropped))
        }
    };
    if !(l.lifecycle is Active) {
        react(l, ActionData::Nothing)
    } else if iframe_size(asdu@) > APDU_SIZE_MAX {
        react(l, ActionData::Emit(SessionEvent::FrameTooLargeDrop))
    } else if l.state.inflight() >= l.config.k_window {
        match prio {
            Priority::High => if l.has_room(size) {
                react(l.queued(asdu, size), ActionData::Nothing)
            } else {
                react(l, ActionData::Emit(SessionEvent::WindowFullDrop))
            },
            Priority::Low => low_outcome(SessionEvent::WindowFullDrop, true),
        }
    } else if l.bytes_with(size) > l.config.max_pending_asdu_bytes {
        match prio {
            Priority::High => react(l, ActionData::Emit(SessionEvent::MemoryBudgetDrop)),
            Priority::Low => low_outcome(SessionEvent::MemoryBudgetDrop, false),
        }
    } else {
        Outcome {
            link: l,
            action: ActionData::Send(iframe(asdu@, l.state.send_sn, l.state.rcv_sn)),
            after: AfterSend::CountFrame(size),
            fatal: true,
        }
    }
}

/// What becomes of a request of the application.
pub open spec fn request_outcome(l: Link, req: Request, now: UtcTime) -> Outcome {
    match req {
        Request::I(asdu, prio) => asdu_outcome(l, asdu, prio, now),
        Request::U(u) => Outcome {
            link: if u.function == U_STARTDT_ACTIVE {
                Link { start_sent_since: now, ..l }
            } else if u.function == U_STOPDT_ACTIVE {
                Link { stop_sent_since: now, ..l }
            } else {
                l
            },
            action: ActionData::Send(uframe(u.function)),
            after: AfterSend::Nothing,
            fatal: true,
        },
        Request::S(s) => Outcome {
            link: l,
            action: ActionData::Send(sframe(s.rcv_sn)),
            after: AfterSend::Nothing,
            fatal: true,
        },
    }
}

/// A reply to an unnumbered frame; a failure to send it is no reason to leave.
pub open spec fn reply(link: Link, function: u8, after: AfterSend) -> Outcome {
    Outcome { link, action: ActionData::Send(uframe(function)), after, fatal: false }
}

/// What becomes of a frame that comes in.
pub open spec fn frame_outcome(l0: Link, apdu: Apdu, now: UtcTime) -> Outcome {
    let l = Link { state: LinkState { idle_since: now, ..l0.state }, ..l0 };
    match kind_of(apdu.apci) {
        ApciKind::I(i) => if !in_range(l.state.ack_sendsn, l.state.send_sn, i.rcv_sn) {
            react(l, ActionData::Close)
        } else {
            let acked = l.state.acked(i.rcv_sn);
            if i.send_sn != acked.rcv_sn {
                react(Link { state: acked, ..l }, ActionData::Close)
            } else {
                let marked = if acked.ack_rcvsn == acked.rcv_sn {
                    LinkState { unacked_rcv_since: now, ..acked }
                } else {
                    acked
                };
                let advanced = LinkState {
                    rcv_sn: seq_plus(marked.rcv_sn as int, 1) as u16,
                    ..marked
                };
                react(
                    Link { state: advanced, ..l },
                    match apdu.asdu {
                        Some(a) => ActionData::Deliver(a),
                        None => ActionData::Nothing,
                    },
                )
            }
        },
        ApciKind::S(s) => if in_range(l.state.ack_sendsn, l.state.send_sn, s.rcv_sn) {
            react(Link { state: l.state.acked(s.rcv_sn), ..l }, ActionData::Nothing)
        } else {
            react(l, ActionData::Close)
        },
        ApciKind::U(u) => if u.function == U_STARTDT_CONFIRM {
            react(
                Link {
                    start_sent_since: never(),
                    lifecycle: SessionLifecycleState::Active,
                    ..l
                },
                ActionData::Enter(SessionLifecycleState::Active),
            )
        } else if u.function == U_STOPDT_CONFIRM {
            react(
                Link {
                    stop_sent_since: never(),
                    lifecycle: SessionLifecycleState::Inactive,
                    ..l
                },
                ActionData::Enter(SessionLifecycleState::Inactive),
            )
        } else if u.function == U_TESTFR_CONFIRM {
            react(Link { test_sent_since: never(), ..l }, ActionData::Nothing)
        } else if u.function == U_STARTDT_ACTIVE {
            reply(l, U_STARTDT_CONFIRM, AfterSend::BecomeActive)
        } else if u.function == U_STOPDT_ACTIVE {
            reply(l, U_STOPDT_CONFIRM, AfterSend::BecomeInactive)
        } else if u.function == U_TESTFR_ACTIVE {
            reply(l, U_TESTFR_CONFIRM, AfterSend::Nothing)
        } else {
            react(l, ActionData::Nothing)
        },
    }
}

/// What becomes of a connection when a frame that it asked for is sent.
pub open spec fn sent_outcome(l: Link, after: AfterSend, now: UtcTime) -> (Link, ActionData) {
    match after {
        AfterSend::Nothing => (l, ActionData::Nothing),
        AfterSend::CountFrame(size) => (l.frame_sent(now, size), ActionData::Nothing),
        AfterSend::BecomeActive => (
            Link { lifecycle: SessionLifecycleState::Active, ..l },
            ActionData::Enter(SessionLifecycleState::Active),
        ),
        AfterSend::BecomeInactive => (
            Link { lifecycle: SessionLifecycleState::Inactive, ..l },
            ActionData::Enter(SessionLifecycleState::Inactive),
        ),
    }
}

impl Connection {
    /// Open a connection: it was established at `now`, and data transfer is
    /// asked for at `started`. The frame is the one to send first; a failure
    /// to send it ends the connection.
    pub fn open(config: SessionConfig, now: UtcTime, started: UtcTime) -> (r: (Self, Apdu))
        requires
            now.wf(),
            started.wf(),
        ensures
            r.0@ == opened(config, now, started),
            r.0@.wf(),
            r.1@ == uframe(U_STARTDT_ACTIVE),
    {
        let c = Connection {
            config,
            state: SessionState::new(now),
            hi_queue: VecDeque::new(),
            hi_queue_bytes: 0,
            test_sent_since: max_utc(),
            start_sent_since: started,
            stop_sent_since: max_utc(),
            lifecycle: SessionLifecycleState::Inactive,
        };
        assert(c@ =~= opened(config, now, started));
        (c, new_uframe(U_STARTDT_ACTIVE))
    }

    /// The lifecycle states that an opened connection passes through before
    /// its first frame.
    pub fn opening_states() -> (r: Vec<SessionLifecycleState>)
        ensures
            r@ == seq![SessionLifecycleState::Handshaking, SessionLifecycleState::Inactive],
    {
        let mut v: Vec<SessionLifecycleState> = Vec::new();
        v.push(SessionLifecycleState::Handshaking);
        v.push(SessionLifecycleState::Inactive);
        assert(v@ =~= seq![SessionLifecycleState::Handshaking, SessionLifecycleState::Inactive]);
        v
    }

    /// The lifecycle states that a connection passes through when its loop is
    /// left: closing, unless it is already, and closed.
    pub fn closing_states(&self) -> (r: Vec<SessionLifecycleState>)
        ensures
            r@ == if self.lifecycle is Closing || self.lifecycle is Closed || self.lifecycle is Failed {
                seq![SessionLifecycleState::Closed]
            } else {
                seq![SessionLifecycleState::Closing, SessionLifecycleState::Closed]
            },
    {
        let mut v: Vec<SessionLifecycleState> = Vec::new();
        match self.lifecycle {
            SessionLifecycleState::Closing
            | SessionLifecycleState::Closed
            | SessionLifecycleState::Failed(_) => {},
            _ => {
                v.push(SessionLifecycleState::Closing);
            },
        }
        v.push(SessionLifecycleState::Closed);
        assert(v@ =~= if self.lifecycle is Closing || self.lifecycle is Closed || self.lifecycle is Failed {
            seq![SessionLifecycleState::Closed]
        } else {
            seq![SessionLifecycleState::Closing, SessionLifecycleState::Closed]
        });
        v
    }

    fn is_active(&self) -> (r: bool)
        ensures
            r == (self.lifecycle is Active),
    {
        matches!(self.lifecycle, SessionLifecycleState::Active)
    }

    fn total_with(&self, size: usize) -> (r: usize)
        ensures
            r == self@.bytes_with(size),
    {
        self.state.total_pending_bytes().saturating_add(self.hi_queue_bytes).saturating_add(size)
    }

    fn room_for(&self, size: usize) -> (r: bool)
        ensures
            r == self@.has_room(size),
    {
        self.hi_queue.len() < self.config.send_queue_capacity && self.total_with(size)
            <= self.config.max_pending_asdu_bytes
    }

    fn queue(&mut self, asdu: Asdu, size: usize)
        ensures
            final(self)@ == old(self)@.queued(asdu, size),
    {
        self.hi_queue.push_back((asdu, size));
        self.hi_queue_bytes = self.hi_queue_bytes.saturating_add(size);
        assert(self@ =~= old(self)@.queued(asdu, size));
    }

    fn count_frame(&mut self, now: UtcTime, size: usize)
        ensures
            final(self)@ == old(self)@.frame_sent(now, size),
    {
        let seq: u16 = self.state.send_sn;
        self.state.push_pending(seq, now, size);
        self.state.ack_rcvsn = self.state.rcv_sn;
        self.state.send_sn = SessionState::seq_add(self.state.send_sn, 1);
        assert(self@ =~= old(self)@.frame_sent(now, size));
    }

    /// Carry out a phase of a tick. The loop starts with `TickPhase::T1` and
    /// goes on with what comes back until the tick is done.
    pub fn tick_step(&mut self, phase: TickPhase, now: UtcTime) -> (r: TickStep)
        requires
            old(self)@.wf(),
            now.wf(),
            phase_ok(phase),
        ensures
            final(self)@.wf(),
            ({
                let o = tick_outcome(old(self)@, phase, now);
                &&& final(self)@ == o.link
                &&& r.action@ == o.action
                &&& r.on_ok == o.on_ok
                &&& r.on_err == o.on_err
                &&& phase_ok(r.on_ok)
                &&& phase_ok(r.on_err)
            }),
    {
        match phase {
            TickPhase::T1 => {
                match self.state.check_and_handle_t1_timeout(now, self.config.t1_ms) {
                    Some(_) => {
                        let next = if self.state.consecutive_t1_timeouts >= 5 {
                            TickPhase::Leave
                        } else {
                            TickPhase::T3
                        };
                        TickStep {
                            action: Action::Emit(SessionEvent::T1Timeout),
                            on_ok: next,
                            on_err: next,
                        }
                    },
                    None => proceed(TickPhase::T3),
                }
            },
            TickPhase::T3 => {
                if elapsed_ms(&now, &self.state.idle_since) >= self.config.t3_ms {
                    self.test_sent_since = now;
                    TickStep {
                        action: Action::Send(new_uframe(U_TESTFR_ACTIVE)),
                        on_ok: TickPhase::T3Sent,
                        on_err: TickPhase::Done,
                    }
                } else {
                    proceed(TickPhase::Ack)
                }
            },
            TickPhase::T3Sent => {
                self.state.idle_since = now;
                proceed(TickPhase::Ack)
            },
            TickPhase::Ack => {
                if self.state.should_send_s_ack(now, self.config.t2_ms, self.config.w_threshold) {
                    let frame = new_sframe(self.state.rcv_sn);
                    self.state.mark_s_ack_sent();
                    TickStep {
                        action: Action::Send(frame),
                        on_ok: TickPhase::Flush,
                        on_err: TickPhase::Flush,
                    }
                } else {
                    proceed(TickPhase::Flush)
                }
            },
            TickPhase::Flush => {
                if self.is_active() && self.state.window_has_capacity(self.config.k_window) {
                    let slots: u16 = self.state.window_available_slots(self.config.k_window);
                    proceed(TickPhase::FlushNext { slots })
                } else {
                    proceed(TickPhase::T0)
                }
            },
            TickPhase::FlushNext { slots } => {
                if slots == 0 {
                    return proceed(TickPhase::LowPrio);
                }
                let ghost q = self.hi_queue@;
                match self.hi_queue.pop_front() {
                    Some((asdu, size)) => {
                        proof {
                            assert(queued_ok(q[0]));
                            assert(self.hi_queue@ =~= q.skip(1));
                            assert forall|i: int| 0 <= i < self.hi_queue@.len() implies queued_ok(
                                #[trigger] self.hi_queue@[i],
                            ) by {
                                assert(self.hi_queue@[i] == q[i + 1]);
                            }
                        }
                        let frame = new_iframe(asdu, self.state.send_sn, self.state.rcv_sn);
                        TickStep {
                            action: Action::Send(frame),
                            on_ok: TickPhase::FlushSent { slots, size },
                            on_err: TickPhase::LowPrio,
                        }
                    },
                    None => proceed(TickPhase::LowPrio),
                }
            },
            TickPhase::FlushSent { slots, size } => {
                self.count_frame(now, size);
                self.hi_queue_bytes = self.hi_queue_bytes.saturating_sub(size);
                proceed(TickPhase::FlushNext { slots: slots - 1 })
            },
            TickPhase::LowPrio => {
                if self.hi_queue.len() == 0 && self.config.low_prio_flush_max_age_ms > 0
                    && self.state.should_flush_low_prio(
                    now,
                    self.config.low_prio_flush_max_age_ms,
                ) {
                    match self.state.take_last_low_prio() {
                        Some(asdu) => TickStep {
                            action: Action::Requeue(asdu),
                            on_ok: TickPhase::T0,
                            on_err: TickPhase::T0,
                        },
                        None => proceed(TickPhase::T0),
                    }
                } else {
                    proceed(TickPhase::T0)
                }
            },
            TickPhase::T0 => {
                if is_late(&self.test_sent_since, &now, self.config.t0_ms) || is_late(
                    &self.start_sent_since,
                    &now,
                    self.config.t0_ms,
                ) || is_late(&self.stop_sent_since, &now, self.config.t0_ms) {
                    proceed(TickPhase::Leave)
                } else {
                    proceed(TickPhase::Done)
                }
            },
            TickPhase::Leave => TickStep {
                action: Action::Close,
                on_ok: TickPhase::Done,
                on_err: TickPhase::Done,
            },
            TickPhase::Done => proceed(TickPhase::Done),
        }
    }

    fn on_asdu(&mut self, asdu: Asdu, prio: Priority, now: UtcTime) -> (r: Reaction)
        requires
            old(self)@.wf(),
            now.wf(),
        ensures
            final(self)@.wf(),
            ({
                let o = asdu_outcome(old(self)@, asdu, prio, now);
                &&& final(self)@ == o.link
                &&& r.action@ == o.action
                &&& r.after == o.after
                &&& r.fatal == o.fatal
            }),
    {
        if !self.is_active() {
            return Reaction { action: Action::Nothing, after: AfterSend::Nothing, fatal: false };
        }
        let n: usize = bytes_as_slice(&asdu.raw).len();
        if n > APDU_SIZE_MAX - 12 {
            return Reaction {
                action: Action::Emit(SessionEvent::FrameTooLargeDrop),
                after: AfterSend::Nothing,
                fatal: false,
            };
        }
        let size: usize = 12 + n;
        let full: bool = !self.state.window_has_capacity(self.config.k_window);
        if full || self.total_with(size) > self.config.max_pending_asdu_bytes {
            let dropped = if full {
                SessionEvent::WindowFullDrop
            } else {
                SessionEvent::MemoryBudgetDrop
            };
            let low: bool = match prio {
                Priority::High => false,
                Priority::Low => true,
            };
            let action = if low && self.config.discard_low_priority_when_window_full {
                Action::Emit(dropped)
            } else if low && self.config.merge_low_priority {
                self.state.set_last_low_prio(asdu, now);
                Action::Emit(SessionEvent::LowPriorityMerged)
            } else if full && self.room_for(size) {
                let ghost q = self.hi_queue@;
                self.queue(asdu, size);
                proof {
                    assert forall|i: int| 0 <= i < self.hi_queue@.len() implies queued_ok(
                        #[trigger] self.hi_queue@[i],
                    ) by {
                        if i < q.len() {
                            assert(self.hi_queue@[i] == q[i]);
                        }
                    }
                }
                Action::Nothing
            } else {
                Action::Emit(dropped)
            };
            return Reaction { action, after: AfterSend::Nothing, fatal: false };
        }
        let frame = new_iframe(asdu, self.state.send_sn, self.state.rcv_sn);
        Reaction { action: Action::Send(frame), after: AfterSend::CountFrame(size), fatal: true }
    }

    /// Take a request of the application in.
    pub fn on_request(&mut self, req: Request, now: UtcTime) -> (r: Reaction)
        requires
            old(self)@.wf(),
            now.wf(),
        ensures
            final(self)@.wf(),
            ({
                let o = request_outcome(old(self)@, req, now);
                &&& final(self)@ == o.link
                &&& r.action@ == o.action
                &&& r.after == o.after
                &&& r.fatal == o.fatal
            }),
    {
        match req {
            Request::I(asdu, prio) => self.on_asdu(asdu, prio, now),
            Request::U(u) => {
                if u.function == U_STARTDT_ACTIVE {
                    self.start_sent_since = now;
                } else if u.function == U_STOPDT_ACTIVE {
                    self.stop_sent_since = now;
                }
                Reaction {
                    action: Action::Send(new_uframe(u.function)),
                    after: AfterSend::Nothing,
                    fatal: true,
                }
            },
            Request::S(s) => Reaction {
                action: Action::Send(new_sframe(s.rcv_sn)),
                after: AfterSend::Nothing,
                fatal: true,
            },
        }
    }

    fn reply_with(function: u8, after: AfterSend) -> (r: Reaction)
        ensures
            r.action@ == ActionData::Send(uframe(function)),
            r.after == after,
            !r.fatal,
    {
        Reaction { action: Action::Send(new_uframe(function)), after, fatal: false }
    }

    /// Take a frame of the other station in.
    pub fn on_frame(&mut self, apdu: Apdu, now: UtcTime) -> (r: Reaction)
        requires
            old(self)@.wf(),
            now.wf(),
        ensures
            final(self)@.wf(),
            ({
                let o = frame_outcome(old(self)@, apdu, now);
                &&& final(self)@ == o.link
                &&& r.action@ == o.action
                &&& r.after == o.after
                &&& r.fatal == o.fatal
            }),
    {
        self.state.idle_since = now;
        match ApciKind::from(apdu.apci) {
            ApciKind::I(i) => {
                let ghost before = self.state@;
                if !self.state.update_send_ack(i.rcv_sn) {
                    return Reaction {
                        action: Action::Close,
                        after: AfterSend::Nothing,
                        fatal: false,
                    };
                }
                proof {
                    lemma_acked_wf(before, i.rcv_sn);
                }
                if i.send_sn == self.state.rcv_sn {
                    self.state.mark_unacked_receive(now);
                }
                if !self.state.advance_receive_seq(i.send_sn) {
                    return Reaction {
                        action: Action::Close,
                        after: AfterSend::Nothing,
                        fatal: false,
                    };
                }
                let action = match apdu.asdu {
                    Some(a) => Action::Deliver(a),
                    None => Action::Nothing,
                };
                Reaction { action, after: AfterSend::Nothing, fatal: false }
            },
            ApciKind::S(s) => {
                let ghost before = self.state@;
                let action = if self.state.update_send_ack(s.rcv_sn) {
                    Action::Nothing
                } else {
                    Action::Close
                };
                proof {
                    lemma_acked_wf(before, s.rcv_sn);
                }
                Reaction { action, after: AfterSend::Nothing, fatal: false }
            },
            ApciKind::U(u) => {
                let f: u8 = u.function;
                if f == U_STARTDT_CONFIRM {
                    self.start_sent_since = max_utc();
                    self.lifecycle = SessionLifecycleState::Active;
                    Reaction {
                        action: Action::Enter(SessionLifecycleState::Active),
                        after: AfterSend::Nothing,
                        fatal: false,
                    }
                } else if f == U_STOPDT_CONFIRM {
                    self.stop_sent_since = max_utc();
                    self.lifecycle = SessionLifecycleState::Inactive;
                    Reaction {
                        action: Action::Enter(SessionLifecycleState::Inactive),
                        after: AfterSend::Nothing,
                        fatal: false,
                    }
                } else if f == U_TESTFR_CONFIRM {
                    self.test_sent_since = max_utc();
                    Reaction { action: Action::Nothing, after: AfterSend::Nothing, fatal: false }
                } else if f == U_STARTDT_ACTIVE {
                    Self::reply_with(U_STARTDT_CONFIRM, AfterSend::BecomeActive)
                } else if f == U_STOPDT_ACTIVE {
                    Self::reply_with(U_STOPDT_CONFIRM, AfterSend::BecomeInactive)
                } else if f == U_TESTFR_ACTIVE {
                    Self::reply_with(U_TESTFR_CONFIRM, AfterSend::Nothing)
                } else {
                    Reaction { action: Action::Nothing, after: AfterSend::Nothing, fatal: false }
                }
            },
        }
    }

    /// A frame that a request or a frame asked for has been sent.
    pub fn on_sent(&mut self, after: AfterSend, now: UtcTime) -> (r: Action)
        requires
            old(self)@.wf(),
            now.wf(),
        ensures
            final(self)@.wf(),
            final(self)@ == sent_outcome(old(self)@, after, now).0,
            r@ == sent_outcome(old(self)@, after, now).1,
    {
        match after {
            AfterSend::Nothing => Action::Nothing,
            AfterSend::CountFrame(size) => {
                self.count_frame(now, size);
                Action::Nothing
            },
            AfterSend::BecomeActive => {
                self.lifecycle = SessionLifecycleState::Active;
                Action::Enter(SessionLifecycleState::Active)
            },
            AfterSend::BecomeInactive => {
                self.lifecycle = SessionLifecycleState::Inactive;
                Action::Enter(SessionLifecycleState::Inactive)
            },
        }
    }
}

proof fn lemma_acked_wf(s: LinkState, ack: u16)
    requires
        s.wf(),
    ensures
        s.acked(ack).wf(),
{
    let n = s.covered(ack);
    assert forall|i: int| 0 <= i < s.pending.skip(n).len() implies (#[trigger] s.pending.skip(
        n,
    )[i]).send_time.wf() by {
        assert(s.pending.skip(n)[i] == s.pending[i + n]);
    }
}

/// Information frames go out only while data transfer is started and the
/// window has a free slot, and they carry the next number: this holds for
/// what requests send and for what a tick sends of the backlog.
pub proof fn frames_are_sent_in_order_within_the_window(
    l: Link,
    asdu: Asdu,
    prio: Priority,
    now: UtcTime,
)
    requires
        l.wf(),
    ensures
        asdu_outcome(l, asdu, prio, now).action matches ActionData::Send(f) ==> {
            &&& l.lifecycle is Active
            &&& l.state.inflight() < l.config.k_window
            &&& f == iframe(asdu@, l.state.send_sn, l.state.rcv_sn)
            &&& l.bytes_with(iframe_size(asdu@) as usize) <= l.config.max_pending_asdu_bytes
        },
        tick_outcome(l, TickPhase::Flush, now).on_ok matches TickPhase::FlushNext { slots } ==> {
            &&& l.lifecycle is Active
            &&& slots == l.config.k_window - l.state.inflight()
            &&& slots > 0
        },
        forall|slots: u16|
            #![trigger tick_outcome(l, TickPhase::FlushNext { slots }, now)]
            tick_outcome(l, TickPhase::FlushNext { slots }, now).action matches ActionData::Send(f)
                ==> slots > 0 && f == iframe(
                l.queue[0].0@,
                l.state.send_sn,
                l.state.rcv_sn,
            ),
{
}

/// No more frames wait for their acknowledgement than the window holds.
pub open spec fn within_window(l: Link) -> bool {
    &&& l.state.ack_sendsn < 32768
    &&& l.state.send_sn < 32768
    &&& l.state.inflight() <= l.config.k_window
}

/// A phase of a tick fills no more slots than the window has free.
pub open spec fn slots_are_free(l: Link, phase: TickPhase) -> bool {
    match phase {
        TickPhase::FlushNext { slots } => slots <= l.config.k_window - l.state.inflight(),
        TickPhase::FlushSent { slots, size } => 0 < slots <= l.config.k_window
            - l.state.inflight(),
        _ => true,
    }
}

/// A new connection waits for nothing, and its window is not passed by any
/// phase of a tick.
pub proof fn ticks_keep_the_window(
    config: SessionConfig,
    l: Link,
    phase: TickPhase,
    now: UtcTime,
    started: UtcTime,
)
    requires
        within_window(l),
        slots_are_free(l, phase),
    ensures
        within_window(opened(config, now, started)),
        ({
            let o = tick_outcome(l, phase, now);
            &&& within_window(o.link)
            &&& slots_are_free(o.link, o.on_ok)
            &&& slots_are_free(o.link, o.on_err)
        }),
{
    match phase {
        TickPhase::FlushSent { slots, size } => {
            lemma_sent_within(l, now, size);
        },
        _ => {},
    }
}

proof fn lemma_sent_within(l: Link, now: UtcTime, size: usize)
    requires
        within_window(l),
        l.state.inflight() < l.config.k_window,
    ensures
        within_window(l.frame_sent(now, size)),
        l.state.inflight() < 32767 ==> l.frame_sent(now, size).state.inflight()
            == l.state.inflight() + 1,
        l.frame_sent(now, size).state.inflight() <= l.state.inflight() + 1,
{
}

/// The window is not passed by any request with the frame that it sends, nor
/// by any frame that comes in.
pub proof fn requests_and_frames_keep_the_window(
    l: Link,
    req: Request,
    apdu: Apdu,
    now: UtcTime,
    later: UtcTime,
)
    requires
        within_window(l),
    ensures
        ({
            let o = request_outcome(l, req, now);
            within_window(o.link) && within_window(sent_outcome(o.link, o.after, later).0)
        }),
        ({
            let o = frame_outcome(l, apdu, now);
            within_window(o.link) && within_window(sent_outcome(o.link, o.after, later).0)
        }),
{
    match req {
        Request::I(asdu, prio) => {
            let size = iframe_size(asdu@) as usize;
            if l.state.inflight() < l.config.k_window {
                lemma_sent_within(l, later, size);
            }
        },
        _ => {},
    }
    match kind_of(apdu.apci) {
        ApciKind::I(i) => {
            lemma_acked_within(l.state, i.rcv_sn);
        },
        ApciKind::S(x) => {
            lemma_acked_within(l.state, x.rcv_sn);
        },
        _ => {},
    }
}

proof fn lemma_acked_within(s: LinkState, ack: u16)
    requires
        s.ack_sendsn < 32768,
        s.send_sn < 32768,
        ack < 32768,
    ensures
        in_range(s.ack_sendsn, s.send_sn, ack) ==> distance(ack, s.send_sn) <= s.inflight(),
{
}

/// A request never lets the backlog pass its capacity nor the byte budget: an
/// ASDU joins it only where both allow.
pub proof fn backlog_keeps_its_limits(l: Link, asdu: Asdu, prio: Priority, now: UtcTime)
    requires
        l.wf(),
        asdu_outcome(l, asdu, prio, now).link.queue != l.queue,
    ensures
        ({
            let m = asdu_outcome(l, asdu, prio, now).link;
            &&& m.queue == l.queue.push((asdu, iframe_size(asdu@) as usize))
            &&& m.queue.len() <= l.config.send_queue_capacity
            &&& l.bytes_with(iframe_size(asdu@) as usize) <= l.config.max_pending_asdu_bytes
            &&& l.state.inflight() >= l.config.k_window
        }),
{
}

/// A request that is refused changes nothing: where an ASDU is dropped, the
/// connection stays as it is.
pub proof fn dropped_requests_change_nothing(l: Link, asdu: Asdu, prio: Priority, now: UtcTime)
    requires
        asdu_outcome(l, asdu, prio, now).action matches ActionData::Emit(e) && (
        e is WindowFullDrop || e is MemoryBudgetDrop || e is FrameTooLargeDrop),
    ensures
        asdu_outcome(l, asdu, prio, now).link == l,
{
}

/// A frame out of sequence ends the connection and advances nothing on the
/// receiving side.
pub proof fn frames_out_of_sequence_close(l: Link, apdu: Apdu, now: UtcTime)
    requires
        kind_of(apdu.apci) matches ApciKind::I(i) && i.send_sn != l.state.rcv_sn,
    ensures
        frame_outcome(l, apdu, now).action is Close,
        frame_outcome(l, apdu, now).link.state.rcv_sn == l.state.rcv_sn,
{
}

/// The first frame that comes in after an acknowledgement starts the time
/// within which it has to be acknowledged; further frames do not start it
/// anew.
pub proof fn received_frames_are_acknowledged_in_time(
    l: Link,
    apdu: Apdu,
    now: UtcTime,
    later: UtcTime,
    t2_ms: u64,
    w: u16,
)
    requires
        l.state.ack_rcvsn < 32768,
        l.state.rcv_sn < 32768,
        distance(l.state.ack_rcvsn, l.state.rcv_sn) < 32767,
        kind_of(apdu.apci) matches ApciKind::I(i) && i.send_sn == l.state.rcv_sn && in_range(
            l.state.ack_sendsn,
            l.state.send_sn,
            i.rcv_sn,
        ),
    ensures
        ({
            let t = frame_outcome(l, apdu, now).link.state;
            let since = if l.state.ack_rcvsn == l.state.rcv_sn {
                now
            } else {
                l.state.unacked_rcv_since
            };
            &&& t.unacked_rcv_since == since
            &&& t.ack_rcvsn != t.rcv_sn
            &&& elapsed(since, later) >= t2_ms ==> t.owes_ack(later, t2_ms, w)
        }),
{
}

/// Every start, stop and test frame of the other station is confirmed, and
/// the confirmation carries the matching function.
pub proof fn control_frames_are_confirmed(l: Link, apdu: Apdu, now: UtcTime)
    ensures
        kind_of(apdu.apci) == ApciKind::U(UApci { function: U_STARTDT_ACTIVE }) ==> frame_outcome(
            l,
            apdu,
            now,
        ).action == ActionData::Send(uframe(U_STARTDT_CONFIRM)),
        kind_of(apdu.apci) == ApciKind::U(UApci { function: U_STOPDT_ACTIVE }) ==> frame_outcome(
            l,
            apdu,
            now,
        ).action == ActionData::Send(uframe(U_STOPDT_CONFIRM)),
        kind_of(apdu.apci) == ApciKind::U(UApci { function: U_TESTFR_ACTIVE }) ==> frame_outcome(
            l,
            apdu,
            now,
        ).action == ActionData::Send(uframe(U_TESTFR_CONFIRM)),
{
}

/// A confirmation disarms its timer: with it the session is not closed for a
/// missing confirmation of that kind.
pub proof fn confirmation_disarms_the_timer(l: Link, apdu: Apdu, now: UtcTime, later: UtcTime)
    requires
        later.wf(),
        later.secs < never().secs,
    ensures
        ({
            let after = frame_outcome(l, apdu, now).link;
            let t0 = l.config.t0_ms;
            &&& kind_of(apdu.apci) == ApciKind::U(UApci { function: U_STARTDT_CONFIRM })
                ==> !late(after.start_sent_since, later, t0)
            &&& kind_of(apdu.apci) == ApciKind::U(UApci { function: U_STOPDT_CONFIRM })
                ==> !late(after.stop_sent_since, later, t0)
            &&& kind_of(apdu.apci) == ApciKind::U(UApci { function: U_TESTFR_CONFIRM })
                ==> !late(after.test_sent_since, later, t0)
        }),
{
}

} // verus!
