//! Counters, timers and settings of a link session.

use super::super::frame::apci::SeqPending;
use super::super::frame::asdu::Asdu;
use crate::clock::{elapsed, elapsed_ms, max_utc, never, UtcTime};
use std::collections::VecDeque;
use vstd::prelude::*;

verus! {

/// Lifecycle of a session.
#[derive(Debug, Clone, PartialEq, Eq)]
pub enum SessionLifecycleState {
    Idle,
    Connecting,
    Handshaking,
    Active,
    Inactive,
    Closing,
    Closed,
    Failed(String),
}

/// What a session reports.
#[derive(Debug, Clone, PartialEq, Eq)]
pub enum SessionEvent {
    LifecycleChanged(SessionLifecycleState),
    WindowFullDrop,
    LowPriorityMerged,
    MemoryBudgetDrop,
    FrameTooLargeDrop,
    T1Timeout,
}

/// SessionConfig holds all timing and capacity parameters for an IEC104
/// session.
///
/// - t0: Confirmation timeout for start, stop and test frames
/// - t1: Acknowledge timeout for I-frames
/// - t2: Acknowledge aggregation timeout for S-frames
/// - t3: Idle test frame interval
/// - k: Maximum number of unacknowledged I-frames (window size)
/// - w: Acknowledge aggregation threshold (number of I-frames)
#[derive(Debug, Clone, Copy, PartialEq, Eq, Structural)]
pub struct SessionConfig {
    /// Connection establishment timeout (ms).
    pub connection_timeout_ms: u64,
    pub t0_ms: u64,
    pub t1_ms: u64,
    pub t2_ms: u64,
    pub t3_ms: u64,
    pub k_window: u16,
    pub w_threshold: u16,
    /// Capacity of the outbound request queue.
    pub send_queue_capacity: usize,
    pub tcp_nodelay: bool,
    /// Bytes that may wait to be sent or acknowledged.
    pub max_pending_asdu_bytes: usize,
    /// Drop low-priority I-frames when the window is full.
    pub discard_low_priority_when_window_full: bool,
    /// Keep only the last low-priority item when the window is full.
    pub merge_low_priority: bool,
    /// Age from which a kept low-priority item is sent once the window allows.
    pub low_prio_flush_max_age_ms: u64,
}

/// The default settings.
pub open spec fn default_config() -> SessionConfig {
    SessionConfig {
        connection_timeout_ms: 10000,
        t0_ms: 10000,
        t1_ms: 15000,
        t2_ms: 10000,
        t3_ms: 20000,
        k_window: 12,
        w_threshold: 8,
        send_queue_capacity: 1024,
        tcp_nodelay: true,
        max_pending_asdu_bytes: 1048576,
        discard_low_priority_when_window_full: true,
        merge_low_priority: true,
        low_prio_flush_max_age_ms: 2000,
    }
}

impl Default for SessionConfig {
    fn default() -> (r: Self)
        ensures
            r == default_config(),
    {
        Self {
            connection_timeout_ms: 10000,
            t0_ms: 10000,
            t1_ms: 15000,
            t2_ms: 10000,
            t3_ms: 20000,
            k_window: 12,
            w_threshold: 8,
            send_queue_capacity: 1024,
            tcp_nodelay: true,
            max_pending_asdu_bytes: 1048576,
            discard_low_priority_when_window_full: true,
            merge_low_priority: true,
            low_prio_flush_max_age_ms: 2000,
        }
    }
}

/// Whether data transfer is started.
#[derive(Debug, Clone, Copy, PartialEq, Eq, Structural)]
pub enum ApplicationState {
    Inactive,
    Active,
}

/// Holds whether data transfer is started.
#[derive(Debug)]
pub struct ApplicationStateCell {
    state: ApplicationState,
}

impl ApplicationStateCell {
    /// What the cell holds.
    pub closed spec fn held(self) -> ApplicationState {
        self.state
    }

    pub fn new(initial: ApplicationState) -> (r: Self)
        ensures
            r.held() == initial,
    {
        Self { state: initial }
    }

    pub fn load(&self) -> (r: ApplicationState)
        ensures
            r == self.held(),
    {
        self.state
    }

    pub fn store(&mut self, state: ApplicationState)
        ensures
            final(self).held() == state,
    {
        self.state = state;
    }

    pub fn is_active(&self) -> (r: bool)
        ensures
            r == (self.held() is Active),
    {
        matches!(self.state, ApplicationState::Active)
    }
}

/// SessionState encapsulates counters and timers for an active link-layer
/// session.
#[derive(Debug)]
pub struct SessionState {
    pub send_sn: u16,
    pub ack_sendsn: u16,
    pub rcv_sn: u16,
    pub ack_rcvsn: u16,
    pub idle_since: UtcTime,
    pub test_sent_since: UtcTime,
    pub start_sent_since: UtcTime,
    pub stop_sent_since: UtcTime,
    pub unacked_rcv_since: UtcTime,
    pub consecutive_t1_timeouts: u32,
    pub pending: VecDeque<SeqPending>,
    pub pending_bytes: usize,
    pub last_low_prio: Option<Asdu>,
    pub last_low_prio_since: Option<UtcTime>,
}

/// A session state as mathematical data.
pub struct LinkState {
    pub send_sn: u16,
    pub ack_sendsn: u16,
    pub rcv_sn: u16,
    pub ack_rcvsn: u16,
    pub idle_since: UtcTime,
    pub test_sent_since: UtcTime,
    pub start_sent_since: UtcTime,
    pub stop_sent_since: UtcTime,
    pub unacked_rcv_since: UtcTime,
    pub consecutive_t1_timeouts: u32,
    pub pending: Seq<SeqPending>,
    pub pending_bytes: usize,
    pub last_low_prio: Option<Asdu>,
    pub last_low_prio_since: Option<UtcTime>,
}

impl View for SessionState {
    type V = LinkState;

    open spec fn view(&self) -> LinkState {
        LinkState {
            send_sn: self.send_sn,
            ack_sendsn: self.ack_sendsn,
            rcv_sn: self.rcv_sn,
            ack_rcvsn: self.ack_rcvsn,
            idle_since: self.idle_since,
            test_sent_since: self.test_sent_since,
            start_sent_since: self.start_sent_since,
            stop_sent_since: self.stop_sent_since,
            unacked_rcv_since: self.unacked_rcv_since,
            consecutive_t1_timeouts: self.consecutive_t1_timeouts,
            pending: self.pending@,
            pending_bytes: self.pending_bytes,
            last_low_prio: self.last_low_prio,
            last_low_prio_since: self.last_low_prio_since,
        }
    }
}

/// A sum of sizes, at most what can be counted.
pub open spec fn sat_plus(a: usize, b: usize) -> usize {
    if a + b > usize::MAX {
        usize::MAX
    } else {
        (a + b) as usize
    }
}

/// A difference of sizes, at least 0.
pub open spec fn sat_minus(a: usize, b: usize) -> usize {
    if a < b {
        0
    } else {
        (a - b) as usize
    }
}

/// A number further on, around 32768.
pub open spec fn seq_plus(seq: int, delta: int) -> int {
    (seq + delta) % 32768
}

/// Distance from one number to another, around 32768.
pub open spec fn distance(from: u16, to: u16) -> int {
    (to - from) % 32768
}

/// The number is reached when counting from `start` to `end`.
pub open spec fn in_range(start: u16, end: u16, x: u16) -> bool {
    distance(start, x) <= distance(start, end)
}

/// The number does not lie behind another one, counted from 0.
pub open spec fn not_behind(a: u16, b: u16) -> bool {
    distance(0, a) <= distance(0, b)
}

/// How many waiting frames at the front do not lie behind a number.
pub open spec fn leading(pending: Seq<SeqPending>, up_to: u16) -> int
    decreases pending.len(),
{
    if pending.len() > 0 && not_behind(pending[0].seq, up_to) {
        1 + leading(pending.skip(1), up_to)
    } else {
        0
    }
}

/// How many waiting frames there are up to and including the one with a
/// number, 0 where none has it.
pub open spec fn through(pending: Seq<SeqPending>, seq: u16) -> int
    decreases pending.len(),
{
    if pending.len() == 0 || pending.last().seq == seq {
        pending.len() as int
    } else {
        through(pending.drop_last(), seq)
    }
}

/// How many waiting frames leave from the front when those up to and including
/// a number do. Where no frame has the number, those leave that do not lie
/// behind it.
pub open spec fn reached(pending: Seq<SeqPending>, up_to: u16) -> int {
    if through(pending, up_to) > 0 {
        through(pending, up_to)
    } else {
        leading(pending, up_to)
    }
}

/// Sizes of the waiting frames together.
pub open spec fn total_size(pending: Seq<SeqPending>) -> int
    decreases pending.len(),
{
    if pending.len() == 0 {
        0
    } else {
        pending[0].size_bytes + total_size(pending.skip(1))
    }
}

impl LinkState {
    /// The timers stand at moments.
    pub open spec fn wf(self) -> bool {
        &&& self.idle_since.wf()
        &&& self.test_sent_since.wf()
        &&& self.start_sent_since.wf()
        &&& self.stop_sent_since.wf()
        &&& self.unacked_rcv_since.wf()
        &&& forall|i: int| 0 <= i < self.pending.len() ==> (#[trigger] self.pending[i]).send_time.wf()
        &&& self.last_low_prio_since matches Some(t) ==> t.wf()
    }

    /// Number of frames that wait for their acknowledgement.
    pub open spec fn inflight(self) -> int {
        distance(self.ack_sendsn, self.send_sn)
    }

    /// A frame has been sent.
    pub open spec fn pushed(self, seq: u16, now: UtcTime, size_bytes: usize) -> LinkState {
        LinkState {
            pending: self.pending.push(SeqPending { seq, send_time: now, size_bytes }),
            pending_bytes: sat_plus(self.pending_bytes, size_bytes),
            ..self
        }
    }

    /// The oldest `n` frames have left, and their bytes with them.
    pub open spec fn without(self, n: int) -> LinkState {
        LinkState {
            pending: self.pending.skip(n),
            pending_bytes: if self.pending_bytes < total_size(self.pending.take(n)) {
                0
            } else {
                (self.pending_bytes - total_size(self.pending.take(n))) as usize
            },
            ..self
        }
    }

    /// Number of waiting frames that an acknowledgement within the window
    /// covers.
    pub open spec fn covered(self, ack: u16) -> int {
        if distance(self.ack_sendsn, ack) < self.pending.len() {
            distance(self.ack_sendsn, ack)
        } else {
            self.pending.len() as int
        }
    }

    /// An acknowledgement within the window has come in.
    pub open spec fn acked(self, ack: u16) -> LinkState {
        LinkState { ack_sendsn: ack, ..self.without(self.covered(ack)) }
    }

    /// The oldest frame has waited as long as it may.
    pub open spec fn is_overdue(self, now: UtcTime, t1_ms: u64) -> bool {
        self.ack_sendsn != self.send_sn && self.pending.len() > 0 && elapsed(
            self.pending[0].send_time,
            now,
        ) >= t1_ms
    }

    /// The check for overdue frames has been made: an overdue frame is given
    /// up.
    pub open spec fn checked_t1(self, now: UtcTime, t1_ms: u64) -> LinkState {
        if self.ack_sendsn == self.send_sn {
            LinkState { consecutive_t1_timeouts: 0, ..self }
        } else if self.is_overdue(now, t1_ms) {
            LinkState {
                ack_sendsn: seq_plus(self.ack_sendsn as int, 1) as u16,
                consecutive_t1_timeouts: if self.consecutive_t1_timeouts == u32::MAX {
                    u32::MAX
                } else {
                    (self.consecutive_t1_timeouts + 1) as u32
                },
                ..self.without(1)
            }
        } else {
            LinkState {
                consecutive_t1_timeouts: if self.consecutive_t1_timeouts > 0 {
                    (self.consecutive_t1_timeouts - 1) as u32
                } else {
                    0
                },
                ..self
            }
        }
    }

    /// Received frames should be acknowledged now.
    pub open spec fn owes_ack(self, now: UtcTime, t2_ms: u64, w: u16) -> bool {
        self.ack_rcvsn != self.rcv_sn && (distance(self.ack_rcvsn, self.rcv_sn) >= w || elapsed(
            self.unacked_rcv_since,
            now,
        ) >= t2_ms)
    }

    /// The kept low-priority item is old enough to be sent.
    pub open spec fn low_prio_is_old(self, now: UtcTime, max_age_ms: u64) -> bool {
        self.last_low_prio is Some && (self.last_low_prio_since matches Some(t) && elapsed(t, now)
            >= max_age_ms)
    }
}

impl SessionState {
    /// Construct initial session state.
    pub fn new(now: UtcTime) -> (r: Self)
        requires
            now.wf(),
        ensures
            r@ == (LinkState {
                send_sn: 0,
                ack_sendsn: 0,
                rcv_sn: 0,
                ack_rcvsn: 0,
                idle_since: now,
                test_sent_since: never(),
                start_sent_since: never(),
                stop_sent_since: never(),
                unacked_rcv_since: never(),
                consecutive_t1_timeouts: 0,
                pending: Seq::empty(),
                pending_bytes: 0,
                last_low_prio: None,
                last_low_prio_since: None,
            }),
            r@.wf(),
    {
        Self {
            send_sn: 0,
            ack_sendsn: 0,
            rcv_sn: 0,
            ack_rcvsn: 0,
            idle_since: now,
            test_sent_since: max_utc(),
            start_sent_since: max_utc(),
            stop_sent_since: max_utc(),
            unacked_rcv_since: max_utc(),
            consecutive_t1_timeouts: 0,
            pending: VecDeque::new(),
            pending_bytes: 0,
            last_low_prio: None,
            last_low_prio_since: None,
        }
    }

    /// Return number of outstanding I-frames in-flight (unacknowledged).
    pub fn inflight_count(&self) -> (r: u16)
        ensures
            r == self@.inflight(),
    {
        Self::seq_distance(self.ack_sendsn, self.send_sn)
    }

    /// Whether window has available slots to send new I-frames.
    pub fn window_has_capacity(&self, k_window: u16) -> (r: bool)
        ensures
            r == (self@.inflight() < k_window),
    {
        self.inflight_count() < k_window
    }

    /// Number of available slots before reaching window limit.
    pub fn window_available_slots(&self, k_window: u16) -> (r: u16)
        ensures
            r == if k_window < self@.inflight() {
                0
            } else {
                k_window - self@.inflight()
            },
    {
        k_window.saturating_sub(self.inflight_count())
    }

    /// Push a new pending sequence with timestamp.
    pub fn push_pending(&mut self, seq: u16, now: UtcTime, size_bytes: usize)
        ensures
            final(self)@ == old(self)@.pushed(seq, now, size_bytes),
    {
        self.pending.push_back(SeqPending { seq, send_time: now, size_bytes });
        self.pending_bytes = self.pending_bytes.saturating_add(size_bytes);
        assert(self@ =~= old(self)@.pushed(seq, now, size_bytes));
    }

    /// Let the oldest `n` waiting frames go.
    fn drop_front(&mut self, n: usize)
        requires
            n <= old(self)@.pending.len(),
        ensures
            final(self)@ == old(self)@.without(n as int),
    {
        let mut i: usize = 0;
        let ghost s0 = self@;
        proof {
            assert(s0.pending.skip(0) =~= s0.pending);
            assert(s0.pending.take(0) =~= Seq::empty());
        }
        while i < n
            invariant
                0 <= i <= n <= s0.pending.len(),
                self@ == s0.without(i as int),
            decreases n - i,
        {
            let ghost before = self.pending@;
            match self.pending.pop_front() {
                Some(item) => {
                    proof {
                        assert(before[0] == s0.pending[i as int]);
                        assert(self.pending@ =~= s0.pending.skip(i + 1));
                        assert(s0.pending.take(i + 1) =~= s0.pending.take(i as int).push(
                            s0.pending[i as int],
                        ));
                        lemma_total_size_push(s0.pending.take(i as int), s0.pending[i as int]);
                        lemma_total_size_nonneg(s0.pending.take(i as int));
                    }
                    self.pending_bytes = self.pending_bytes.saturating_sub(item.size_bytes);
                },
                None => {},
            }
            i = i + 1;
        }
    }

    /// Number of waiting frames up to and including the one with a number.
    fn count_through(&self, seq: u16) -> (r: usize)
        ensures
            r == through(self@.pending, seq),
    {
        let mut n: usize = self.pending.len();
        assert(self@.pending.take(n as int) =~= self@.pending);
        while n > 0 && self.pending[n - 1].seq != seq
            invariant
                n <= self@.pending.len(),
                through(self@.pending.take(n as int), seq) == through(self@.pending, seq),
            decreases n,
        {
            assert(self@.pending.take(n as int).drop_last() =~= self@.pending.take(n - 1));
            n = n - 1;
        }
        n
    }

    /// Number of waiting frames at the front that do not lie behind a number.
    fn count_leading(&self, up_to_seq: u16) -> (r: usize)
        ensures
            r == leading(self@.pending, up_to_seq),
            r <= self@.pending.len(),
    {
        let mut n: usize = 0;
        assert(self@.pending.skip(0) =~= self@.pending);
        while n < self.pending.len() && Self::seq_lte(self.pending[n].seq, up_to_seq)
            invariant
                n <= self@.pending.len(),
                n + leading(self@.pending.skip(n as int), up_to_seq) == leading(
                    self@.pending,
                    up_to_seq,
                ),
            decreases self@.pending.len() - n,
        {
            assert(self@.pending.skip(n as int).skip(1) =~= self@.pending.skip(n + 1));
            n = n + 1;
        }
        n
    }

    /// Pop pending until and including `up_to_seq`. Returns number of removed
    /// items.
    pub fn pop_pending_until(&mut self, up_to_seq: u16) -> (r: usize)
        ensures
            r == reached(old(self)@.pending, up_to_seq),
            r <= old(self)@.pending.len(),
            final(self)@ == old(self)@.without(r as int),
    {
        let counted: usize = self.count_through(up_to_seq);
        proof {
            lemma_through_len(self@.pending, up_to_seq);
        }
        let removed: usize = if counted > 0 {
            counted
        } else {
            self.count_leading(up_to_seq)
        };
        self.drop_front(removed);
        removed
    }

    /// Clear all pending; returns removed count.
    pub fn clear_pending(&mut self) -> (r: usize)
        ensures
            r == old(self)@.pending.len(),
            final(self)@ == (LinkState {
                pending: Seq::empty(),
                pending_bytes: 0,
                ..old(self)@
            }),
    {
        let n: usize = self.pending.len();
        self.pending.clear();
        self.pending_bytes = 0;
        assert(self.pending@ =~= Seq::empty());
        n
    }

    /// Update send acknowledge numbers given remote ack `rcv_sn` in incoming
    /// I/S frames. Returns true if the ack is within valid window and state
    /// advanced, false if invalid.
    pub fn update_send_ack(&mut self, ack_rcv_no: u16) -> (r: bool)
        ensures
            r == in_range(old(self).ack_sendsn, old(self).send_sn, ack_rcv_no),
            final(self)@ == if r {
                old(self)@.acked(ack_rcv_no)
            } else {
                old(self)@
            },
    {
        if !Self::seq_in_range_inclusive(self.ack_sendsn, self.send_sn, ack_rcv_no) {
            return false;
        }
        let covered: usize = Self::seq_distance(self.ack_sendsn, ack_rcv_no) as usize;
        let waiting: usize = self.pending.len();
        self.drop_front(if covered < waiting {
            covered
        } else {
            waiting
        });
        self.ack_sendsn = ack_rcv_no;
        true
    }

    /// Advance local receive sequence on incoming I-frame with `send_sn`.
    /// Returns true if sequence is expected, false otherwise.
    pub fn advance_receive_seq(&mut self, incoming_send_sn: u16) -> (r: bool)
        ensures
            r == (incoming_send_sn == old(self).rcv_sn),
            final(self)@ == if r {
                LinkState { rcv_sn: seq_plus(old(self).rcv_sn as int, 1) as u16, ..old(self)@ }
            } else {
                old(self)@
            },
    {
        if incoming_send_sn != self.rcv_sn {
            return false;
        }
        self.rcv_sn = Self::seq_add(self.rcv_sn, 1);
        true
    }

    /// Whether we should send aggregated S-ACK now, based on t2 timer or w
    /// threshold.
    pub fn should_send_s_ack(&self, now: UtcTime, t2_ms: u64, w_threshold: u16) -> (r: bool)
        requires
            self@.wf(),
            now.wf(),
        ensures
            r == self@.owes_ack(now, t2_ms, w_threshold),
    {
        if self.ack_rcvsn == self.rcv_sn {
            return false;
        }
        let unacked: u16 = Self::seq_distance(self.ack_rcvsn, self.rcv_sn);
        if unacked >= w_threshold {
            return true;
        }
        elapsed_ms(&now, &self.unacked_rcv_since) >= t2_ms
    }

    /// Check front pending for t1 timeout and handle it by dropping one and
    /// advancing ack_sendsn. Returns Some(dropped_seq) when timeout occurred
    /// and state mutated, None otherwise.
    pub fn check_and_handle_t1_timeout(&mut self, now: UtcTime, t1_ms: u64) -> (r: Option<u16>)
        requires
            old(self)@.wf(),
            now.wf(),
        ensures
            r == if old(self)@.is_overdue(now, t1_ms) {
                Some(old(self)@.pending[0].seq)
            } else {
                None::<u16>
            },
            final(self)@ == old(self)@.checked_t1(now, t1_ms),
    {
        if self.ack_sendsn == self.send_sn {
            self.consecutive_t1_timeouts = 0;
            return None;
        }
        if self.pending.len() > 0 {
            let front = self.pending[0];
            assert(front == old(self)@.pending[0]);
            if elapsed_ms(&now, &front.send_time) >= t1_ms {
                let dropped: u16 = front.seq;
                self.drop_front(1);
                self.ack_sendsn = Self::seq_add(self.ack_sendsn, 1);
                self.consecutive_t1_timeouts = self.consecutive_t1_timeouts.saturating_add(1);
                return Some(dropped);
            }
        }
        if self.consecutive_t1_timeouts > 0 {
            self.consecutive_t1_timeouts = self.consecutive_t1_timeouts - 1;
        }
        None
    }

    /// Mark that we received data and have unacked rx.
    pub fn mark_unacked_receive(&mut self, now: UtcTime)
        ensures
            final(self)@ == if old(self).ack_rcvsn == old(self).rcv_sn {
                LinkState { unacked_rcv_since: now, ..old(self)@ }
            } else {
                old(self)@
            },
    {
        if self.ack_rcvsn == self.rcv_sn {
            self.unacked_rcv_since = now;
        }
    }

    /// Advance ack_rcvsn to rcv_sn when S-ACK sent.
    pub fn mark_s_ack_sent(&mut self)
        ensures
            final(self)@ == (LinkState { ack_rcvsn: old(self).rcv_sn, ..old(self)@ }),
    {
        self.ack_rcvsn = self.rcv_sn;
    }

    /// Add with sequence wrap modulo 32768.
    pub fn seq_add(seq: u16, delta: u16) -> (r: u16)
        ensures
            r == seq_plus(seq as int, delta as int),
    {
        ((seq as u32 + delta as u32) % 32768) as u16
    }

    /// Distance from `from` to `to` in modulo space [0, 32767].
    pub fn seq_distance(from: u16, to: u16) -> (r: u16)
        ensures
            r == distance(from, to),
    {
        ((to as u32 + 65536 - from as u32) % 32768) as u16
    }

    /// Is x within [start, end] in modulo space inclusive on end.
    pub fn seq_in_range_inclusive(start: u16, end: u16, x: u16) -> (r: bool)
        ensures
            r == in_range(start, end, x),
    {
        Self::seq_distance(start, x) <= Self::seq_distance(start, end)
    }

    /// Less or equal in modulo order relative to 0-based.
    pub fn seq_lte(a: u16, b: u16) -> (r: bool)
        ensures
            r == not_behind(a, b),
    {
        Self::seq_distance(0, a) <= Self::seq_distance(0, b)
    }

    /// Get total bytes pending in-flight I-frames.
    pub fn total_pending_bytes(&self) -> (r: usize)
        ensures
            r == self.pending_bytes,
    {
        self.pending_bytes
    }

    /// Replace last low-priority ASDU to be sent when window allows.
    pub fn set_last_low_prio(&mut self, asdu: Asdu, now: UtcTime)
        ensures
            final(self)@ == (LinkState {
                last_low_prio: Some(asdu),
                last_low_prio_since: Some(now),
                ..old(self)@
            }),
    {
        self.last_low_prio = Some(asdu);
        self.last_low_prio_since = Some(now);
    }

    /// Take and clear the stored low-priority ASDU.
    pub fn take_last_low_prio(&mut self) -> (r: Option<Asdu>)
        ensures
            r == old(self).last_low_prio,
            final(self)@ == (LinkState {
                last_low_prio: None,
                last_low_prio_since: None,
                ..old(self)@
            }),
    {
        self.last_low_prio_since = None;
        self.last_low_prio.take()
    }

    /// Whether low-priority buffered ASDU should be flushed due to age.
    pub fn should_flush_low_prio(&self, now: UtcTime, max_age_ms: u64) -> (r: bool)
        requires
            self@.wf(),
            now.wf(),
        ensures
            r == self@.low_prio_is_old(now, max_age_ms),
    {
        match (&self.last_low_prio, self.last_low_prio_since) {
            (Some(_), Some(since)) => elapsed_ms(&now, &since) >= max_age_ms,
            _ => false,
        }
    }
}

/// Distances count on: adding a distance to a number leads to the other one.
pub proof fn distance_leads_there(from: u16, to: u16)
    requires
        from < 32768,
        to < 32768,
    ensures
        0 <= distance(from, to) < 32768,
        seq_plus(from as int, distance(from, to)) == to,
{
}

/// One further is one more away.
pub proof fn distance_grows_by_one(from: u16, to: u16)
    requires
        from < 32768,
        to < 32768,
        distance(from, to) < 32767,
    ensures
        distance(from, seq_plus(to as int, 1) as u16) == distance(from, to) + 1,
{
}

/// The waiting frames are those that are sent and not acknowledged: they are
/// numbered from the last acknowledgement up to the next number to send.
pub open spec fn pending_is_unacknowledged(s: LinkState) -> bool {
    &&& s.ack_sendsn < 32768
    &&& s.send_sn < 32768
    &&& s.pending.len() == s.inflight()
    &&& forall|i: int|
        0 <= i < s.pending.len() ==> (#[trigger] s.pending[i]).seq == seq_plus(
            s.ack_sendsn as int,
            i,
        )
}

/// A session starts with no frame waiting.
pub proof fn new_session_waits_for_nothing(s: LinkState)
    requires
        s.ack_sendsn == 0,
        s.send_sn == 0,
        s.pending.len() == 0,
    ensures
        pending_is_unacknowledged(s),
{
}

/// Sending the next frame keeps the waiting frames what they should be, and
/// the window is not passed when it had a free slot.
pub proof fn sending_keeps_the_window(s: LinkState, now: UtcTime, size_bytes: usize, k: u16)
    requires
        pending_is_unacknowledged(s),
        s.inflight() < 32767,
    ensures
        ({
            let t = LinkState {
                send_sn: seq_plus(s.send_sn as int, 1) as u16,
                ..s.pushed(s.send_sn, now, size_bytes)
            };
            &&& pending_is_unacknowledged(t)
            &&& t.inflight() == s.inflight() + 1
            &&& s.inflight() < k ==> t.inflight() <= k
        }),
{
    let t = LinkState {
        send_sn: seq_plus(s.send_sn as int, 1) as u16,
        ..s.pushed(s.send_sn, now, size_bytes)
    };
    distance_grows_by_one(s.ack_sendsn, s.send_sn);
    distance_leads_there(s.ack_sendsn, s.send_sn);
    assert forall|i: int| 0 <= i < t.pending.len() implies (#[trigger] t.pending[i]).seq
        == seq_plus(t.ack_sendsn as int, i) by {
        if i < s.pending.len() {
            assert(t.pending[i] == s.pending[i]);
        }
    }
}

/// Giving an overdue frame up keeps the waiting frames what they should be.
pub proof fn giving_up_keeps_the_window(s: LinkState, now: UtcTime, t1_ms: u64)
    requires
        pending_is_unacknowledged(s),
    ensures
        pending_is_unacknowledged(s.checked_t1(now, t1_ms)),
{
    let t = s.checked_t1(now, t1_ms);
    if s.is_overdue(now, t1_ms) {
        assert forall|i: int| 0 <= i < t.pending.len() implies (#[trigger] t.pending[i]).seq
            == seq_plus(t.ack_sendsn as int, i) by {
            assert(t.pending[i] == s.pending[i + 1]);
        }
    }
}

proof fn lemma_through_len(p: Seq<SeqPending>, seq: u16)
    ensures
        0 <= through(p, seq) <= p.len(),
    decreases p.len(),
{
    if p.len() > 0 && p.last().seq != seq {
        lemma_through_len(p.drop_last(), seq);
    }
}

proof fn lemma_through(p: Seq<SeqPending>, n: int)
    requires
        0 <= n < p.len(),
        forall|i: int| n < i < p.len() ==> (#[trigger] p[i]).seq != p[n].seq,
    ensures
        through(p, p[n].seq) == n + 1,
    decreases p.len(),
{
    if n < p.len() - 1 {
        lemma_through(p.drop_last(), n);
    }
}

/// Frames up to a number leave up to and including the frame with that number,
/// also where the numbers have started over in between.
pub proof fn frames_leave_up_to_their_number(s: LinkState, up_to: u16)
    requires
        pending_is_unacknowledged(s),
        up_to < 32768,
        distance(s.ack_sendsn, up_to) < s.inflight(),
    ensures
        reached(s.pending, up_to) == distance(s.ack_sendsn, up_to) + 1,
        s.pending[distance(s.ack_sendsn, up_to)].seq == up_to,
{
    let n = distance(s.ack_sendsn, up_to);
    distance_leads_there(s.ack_sendsn, up_to);
    assert(s.pending[n].seq == up_to);
    assert forall|i: int| n < i < s.pending.len() implies (#[trigger] s.pending[i]).seq
        != up_to by {
        assert(s.pending[i].seq == seq_plus(s.ack_sendsn as int, i));
    }
    lemma_through(s.pending, n);
}

/// An acknowledgement takes exactly the acknowledged frames off, also where the
/// numbers have started over since the last one.
pub proof fn acknowledged_frames_leave(s: LinkState, ack: u16)
    requires
        pending_is_unacknowledged(s),
        ack < 32768,
        in_range(s.ack_sendsn, s.send_sn, ack),
    ensures
        pending_is_unacknowledged(s.acked(ack)),
        s.acked(ack).pending == s.pending.skip(distance(s.ack_sendsn, ack)),
        s.acked(ack).inflight() == s.inflight() - distance(s.ack_sendsn, ack),
{
    let n = distance(s.ack_sendsn, ack);
    let t = s.acked(ack);
    assert(s.covered(ack) == n);
    assert forall|i: int| 0 <= i < t.pending.len() implies (#[trigger] t.pending[i]).seq
        == seq_plus(t.ack_sendsn as int, i) by {
        assert(t.pending[i] == s.pending[i + n]);
    }
}

proof fn lemma_total_size_push(p: Seq<SeqPending>, x: SeqPending)
    ensures
        total_size(p.push(x)) == total_size(p) + x.size_bytes,
    decreases p.len(),
{
    if p.len() == 0 {
        reveal_with_fuel(total_size, 2);
        assert(p.push(x).skip(1) =~= Seq::empty());
        assert(p.push(x)[0] == x);
    } else {
        assert(p.push(x)[0] == p[0]);
        assert(p.push(x).skip(1) =~= p.skip(1).push(x));
        lemma_total_size_push(p.skip(1), x);
    }
}

proof fn lemma_total_size_nonneg(p: Seq<SeqPending>)
    ensures
        total_size(p) >= 0,
    decreases p.len(),
{
    if p.len() > 0 {
        lemma_total_size_nonneg(p.skip(1));
    }
}

proof fn lemma_total_size_split(p: Seq<SeqPending>, n: int)
    requires
        0 <= n <= p.len(),
    ensures
        total_size(p) == total_size(p.take(n)) + total_size(p.skip(n)),
    decreases n,
{
    if n == 0 {
        assert(p.skip(0) =~= p);
        assert(p.take(0) =~= Seq::empty());
    } else {
        lemma_total_size_split(p, n - 1);
        assert(p.take(n) =~= p.take(n - 1).push(p[n - 1]));
        assert(p.skip(n - 1).skip(1) =~= p.skip(n));
        assert(p.skip(n - 1)[0] == p[n - 1]);
        lemma_total_size_push(p.take(n - 1), p[n - 1]);
    }
}

proof fn lemma_without_counts(s: LinkState, n: int)
    requires
        s.pending_bytes == total_size(s.pending),
        0 <= n <= s.pending.len(),
    ensures
        s.without(n).pending_bytes == total_size(s.without(n).pending),
{
    lemma_total_size_split(s.pending, n);
    lemma_total_size_nonneg(s.pending.take(n));
    lemma_total_size_nonneg(s.pending.skip(n));
}

/// The counted bytes are those of the waiting frames: sending, acknowledging
/// and giving up keep them so, as long as the sum can be counted.
pub proof fn pending_bytes_are_counted(
    s: LinkState,
    seq: u16,
    now: UtcTime,
    size_bytes: usize,
    ack: u16,
    t1_ms: u64,
)
    requires
        s.pending_bytes == total_size(s.pending),
    ensures
        s.pending_bytes + size_bytes <= usize::MAX ==> s.pushed(seq, now, size_bytes).pending_bytes
            == total_size(s.pushed(seq, now, size_bytes).pending),
        s.acked(ack).pending_bytes == total_size(s.acked(ack).pending),
        s.checked_t1(now, t1_ms).pending_bytes == total_size(s.checked_t1(now, t1_ms).pending),
{
    lemma_total_size_push(s.pending, SeqPending { seq, send_time: now, size_bytes });
    lemma_without_counts(s, s.covered(ack));
    if s.is_overdue(now, t1_ms) {
        lemma_without_counts(s, 1);
    }
}

} // verus!
