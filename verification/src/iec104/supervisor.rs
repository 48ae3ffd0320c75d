//! Supervision of a link: which interrogations follow an activation, how they
//! are repeated, and what the events of a session mean for the channel.

use super::protocol::frame::asdu::{
    Asdu, AsduData, Cause, CauseOfTransmission, Identifier, TypeID, VariableStruct,
};
use super::protocol::session::{SessionEvent, SessionLifecycleState};
use super::types::Iec104ChannelConfig;
use crate::wire::bytes_from_vec;
use vstd::prelude::*;

verus! {

/// Startup action item describing which interrogation(s) to trigger when
/// session becomes Active.
#[derive(Debug, Clone, Copy, PartialEq, Eq, Structural)]
pub enum StartupAction {
    /// Trigger Counter Interrogation with given QCC.
    CounterInterrogation { ca: u16, qcc: u8 },
    /// Trigger General Interrogation with given QOI.
    GeneralInterrogation { ca: u16, qoi: u8 },
}

impl StartupAction {
    /// The ASDU activates the interrogation: one object at address 0, with
    /// the qualifier as its value.
    pub open spec fn is_activated_by(self, a: AsduData) -> bool {
        let (t, ca, q) = match self {
            StartupAction::CounterInterrogation { ca, qcc } => (TypeID::C_CI_NA_1, ca, qcc),
            StartupAction::GeneralInterrogation { ca, qoi } => (TypeID::C_IC_NA_1, ca, qoi),
        };
        &&& a.identifier.type_id == t
        &&& a.identifier.variable_struct.raw_spec() == 1
        &&& a.identifier.cot == (CauseOfTransmission {
            test: false,
            positive: false,
            cause: Cause::Activation,
        })
        &&& a.identifier.orig_addr == 0
        &&& a.identifier.common_addr == ca
        &&& a.raw == seq![0u8, 0u8, 0u8, q]
    }

    /// The ASDU that activates the interrogation.
    pub fn activation(&self) -> (r: Asdu)
        ensures
            self.is_activated_by(r@),
    {
        let (type_id, common_addr, q) = match *self {
            StartupAction::CounterInterrogation { ca, qcc } => (TypeID::C_CI_NA_1, ca, qcc),
            StartupAction::GeneralInterrogation { ca, qoi } => (TypeID::C_IC_NA_1, ca, qoi),
        };
        let raw: Vec<u8> = vec![0, 0, 0, q];
        assert(raw@ =~= seq![0u8, 0u8, 0u8, q]);
        Asdu {
            identifier: Identifier {
                type_id,
                variable_struct: VariableStruct::new(false, 1),
                cot: CauseOfTransmission::new(false, false, Cause::Activation),
                orig_addr: 0,
                common_addr,
            },
            raw: bytes_from_vec(raw),
        }
    }
}

/// The counter interrogation of a common address, if the channel does them.
pub open spec fn counter_for(c: Iec104ChannelConfig, ca: u16) -> Seq<StartupAction> {
    if c.auto_startup_counter_interrogation {
        seq![StartupAction::CounterInterrogation { ca, qcc: c.startup_qcc }]
    } else {
        Seq::empty()
    }
}

/// The general interrogation of a common address, if the channel does them.
pub open spec fn general_for(c: Iec104ChannelConfig, ca: u16) -> Seq<StartupAction> {
    if c.auto_startup_general_interrogation {
        seq![StartupAction::GeneralInterrogation { ca, qoi: c.startup_qoi }]
    } else {
        Seq::empty()
    }
}

/// What follows an activation: for each common address the counter
/// interrogation, then the general one.
pub open spec fn startup_for(c: Iec104ChannelConfig, cas: Seq<u16>) -> Seq<StartupAction>
    decreases cas.len(),
{
    if cas.len() == 0 {
        Seq::empty()
    } else {
        startup_for(c, cas.drop_last()) + counter_for(c, cas.last()) + general_for(c, cas.last())
    }
}

/// What follows a change of devices or points: for each common address the
/// general interrogation, then the counter one.
pub open spec fn refresh_for(c: Iec104ChannelConfig, cas: Seq<u16>) -> Seq<StartupAction>
    decreases cas.len(),
{
    if cas.len() == 0 {
        Seq::empty()
    } else {
        refresh_for(c, cas.drop_last()) + general_for(c, cas.last()) + counter_for(c, cas.last())
    }
}

fn add_counter(out: &mut Vec<StartupAction>, c: &Iec104ChannelConfig, ca: u16)
    ensures
        final(out)@ == old(out)@ + counter_for(*c, ca),
{
    let ghost before = out@;
    if c.auto_startup_counter_interrogation {
        out.push(StartupAction::CounterInterrogation { ca, qcc: c.startup_qcc });
    }
    assert(out@ =~= before + counter_for(*c, ca));
}

fn add_general(out: &mut Vec<StartupAction>, c: &Iec104ChannelConfig, ca: u16)
    ensures
        final(out)@ == old(out)@ + general_for(*c, ca),
{
    let ghost before = out@;
    if c.auto_startup_general_interrogation {
        out.push(StartupAction::GeneralInterrogation { ca, qoi: c.startup_qoi });
    }
    assert(out@ =~= before + general_for(*c, ca));
}

/// What follows an activation.
pub fn build_startup_actions(c: &Iec104ChannelConfig, cas: &Vec<u16>) -> (r: Vec<StartupAction>)
    ensures
        r@ == startup_for(*c, cas@),
{
    let mut out: Vec<StartupAction> = Vec::new();
    for i in 0..cas.len()
        invariant
            out@ == startup_for(*c, cas@.take(i as int)),
    {
        add_counter(&mut out, c, cas[i]);
        add_general(&mut out, c, cas[i]);
        assert(cas@.take(i + 1).drop_last() =~= cas@.take(i as int));
    }
    assert(cas@.take(cas@.len() as int) =~= cas@);
    out
}

/// What follows a change of devices or points.
pub fn build_refresh_actions(c: &Iec104ChannelConfig, cas: &Vec<u16>) -> (r: Vec<StartupAction>)
    ensures
        r@ == refresh_for(*c, cas@),
{
    let mut out: Vec<StartupAction> = Vec::new();
    for i in 0..cas.len()
        invariant
            out@ == refresh_for(*c, cas@.take(i as int)),
    {
        add_general(&mut out, c, cas[i]);
        add_counter(&mut out, c, cas[i]);
        assert(cas@.take(i + 1).drop_last() =~= cas@.take(i as int));
    }
    assert(cas@.take(cas@.len() as int) =~= cas@);
    out
}

/// A startup command that is sent, and repeated while it fails.
#[derive(Debug, Clone, Copy, PartialEq, Eq, Structural)]
pub struct Retry {
    attempt: u32,
    max_attempts: u32,
    delay_ms: u64,
}

/// What comes next after an attempt to send a startup command.
#[derive(Debug, Clone, PartialEq, Eq)]
pub enum AfterAttempt {
    /// The command was sent.
    Done,
    /// Wait for so many milliseconds, then try again.
    TryAgain(u64),
    /// Give up, with this error.
    GiveUp(String),
}

/// Twice as long, at most 200 ms.
pub open spec fn longer(delay_ms: u64) -> u64 {
    if delay_ms >= 100 {
        200
    } else {
        (delay_ms * 2) as u64
    }
}

/// How long the wait after an attempt is, counted from 0: 10 ms, and twice as
/// long each time, at most 200 ms.
pub open spec fn wait_after(attempt: nat) -> u64
    decreases attempt,
{
    if attempt == 0 {
        10
    } else {
        longer(wait_after((attempt - 1) as nat))
    }
}

impl Retry {
    /// How often the command was tried.
    pub closed spec fn tried(self) -> nat {
        self.attempt as nat
    }

    /// How often the command is tried at most.
    pub closed spec fn limit(self) -> nat {
        self.max_attempts as nat
    }

    pub closed spec fn wf(self) -> bool {
        &&& 1 <= self.max_attempts <= 256
        &&& self.attempt <= self.max_attempts
        &&& self.delay_ms == wait_after(self.attempt as nat)
    }

    /// A command that was not tried yet, and may be repeated so often.
    pub fn new(max_retries: u8) -> (r: Self)
        ensures
            r.wf(),
            r.tried() == 0,
            r.limit() == max_retries + 1,
    {
        Retry { attempt: 0, max_attempts: max_retries as u32 + 1, delay_ms: 10 }
    }

    /// What comes next after an attempt.
    pub fn next(&mut self, sent: bool) -> (r: AfterAttempt)
        requires
            old(self).wf(),
            old(self).tried() < old(self).limit(),
        ensures
            final(self).wf(),
            final(self).limit() == old(self).limit(),
            if sent {
                r is Done && *final(self) == *old(self)
            } else {
                final(self).tried() == old(self).tried() + 1 && if old(self).tried() + 1
                    < old(self).limit() {
                    r == AfterAttempt::TryAgain(wait_after(old(self).tried()))
                } else {
                    r matches AfterAttempt::GiveUp(text) && text@
                        == "startup command exhausted retries"@
                }
            },
    {
        if sent {
            return AfterAttempt::Done;
        }
        let wait: u64 = self.delay_ms;
        self.attempt = self.attempt + 1;
        self.delay_ms = if wait >= 100 {
            200
        } else {
            wait * 2
        };
        if self.attempt < self.max_attempts {
            AfterAttempt::TryAgain(wait)
        } else {
            AfterAttempt::GiveUp("startup command exhausted retries".to_owned())
        }
    }
}

/// Waits grow from 10 ms to at most 200 ms and never get shorter.
pub proof fn waits_grow_to_their_limit(attempt: nat)
    ensures
        10 <= wait_after(attempt) <= 200,
        wait_after(attempt) <= wait_after(attempt + 1),
    decreases attempt,
{
    if attempt > 0 {
        waits_grow_to_their_limit((attempt - 1) as nat);
    }
}

/// State of the connection of a channel.
#[derive(Debug, Clone, PartialEq, Eq)]
pub enum SouthwardConnectionState {
    Disconnected,
    Connecting,
    Connected,
    Reconnecting,
    Failed(String),
}

/// What happens to the session that the channel sends through.
#[derive(Debug, Clone, Copy, PartialEq, Eq, Structural)]
pub enum Attachment {
    /// It stays as it is.
    Keep,
    /// The session is attached, and those that wait for one are told.
    Attach,
    /// The session is detached, and those that wait for one are told.
    Detach,
    /// Those that wait for a session are told that there is none.
    Announce,
}

/// Counters of what a session drops.
#[derive(Debug, Clone, Copy, PartialEq, Eq, Structural)]
pub enum DropCounter {
    T1Timeouts,
    WindowFullDrops,
    MemoryBudgetDrops,
    FrameTooLargeDrops,
}

/// What an event of a session means for the channel.
pub struct Effects {
    /// Whether the channel is healthy, where the event says so.
    pub healthy: Option<bool>,
    pub attachment: Attachment,
    /// State of the connection, where it changes.
    pub state: Option<SouthwardConnectionState>,
    /// The last error, where there is a new one.
    pub last_error: Option<String>,
    /// The counter that goes up.
    pub counter: Option<DropCounter>,
    /// The startup commands are to be sent.
    pub send_startup: bool,
    /// The attempt is over.
    pub ended: bool,
}

/// The text of an optional string.
pub open spec fn says(s: Option<String>, text: Option<Seq<char>>) -> bool {
    match text {
        Some(t) => s matches Some(x) && x@ == t,
        None => s is None,
    }
}

/// The connection failed for this reason.
pub open spec fn failed_with(s: Option<SouthwardConnectionState>, why: Seq<char>) -> bool {
    s matches Some(SouthwardConnectionState::Failed(x)) && x@ == why
}

/// An effect on health, session, error and counter.
pub open spec fn is_effect(
    e: Effects,
    healthy: Option<bool>,
    attachment: Attachment,
    last_error: Option<Seq<char>>,
    counter: Option<DropCounter>,
) -> bool {
    &&& e.healthy == healthy
    &&& e.attachment == attachment
    &&& says(e.last_error, last_error)
    &&& e.counter == counter
}

/// What an event of a session means.
pub open spec fn meaning(ev: SessionEvent, e: Effects) -> bool {
    &&& e.send_startup == (ev matches SessionEvent::LifecycleChanged(s) && s is Active)
    &&& e.ended == (ev matches SessionEvent::LifecycleChanged(s) && (s is Closed || s is Failed))
    &&& match ev {
        SessionEvent::LifecycleChanged(SessionLifecycleState::Connecting) => {
            &&& is_effect(e, Some(false), Attachment::Keep, None, None)
            &&& e.state == Some(SouthwardConnectionState::Connecting)
        },
        SessionEvent::LifecycleChanged(SessionLifecycleState::Active) => {
            &&& is_effect(e, Some(true), Attachment::Attach, None, None)
            &&& e.state == Some(SouthwardConnectionState::Connected)
        },
        SessionEvent::LifecycleChanged(SessionLifecycleState::Closing) => {
            &&& is_effect(e, Some(false), Attachment::Detach, None, None)
            &&& e.state == Some(SouthwardConnectionState::Disconnected)
        },
        SessionEvent::LifecycleChanged(SessionLifecycleState::Closed) => {
            &&& is_effect(e, Some(false), Attachment::Announce, Some("session closed"@), None)
            &&& e.state == Some(SouthwardConnectionState::Disconnected)
        },
        SessionEvent::LifecycleChanged(SessionLifecycleState::Failed(why)) => {
            &&& is_effect(e, Some(false), Attachment::Announce, Some(why@), None)
            &&& failed_with(e.state, why@)
        },
        SessionEvent::T1Timeout => {
            &&& is_effect(
                e,
                None,
                Attachment::Keep,
                Some("t1 timeout"@),
                Some(DropCounter::T1Timeouts),
            )
            &&& e.state is None
        },
        SessionEvent::WindowFullDrop => {
            &&& is_effect(
                e,
                None,
                Attachment::Keep,
                Some("window full: dropped frame"@),
                Some(DropCounter::WindowFullDrops),
            )
            &&& e.state is None
        },
        SessionEvent::MemoryBudgetDrop => {
            &&& is_effect(
                e,
                None,
                Attachment::Keep,
                Some("memory budget exceeded: drop"@),
                Some(DropCounter::MemoryBudgetDrops),
            )
            &&& e.state is None
        },
        SessionEvent::FrameTooLargeDrop => {
            &&& is_effect(
                e,
                None,
                Attachment::Keep,
                Some("frame too large: drop"@),
                Some(DropCounter::FrameTooLargeDrops),
            )
            &&& e.state is None
        },
        _ => is_effect(e, None, Attachment::Keep, None, None) && e.state is None,
    }
}

fn moved_to(healthy: bool, attachment: Attachment, state: SouthwardConnectionState) -> (e: Effects)
    ensures
        is_effect(e, Some(healthy), attachment, None, None),
        e.state == Some(state),
        !e.send_startup,
        !e.ended,
{
    Effects {
        healthy: Some(healthy),
        attachment,
        state: Some(state),
        last_error: None,
        counter: None,
        send_startup: false,
        ended: false,
    }
}

fn ended_with(state: SouthwardConnectionState, why: String) -> (e: Effects)
    ensures
        is_effect(e, Some(false), Attachment::Announce, Some(why@), None),
        e.state == Some(state),
        !e.send_startup,
        e.ended,
{
    Effects {
        healthy: Some(false),
        attachment: Attachment::Announce,
        state: Some(state),
        last_error: Some(why),
        counter: None,
        send_startup: false,
        ended: true,
    }
}

fn noted(error: Option<String>, counter: Option<DropCounter>) -> (e: Effects)
    ensures
        e.healthy is None,
        e.attachment is Keep,
        e.state is None,
        e.last_error == error,
        e.counter == counter,
        !e.send_startup,
        !e.ended,
{
    Effects {
        healthy: None,
        attachment: Attachment::Keep,
        state: None,
        last_error: error,
        counter,
        send_startup: false,
        ended: false,
    }
}

/// What an event of a session means for the channel.
pub fn on_event(ev: SessionEvent) -> (e: Effects)
    ensures
        meaning(ev, e),
{
    match ev {
        SessionEvent::LifecycleChanged(s) => match s {
            SessionLifecycleState::Connecting => moved_to(
                false,
                Attachment::Keep,
                SouthwardConnectionState::Connecting,
            ),
            SessionLifecycleState::Active => {
                let mut e = moved_to(
                    true,
                    Attachment::Attach,
                    SouthwardConnectionState::Connected,
                );
                e.send_startup = true;
                e
            },
            SessionLifecycleState::Closing => moved_to(
                false,
                Attachment::Detach,
                SouthwardConnectionState::Disconnected,
            ),
            SessionLifecycleState::Closed => ended_with(
                SouthwardConnectionState::Disconnected,
                "session closed".to_owned(),
            ),
            SessionLifecycleState::Failed(why) => {
                let state = SouthwardConnectionState::Failed(why.clone());
                ended_with(state, why)
            },
            _ => noted(None, None),
        },
        SessionEvent::T1Timeout => noted(
            Some("t1 timeout".to_owned()),
            Some(DropCounter::T1Timeouts),
        ),
        SessionEvent::WindowFullDrop => noted(
            Some("window full: dropped frame".to_owned()),
            Some(DropCounter::WindowFullDrops),
        ),
        SessionEvent::MemoryBudgetDrop => noted(
            Some("memory budget exceeded: drop".to_owned()),
            Some(DropCounter::MemoryBudgetDrops),
        ),
        SessionEvent::FrameTooLargeDrop => noted(
            Some("frame too large: drop".to_owned()),
            Some(DropCounter::FrameTooLargeDrops),
        ),
        _ => noted(None, None),
    }
}

/// Attempts to connect in a row without an active session.
#[derive(Debug, Clone, Copy, PartialEq, Eq, Structural)]
pub struct Attempts {
    pub count: u32,
}

/// What follows an attempt.
#[derive(Debug, Clone, PartialEq, Eq)]
pub enum NextAttempt {
    /// Wait for so many milliseconds, then try again.
    After(u64),
    /// There is no further attempt; the connection is in this state.
    Never(SouthwardConnectionState),
}

impl Attempts {
    /// The backoff starts anew after a session that was active.
    pub fn resets_backoff(&mut self, seen_active: bool) -> (r: bool)
        ensures
            r == seen_active,
            final(self).count == if seen_active {
                0
            } else {
                old(self).count
            },
    {
        if seen_active {
            self.count = 0;
        }
        seen_active
    }

    /// What follows an attempt, given how long the backoff says to wait.
    pub fn next(&mut self, backoff_ms: Option<u64>) -> (r: NextAttempt)
        ensures
            match backoff_ms {
                Some(ms) => r == NextAttempt::After(ms) && final(self).count == if old(self).count
                    == u32::MAX {
                    u32::MAX
                } else {
                    (old(self).count + 1) as u32
                },
                None => r matches NextAttempt::Never(s) && failed_with(Some(s), "cancelled"@)
                    && final(self).count == old(self).count,
            },
    {
        match backoff_ms {
            Some(ms) => {
                if self.count < u32::MAX {
                    self.count = self.count + 1;
                }
                NextAttempt::After(ms)
            },
            None => NextAttempt::Never(SouthwardConnectionState::Failed("cancelled".to_owned())),
        }
    }
}

/// The channel sends through a session from the moment at which the session
/// becomes active until it is closing or has ended: it is attached then, and
/// detached, or announced to be gone, only with those states. It stays attached
/// while data transfer is stopped.
pub proof fn session_is_attached_until_it_closes(s: SessionLifecycleState, e: Effects)
    requires
        meaning(SessionEvent::LifecycleChanged(s), e),
    ensures
        e.attachment is Attach <==> s is Active,
        e.healthy == Some(true) <==> s is Active,
        s is Closing || s is Closed || s is Failed ==> (e.attachment is Detach
            || e.attachment is Announce) && e.healthy == Some(false),
        !(s is Active || s is Closing || s is Closed || s is Failed) ==> e.attachment is Keep,
{
}

} // verus!
