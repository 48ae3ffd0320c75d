//! Decisions of a supervised session: readiness, periodic interrogations and
//! the end of an attempt.

use super::supervisor::StartupAction;
use super::types::Iec104ChannelConfig;
use crate::gateway::{write_timeout, write_timeout_spec, DriverError};
use vstd::prelude::*;

verus! {

/// Pre-resolved target for a single interrogation command.
#[derive(Debug, Clone, Copy, PartialEq, Eq, Structural)]
pub enum InterrogationTarget {
    General { ca: u16, qoi: u8 },
    Counter { ca: u16, qcc: u8 },
}

impl InterrogationTarget {
    /// The interrogation of the target.
    pub open spec fn action_spec(self) -> StartupAction {
        match self {
            InterrogationTarget::General { ca, qoi } => StartupAction::GeneralInterrogation {
                ca,
                qoi,
            },
            InterrogationTarget::Counter { ca, qcc } => StartupAction::CounterInterrogation {
                ca,
                qcc,
            },
        }
    }

    /// The interrogation of the target.
    pub fn action(&self) -> (r: StartupAction)
        ensures
            r == self.action_spec(),
    {
        match *self {
            InterrogationTarget::General { ca, qoi } => StartupAction::GeneralInterrogation {
                ca,
                qoi,
            },
            InterrogationTarget::Counter { ca, qcc } => StartupAction::CounterInterrogation {
                ca,
                qcc,
            },
        }
    }
}

/// The target of a startup action, if it is of the kind that is asked for.
pub open spec fn target_of(a: StartupAction, gi: bool) -> Option<InterrogationTarget> {
    match a {
        StartupAction::GeneralInterrogation { ca, qoi } => if gi {
            Some(InterrogationTarget::General { ca, qoi })
        } else {
            None
        },
        StartupAction::CounterInterrogation { ca, qcc } => if gi {
            None
        } else {
            Some(InterrogationTarget::Counter { ca, qcc })
        },
    }
}

/// The targets of startup actions of one kind, in their order.
pub open spec fn targets_of(actions: Seq<StartupAction>, gi: bool) -> Seq<InterrogationTarget>
    decreases actions.len(),
{
    if actions.len() == 0 {
        Seq::empty()
    } else {
        let before = targets_of(actions.drop_last(), gi);
        match target_of(actions.last(), gi) {
            Some(t) => before.push(t),
            None => before,
        }
    }
}

/// Extract the interrogation targets of startup actions. `gi == true` selects
/// general interrogations; `gi == false` selects counter interrogations.
pub fn resolve_targets(actions: &[StartupAction], gi: bool) -> (r: Vec<InterrogationTarget>)
    ensures
        r@ == targets_of(actions@, gi),
{
    let mut out: Vec<InterrogationTarget> = Vec::new();
    for i in 0..actions.len()
        invariant
            out@ == targets_of(actions@.take(i as int), gi),
    {
        assert(actions@.take(i + 1).drop_last() =~= actions@.take(i as int));
        match actions[i] {
            StartupAction::GeneralInterrogation { ca, qoi } => {
                if gi {
                    out.push(InterrogationTarget::General { ca, qoi });
                }
            },
            StartupAction::CounterInterrogation { ca, qcc } => {
                if !gi {
                    out.push(InterrogationTarget::Counter { ca, qcc });
                }
            },
        }
    }
    assert(actions@.take(actions@.len() as int) =~= actions@);
    out
}

/// Every startup action is the interrogation of exactly one target, general
/// or counter.
pub proof fn targets_cover_the_actions(actions: Seq<StartupAction>)
    ensures
        targets_of(actions, true).len() + targets_of(actions, false).len() == actions.len(),
        forall|i: int|
            0 <= i < targets_of(actions, true).len() ==> actions.contains(
                (#[trigger] targets_of(actions, true)[i]).action_spec(),
            ),
        forall|i: int|
            0 <= i < targets_of(actions, false).len() ==> actions.contains(
                (#[trigger] targets_of(actions, false)[i]).action_spec(),
            ),
    decreases actions.len(),
{
    if actions.len() > 0 {
        let front = actions.drop_last();
        targets_cover_the_actions(front);
        assert forall|a: StartupAction| front.contains(a) implies actions.contains(a) by {
            let k = choose|k: int| 0 <= k < front.len() && front[k] == a;
            assert(actions[k] == a);
        }
        assert(actions[actions.len() - 1] == actions.last());
        assert(actions.contains(actions.last()));
        assert forall|i: int|
            0 <= i < targets_of(actions, true).len() implies actions.contains(
            (#[trigger] targets_of(actions, true)[i]).action_spec(),
        ) by {
            if i < targets_of(front, true).len() {
                assert(front.contains(targets_of(front, true)[i].action_spec()));
            }
        }
        assert forall|i: int|
            0 <= i < targets_of(actions, false).len() implies actions.contains(
            (#[trigger] targets_of(actions, false)[i]).action_spec(),
        ) by {
            if i < targets_of(front, false).len() {
                assert(front.contains(targets_of(front, false)[i].action_spec()));
            }
        }
    }
}

/// Timers of a running session in seconds; 0 switches one off.
#[derive(Debug, Clone, Copy, PartialEq, Eq, Structural)]
pub struct RunTimers {
    pub periodic_gi_interval_secs: u64,
    pub periodic_ci_interval_secs: u64,
    pub data_silence_timeout_secs: u64,
}

/// How often something is done: not at all where the interval is 0, where it
/// is not wanted, or where there is nothing to do.
pub open spec fn interval(wanted: bool, targets: nat, secs: u64) -> Option<u64> {
    if wanted && targets > 0 && secs > 0 {
        Some(secs)
    } else {
        None
    }
}

/// What a session does while it runs.
pub struct RunPlan {
    pub gi_targets: Vec<InterrogationTarget>,
    pub ci_targets: Vec<InterrogationTarget>,
    /// Seconds between general interrogations.
    pub gi_interval_secs: Option<u64>,
    /// Seconds between counter interrogations.
    pub ci_interval_secs: Option<u64>,
    /// Seconds without an ASDU after which a reconnect is requested.
    pub silence_secs: Option<u64>,
    /// How long a command may take to be handed over (ms).
    pub write_timeout_ms: u64,
}

/// What a session does while it runs.
pub fn run_plan(
    actions: &[StartupAction],
    config: &Iec104ChannelConfig,
    timers: &RunTimers,
    policy_write_ms: u64,
) -> (r: RunPlan)
    ensures
        r.gi_targets@ == targets_of(actions@, true),
        r.ci_targets@ == targets_of(actions@, false),
        r.gi_interval_secs == interval(
            config.auto_startup_general_interrogation,
            targets_of(actions@, true).len(),
            timers.periodic_gi_interval_secs,
        ),
        r.ci_interval_secs == interval(
            config.auto_startup_counter_interrogation,
            targets_of(actions@, false).len(),
            timers.periodic_ci_interval_secs,
        ),
        r.silence_secs == if timers.data_silence_timeout_secs > 0 {
            Some(timers.data_silence_timeout_secs)
        } else {
            None
        },
        r.write_timeout_ms == write_timeout_spec(None, policy_write_ms),
{
    let gi_targets = resolve_targets(actions, true);
    let ci_targets = resolve_targets(actions, false);
    let gi_interval_secs: Option<u64> = if config.auto_startup_general_interrogation
        && gi_targets.len() > 0 && timers.periodic_gi_interval_secs > 0 {
        Some(timers.periodic_gi_interval_secs)
    } else {
        None
    };
    let ci_interval_secs: Option<u64> = if config.auto_startup_counter_interrogation
        && ci_targets.len() > 0 && timers.periodic_ci_interval_secs > 0 {
        Some(timers.periodic_ci_interval_secs)
    } else {
        None
    };
    let silence_secs: Option<u64> = if timers.data_silence_timeout_secs > 0 {
        Some(timers.data_silence_timeout_secs)
    } else {
        None
    };
    RunPlan {
        gi_targets,
        ci_targets,
        gi_interval_secs,
        ci_interval_secs,
        silence_secs,
        write_timeout_ms: write_timeout(None, policy_write_ms),
    }
}

/// How long a session may take to become active: as the policy says, at least
/// 1 ms.
pub open spec fn ready_timeout_spec(connect_timeout_ms: u64) -> u64 {
    if connect_timeout_ms == 0 {
        1
    } else {
        connect_timeout_ms
    }
}

/// How long a session may take to become active.
pub fn ready_timeout(connect_timeout_ms: u64) -> (r: u64)
    ensures
        r == ready_timeout_spec(connect_timeout_ms),
{
    if connect_timeout_ms == 0 {
        1
    } else {
        connect_timeout_ms
    }
}

/// The outcome of waiting for a session to become active. `active` is what
/// the wait came to; `None` where it was cancelled or took too long.
pub fn init_outcome(active: Option<bool>, connect_timeout_ms: u64) -> (r: Result<(), DriverError>)
    ensures
        if active == Some(true) {
            r is Ok
        } else {
            r == Err::<(), DriverError>(
                DriverError::Timeout(ready_timeout_spec(connect_timeout_ms)),
            )
        },
{
    match active {
        Some(true) => Ok(()),
        _ => Err(DriverError::Timeout(ready_timeout(connect_timeout_ms))),
    }
}

} // verus!
