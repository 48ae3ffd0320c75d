//! What the channel sends, in bytes: commands for writes and actions, and the
//! interrogations that follow an activation.

use super::driver::{
    activation, command_tag, is_action_step, is_cast_for, is_command_of, is_put, is_write_type,
    kind_of_command, ActionStep, CastValue, CommandKind, Purpose,
};
use super::protocol::frame::asdu::{Asdu, AsduData, CommonAddr, InfoObjAddr, TypeID};
use super::protocol::frame::cproc::{
    BitsString32CommandInfo, DoubleCommandInfo, SetPointCommandFloatInfo,
    SetPointCommandNormalInfo, SetPointCommandScaledInfo, SingleCommandInfo, StepCommandInfo,
};
use super::protocol::frame::format::{
    command_has_the_kind_of_its_measurement, object_kind, time_tagged, type_of_a_code,
};
use super::protocol::frame::layout::{bit, set_points_are_written, wrapped};
use super::protocol::frame::mproc::{carries, encodes, sends, InfoObject};
use super::protocol::frame::objects::{body, is_stamp, ObjectBytes};
use super::protocol::frame::quality::{weight, ObjectDCO, ObjectQOS, ObjectRCO, ObjectSCO};
use super::protocol::frame::time::{cp56, TagKind};
use super::protocol::session::{SessionEvent, SessionLifecycleState};
use super::session::{interval, ready_timeout_spec, target_of};
use super::supervisor::{
    meaning, refresh_for, startup_for, wait_after, DropCounter, Effects, SouthwardConnectionState,
    StartupAction,
};
use super::types::{Iec104ChannelConfig, Iec104Parameter, Iec104Point};
use crate::clock::CivilTime;
use crate::gateway::{DataType, DriverError};
use crate::wire::{le_bytes, lemma_le2, lemma_le3};
use vstd::prelude::*;

verus! {

/// The front of every command: type, one object, activation, no originator,
/// common address and object address, low byte first.
pub open spec fn command_front(code: int, ca: CommonAddr, ioa: u16) -> Seq<u8> {
    seq![
        code as u8,
        1u8,
        6u8,
        0u8,
        (ca % 256) as u8,
        (ca / 256) as u8,
        (ioa % 256) as u8,
        (ioa / 256) as u8,
        0u8,
    ]
}

/// The value bytes of a command, by the code of its type: a state, a state or
/// step in the low two bits, a number with its qualifier, or a bit string.
pub open spec fn value_is_put(code: int, v: CastValue, b: Seq<u8>) -> bool {
    if code == 45 || code == 58 {
        v matches CastValue::Truth(Ok(x)) && b.len() == 1 && b[0] == bit(x, 1)
    } else if code == 46 || code == 59 || code == 47 || code == 60 {
        v matches CastValue::Byte(Ok(x)) && b.len() == 1 && b[0] == x % 4
    } else if code == 48 || code == 61 || code == 49 || code == 62 {
        v matches CastValue::Short(Ok(x)) && b.len() == 3 && b[0] + 256 * b[1] == wrapped(
            x as int,
            65536,
        ) && b[2] == 0
    } else if code == 50 || code == 63 {
        v matches CastValue::Real(Ok(x)) && b.len() == 5 && b[0] + 256 * b[1] + 65536 * b[2]
            + 16777216 * b[3] == x && b[4] == 0
    } else {
        v matches CastValue::Word(Ok(x)) && b.len() == 4 && b[0] + 256 * b[1] + 65536 * b[2]
            + 16777216 * b[3] == wrapped(x as int, 4294967296)
    }
}

/// The tag bytes of a command: none for the codes 45 to 51, the moment for 58
/// to 64.
pub open spec fn tag_is_put(code: int, time: Option<CivilTime>, b: Seq<u8>) -> bool {
    if code < 58 {
        b.len() == 0
    } else {
        match time {
            Some(t) => b == cp56(t),
            None => exists|t: CivilTime| t.wf() && b == #[trigger] cp56(t),
        }
    }
}

/// The bytes are a command with this value.
pub open spec fn is_command_in_bytes(
    b: Seq<u8>,
    code: int,
    ca: CommonAddr,
    ioa: u16,
    v: CastValue,
    time: Option<CivilTime>,
) -> bool {
    exists|value: Seq<u8>, tag: Seq<u8>|
        #![trigger value_is_put(code, v, value), tag_is_put(code, time, tag)]
        b == command_front(code, ca, ioa) + value + tag && value_is_put(code, v, value)
            && tag_is_put(code, time, tag)
}

proof fn lemma_one_object<T: InfoObject>(
    a: AsduData,
    cmd: T,
    t: TypeID,
    kind: TagKind,
    ca: CommonAddr,
    ioa: u16,
) -> (tag: Seq<u8>)
    requires
        sends(a, seq![cmd], t, kind, false, activation(), ca),
        cmd.addr_spec() == (InfoObjAddr { res: 0, addr: ioa }),
    ensures
        a.encoded() == command_front(t.code_spec() as int, ca, ioa) + cmd.value_spec(t) + tag,
        is_stamp(kind, cmd.time_spec(), tag),
{
    let infos = seq![cmd];
    let objs = choose|objs: Seq<ObjectBytes>|
        #![trigger encodes(infos, t, kind, objs)]
        encodes(infos, t, kind, objs) && carries(
            a,
            t,
            false,
            activation(),
            ca,
            objs,
        );
    let o = objs[0];
    assert(o.ioa == infos[0].addr_spec());
    assert(o.value == cmd.value_spec(t));
    assert(objs.skip(1) =~= Seq::empty());
    assert(body(objs.skip(1), false, false) =~= Seq::empty());
    lemma_le3(ioa as nat);
    lemma_le2(ca as nat);
    let addr = seq![(ioa % 256) as u8, (ioa / 256) as u8, 0u8];
    assert(o.ioa.raw_spec() == ioa);
    assert(le_bytes(o.ioa.raw_spec() as nat, 3) =~= addr);
    assert(a.raw =~= addr + o.value + o.tag);
    assert(a.identifier.variable_struct.raw_spec() == 1);
    assert(a.identifier.encoded() =~= seq![
        t.code_spec(),
        1u8,
        6u8,
        0u8,
        (ca % 256) as u8,
        (ca / 256) as u8,
    ]);
    assert(a.encoded() =~= command_front(t.code_spec() as int, ca, ioa) + cmd.value_spec(t) + o.tag);
    o.tag
}

proof fn lemma_switching(
    a: Asdu,
    t: TypeID,
    ca: CommonAddr,
    ioa: u16,
    v: CastValue,
    time: Option<CivilTime>,
)
    requires
        is_command_of(a, t, ca, ioa, v, time),
        kind_of_command(t) == Some(CommandKind::Single) || kind_of_command(t) == Some(
            CommandKind::Double,
        ) || kind_of_command(t) == Some(CommandKind::Step),
    ensures
        is_command_in_bytes(a@.encoded(), t.code_spec() as int, ca, ioa, v, time),
{
    let addr = InfoObjAddr { res: 0, addr: ioa };
    let kind = command_tag(t);
    let code = t.code_spec() as int;
    match v {
        CastValue::Truth(Ok(x)) => {
            let cmd = SingleCommandInfo {
                ioa: addr,
                sco: ObjectSCO { raw: weight(x, 1) as u8 },
                time,
            };
            let tag = lemma_one_object(a@, cmd, t, kind, ca, ioa);
            assert(value_is_put(code, v, cmd.value_spec(t)) && tag_is_put(code, time, tag));
        },
        CastValue::Byte(Ok(x)) => {
            if kind_of_command(t) == Some(CommandKind::Double) {
                let cmd = DoubleCommandInfo { ioa: addr, dco: ObjectDCO { raw: x % 4 }, time };
                let tag = lemma_one_object(a@, cmd, t, kind, ca, ioa);
                assert(value_is_put(code, v, cmd.value_spec(t)) && tag_is_put(code, time, tag));
            } else {
                let cmd = StepCommandInfo { ioa: addr, rco: ObjectRCO { raw: x % 4 }, time };
                let tag = lemma_one_object(a@, cmd, t, kind, ca, ioa);
                assert(value_is_put(code, v, cmd.value_spec(t)) && tag_is_put(code, time, tag));
            }
        },
        _ => {},
    }
}

proof fn lemma_set_point(
    a: Asdu,
    t: TypeID,
    ca: CommonAddr,
    ioa: u16,
    v: CastValue,
    time: Option<CivilTime>,
)
    requires
        is_command_of(a, t, ca, ioa, v, time),
        kind_of_command(t) == Some(CommandKind::Normal) || kind_of_command(t) == Some(
            CommandKind::Scaled,
        ) || kind_of_command(t) == Some(CommandKind::Float) || kind_of_command(t) == Some(
            CommandKind::Bits,
        ),
    ensures
        is_command_in_bytes(a@.encoded(), t.code_spec() as int, ca, ioa, v, time),
{
    let addr = InfoObjAddr { res: 0, addr: ioa };
    let kind = command_tag(t);
    let code = t.code_spec() as int;
    let qos = ObjectQOS { raw: 0 };
    let short = match v {
        CastValue::Short(Ok(x)) => x,
        _ => 0,
    };
    let n = SetPointCommandNormalInfo { ioa: addr, nva: short, qos, time };
    let s = SetPointCommandScaledInfo { ioa: addr, sva: short, qos, time };
    let f = SetPointCommandFloatInfo {
        ioa: addr,
        r: match v {
            CastValue::Real(Ok(x)) => x,
            _ => 0,
        },
        qos,
        time,
    };
    let b = BitsString32CommandInfo {
        ioa: addr,
        bcr: match v {
            CastValue::Word(Ok(x)) => x,
            _ => 0,
        },
        time,
    };
    set_points_are_written(n, s, f, b, t);
    match kind_of_command(t) {
        Some(CommandKind::Normal) => {
            let tag = lemma_one_object(a@, n, t, kind, ca, ioa);
            assert(value_is_put(code, v, n.value_spec(t)) && tag_is_put(code, time, tag));
        },
        Some(CommandKind::Scaled) => {
            let tag = lemma_one_object(a@, s, t, kind, ca, ioa);
            assert(value_is_put(code, v, s.value_spec(t)) && tag_is_put(code, time, tag));
        },
        Some(CommandKind::Float) => {
            let tag = lemma_one_object(a@, f, t, kind, ca, ioa);
            assert(value_is_put(code, v, f.value_spec(t)) && tag_is_put(code, time, tag));
        },
        _ => {
            let tag = lemma_one_object(a@, b, t, kind, ca, ioa);
            assert(value_is_put(code, v, b.value_spec(t)) && tag_is_put(code, time, tag));
        },
    }
}

/// A value that is put into a command stands in its bytes: behind type, count,
/// cause and addresses come the bytes of the value and, for the types with a
/// time tag, the moment. A value that could not be cast gives an error.
pub proof fn commands_carry_their_value(
    r: Result<Asdu, DriverError>,
    purpose: Purpose,
    t: TypeID,
    ca: CommonAddr,
    ioa: u16,
    v: CastValue,
    time: Option<CivilTime>,
)
    requires
        is_put(r, purpose, t, ca, ioa, v, time),
        kind_of_command(t) matches Some(kind) && is_cast_for(kind, v),
    ensures
        r matches Ok(a) ==> is_command_in_bytes(
            a@.encoded(),
            t.code_spec() as int,
            ca,
            ioa,
            v,
            time,
        ),
        r is Err <==> (match v {
            CastValue::Truth(x) => x is Err,
            CastValue::Byte(x) => x is Err,
            CastValue::Short(x) => x is Err,
            CastValue::Real(x) => x is Err,
            CastValue::Word(x) => x is Err,
        }),
{
    match r {
        Ok(a) => {
            let kind = kind_of_command(t)->0;
            if kind is Single || kind is Double || kind is Step {
                lemma_switching(a, t, ca, ioa, v, time);
            } else {
                lemma_set_point(a, t, ca, ioa, v, time);
            }
        },
        Err(_) => {},
    }
}

/// Values are cast to what their command takes: single commands to a truth
/// value, double and step commands to a byte, normalized and scaled set points
/// to 16 bits, float set points to a float, bit strings to 32 bits.
pub proof fn casts_fit_their_commands(t: TypeID, v: CastValue)
    ensures
        ({
            let c = t.code_spec();
            &&& kind_of_command(t) is Some <==> 45 <= c <= 51 || 58 <= c <= 64
            &&& kind_of_command(t) matches Some(kind) ==> {
                &&& c == 45 || c == 58 ==> (is_cast_for(kind, v) <==> v is Truth)
                &&& c == 46 || c == 59 || c == 47 || c == 60 ==> (is_cast_for(kind, v) <==> v
                    is Byte)
                &&& c == 48 || c == 61 || c == 49 || c == 62 ==> (is_cast_for(kind, v) <==> v
                    is Short)
                &&& c == 50 || c == 63 ==> (is_cast_for(kind, v) <==> v is Real)
                &&& c == 51 || c == 64 ==> (is_cast_for(kind, v) <==> v is Word)
            }
        }),
{
}

/// A point is written exactly where it is writeable, its type has a command
/// and the value is valid; and the command carries a value of the kind of the
/// point, tagged as the point is.
pub proof fn writes_take_the_command_of_the_point(
    r: Result<TypeID, DriverError>,
    p: Iec104Point,
    valid: bool,
    got: DataType,
)
    requires
        is_write_type(r, p, valid, got),
    ensures
        r is Ok <==> valid && (p.access_mode is Write || p.access_mode is ReadWrite) && (1
            <= p.type_id <= 14 || p.type_id == 21 || 30 <= p.type_id <= 36 || 45 <= p.type_id <= 51
            || 58 <= p.type_id <= 64),
        r matches Ok(c) ==> (TypeID::of_code(p.type_id) matches Some(t) && t.code_spec()
            == p.type_id && object_kind(c) == object_kind(t) && time_tagged(c) == time_tagged(t)
            && kind_of_command(c) is Some),
        !(p.access_mode is Write || p.access_mode is ReadWrite) ==> r matches Err(
            DriverError::ValidationError(_),
        ),
{
    type_of_a_code(p.type_id);
    match TypeID::of_code(p.type_id) {
        Some(t) => {
            command_has_the_kind_of_its_measurement(t);
        },
        None => {},
    }
}

/// A parameter of an action is sent as a command of its own type, or as the
/// interrogation that its type stands for, with the qualifier of the channel;
/// every other type is refused.
pub proof fn actions_take_the_type_of_the_parameter(
    r: Result<ActionStep, DriverError>,
    p: Iec104Parameter,
    c: Iec104ChannelConfig,
    ca: CommonAddr,
)
    requires
        is_action_step(r, p, c, ca),
    ensures
        ({
            let n = p.type_id;
            &&& 45 <= n <= 51 || 58 <= n <= 64 ==> (r matches Ok(ActionStep::Command(t))
                && t.code_spec() == n)
            &&& n == 100 ==> r == Ok::<ActionStep, DriverError>(
                ActionStep::Interrogate(
                    StartupAction::GeneralInterrogation { ca, qoi: c.startup_qoi },
                ),
            )
            &&& n == 101 ==> r == Ok::<ActionStep, DriverError>(
                ActionStep::Interrogate(
                    StartupAction::CounterInterrogation { ca, qcc: c.startup_qcc },
                ),
            )
            &&& !(45 <= n <= 51 || 58 <= n <= 64 || n == 100 || n == 101) ==> r matches Err(
                DriverError::ConfigurationError(_),
            )
        }),
{
    type_of_a_code(p.type_id);
}

/// The ten bytes of an interrogation: type 100 or 101, one object, activation,
/// no originator, common address, object address 0, and the qualifier.
pub proof fn interrogations_in_bytes(s: StartupAction, a: AsduData)
    requires
        s.is_activated_by(a),
    ensures
        match s {
            StartupAction::GeneralInterrogation { ca, qoi } => a.encoded() == command_front(
                100,
                ca,
                0,
            ) + seq![qoi],
            StartupAction::CounterInterrogation { ca, qcc } => a.encoded() == command_front(
                101,
                ca,
                0,
            ) + seq![qcc],
        },
{
    match s {
        StartupAction::GeneralInterrogation { ca, qoi } => {
            lemma_le2(ca as nat);
            assert(a.encoded() =~= command_front(100, ca, 0) + seq![qoi]);
        },
        StartupAction::CounterInterrogation { ca, qcc } => {
            lemma_le2(ca as nat);
            assert(a.encoded() =~= command_front(101, ca, 0) + seq![qcc]);
        },
    }
}

/// After an activation every common address is interrogated in its turn, for
/// counters first and then in general, as far as the channel does so; after a
/// change of devices or points in general first.
pub proof fn every_address_is_interrogated(c: Iec104ChannelConfig, cas: Seq<u16>, i: int)
    requires
        0 <= i < cas.len(),
    ensures
        ({
            let counter = c.auto_startup_counter_interrogation;
            let general = c.auto_startup_general_interrogation;
            let ci = StartupAction::CounterInterrogation { ca: cas[i], qcc: c.startup_qcc };
            let gi = StartupAction::GeneralInterrogation { ca: cas[i], qoi: c.startup_qoi };
            let startup = startup_for(c, cas);
            let refresh = refresh_for(c, cas);
            &&& startup.len() == refresh.len()
            &&& counter && general ==> startup.len() == 2 * cas.len() && startup[2 * i] == ci
                && startup[2 * i + 1] == gi && refresh[2 * i] == gi && refresh[2 * i + 1] == ci
            &&& counter && !general ==> startup.len() == cas.len() && startup[i] == ci && refresh[i]
                == ci
            &&& !counter && general ==> startup.len() == cas.len() && startup[i] == gi && refresh[i]
                == gi
            &&& !counter && !general ==> startup.len() == 0
        }),
    decreases cas.len(),
{
    let front = cas.drop_last();
    if i < front.len() {
        every_address_is_interrogated(c, front, i);
        assert(front[i] == cas[i]);
    } else if front.len() > 0 {
        every_address_is_interrogated(c, front, 0);
    } else {
        assert(startup_for(c, front) =~= Seq::empty());
        assert(refresh_for(c, front) =~= Seq::empty());
    }
}

/// The waits between attempts: 10, 20, 40, 80, 160 ms, and 200 ms from then on.
pub proof fn waits_double_from_ten(attempt: nat)
    ensures
        wait_after(0) == 10,
        wait_after(attempt) <= 100 ==> wait_after(attempt + 1) == 2 * wait_after(attempt),
        wait_after(attempt) > 100 ==> wait_after(attempt + 1) == 200,
        attempt >= 5 ==> wait_after(attempt) == 200,
    decreases attempt,
{
    if attempt > 5 {
        waits_double_from_ten((attempt - 1) as nat);
    } else {
        reveal_with_fuel(wait_after, 7);
    }
}

/// What the events of a session mean: each kind of loss has its own counter,
/// the states of the session are those of the connection, the startup commands
/// follow an activation alone, and an attempt ends with a closed or failed
/// session alone.
pub proof fn events_mean_what_they_say(ev: SessionEvent, e: Effects)
    requires
        meaning(ev, e),
    ensures
        e.counter == Some(DropCounter::T1Timeouts) <==> ev is T1Timeout,
        e.counter == Some(DropCounter::WindowFullDrops) <==> ev is WindowFullDrop,
        e.counter == Some(DropCounter::MemoryBudgetDrops) <==> ev is MemoryBudgetDrop,
        e.counter == Some(DropCounter::FrameTooLargeDrops) <==> ev is FrameTooLargeDrop,
        e.send_startup <==> ev == SessionEvent::LifecycleChanged(SessionLifecycleState::Active),
        e.ended <==> (ev matches SessionEvent::LifecycleChanged(s) && (s is Closed || s is Failed)),
        e.state == Some(SouthwardConnectionState::Connected) <==> ev
            == SessionEvent::LifecycleChanged(SessionLifecycleState::Active),
        e.state == Some(SouthwardConnectionState::Connecting) <==> ev
            == SessionEvent::LifecycleChanged(SessionLifecycleState::Connecting),
        e.state == Some(SouthwardConnectionState::Disconnected) <==> (ev
            == SessionEvent::LifecycleChanged(SessionLifecycleState::Closing) || ev
            == SessionEvent::LifecycleChanged(SessionLifecycleState::Closed)),
        e.state is Some && e.state->0 is Failed <==> (ev matches SessionEvent::LifecycleChanged(s)
            && s is Failed),
        e.healthy == Some(false) <==> (ev matches SessionEvent::LifecycleChanged(s) && (s
            is Connecting || s is Closing || s is Closed || s is Failed)),
        e.last_error is Some <==> (ev is T1Timeout || ev is WindowFullDrop || ev is MemoryBudgetDrop
            || ev is FrameTooLargeDrop || (ev matches SessionEvent::LifecycleChanged(s) && (s
            is Closed || s is Failed))),
        ev matches SessionEvent::LifecycleChanged(SessionLifecycleState::Failed(why)) ==> (
        e.last_error matches Some(x) && x@ == why@),
        e.attachment is Detach <==> ev == SessionEvent::LifecycleChanged(
            SessionLifecycleState::Closing,
        ),
        e.attachment is Announce <==> e.ended,
{
}

/// Interrogations are repeated at their interval exactly where they are
/// wanted, there is something to interrogate and the interval is not 0; and a
/// target is the interrogation that it was taken from.
pub proof fn interrogations_are_repeated(
    wanted: bool,
    targets: nat,
    secs: u64,
    a: StartupAction,
    connect_timeout_ms: u64,
)
    ensures
        interval(wanted, targets, secs) is Some <==> wanted && targets > 0 && secs > 0,
        interval(wanted, targets, secs) matches Some(s) ==> s == secs,
        target_of(a, true) is Some <==> a is GeneralInterrogation,
        target_of(a, false) is Some <==> a is CounterInterrogation,
        target_of(a, true) matches Some(t) ==> t is General && t.action_spec() == a,
        target_of(a, false) matches Some(t) ==> t is Counter && t.action_spec() == a,
        connect_timeout_ms >= 1 ==> ready_timeout_spec(connect_timeout_ms) == connect_timeout_ms,
        ready_timeout_spec(0) == 1,
{
}

} // verus!
