//! What becomes of commands and lists that are sent, of what is removed, and
//! which failure is told.

use super::converter::{first_bad_input, input_spec, InputModel};
use super::extract::{first_value, is_value_of, MatchedValue};
use super::points::{
    has_address, points_at, removal_concerns_one_device, removed_device_leaves_nothing,
    without_devices, Snapshot,
};
use super::protocol::error::Error;
use super::protocol::frame::asdu::{Asdu, AsduData, Cause, CauseOfTransmission, CommonAddr, TypeID};
use super::protocol::frame::cproc::command_outcome;
use super::protocol::frame::mproc::{send_outcome, sends, InfoObject};
use super::protocol::frame::time::TagKind;
use super::protocol::session::{Request, Session};
use super::types::Iec104Device;
use crate::gateway::NGValue;
use vstd::prelude::*;

verus! {

/// The cause is one of control: an activation or deactivation, its
/// confirmation or termination, or a negative answer to one.
pub open spec fn is_control(c: Cause) -> bool {
    6 <= c.code_spec() <= 10 || 44 <= c.code_spec() <= 47
}

/// A command is sent exactly where its cause is one of commands and its type
/// one of its own; it is then sent as one object with cause, address and tag
/// of the call.
pub proof fn commands_are_sent_or_refused<T: InfoObject>(
    r: Result<Asdu, Error>,
    cmd: T,
    t: TypeID,
    tag: Option<TagKind>,
    cot: CauseOfTransmission,
    ca: CommonAddr,
)
    requires
        command_outcome(r, cmd, t, tag, cot, ca),
    ensures
        r is Ok <==> is_control(cot.cause) && tag is Some,
        !is_control(cot.cause) ==> r == Err::<Asdu, Error>(
            Error::ErrCmdCause(cot),
        ),
        is_control(cot.cause) && tag is None ==> r == Err::<
            Asdu,
            Error,
        >(Error::ErrTypeIDNotMatch(t)),
        r matches Ok(a) ==> (tag matches Some(kind) && sends(
            a@,
            seq![cmd],
            t,
            kind,
            false,
            cot,
            ca,
        )),
{
}

/// A session sends a command with high priority where it is connected and data
/// transfer is started. A command that could not be built is refused first,
/// for what is wrong with it.
pub proof fn commands_need_an_active_session<T: InfoObject>(
    s: Session,
    r: Result<Request, Error>,
    cmd: T,
    t: TypeID,
    tag: Option<TagKind>,
    cot: CauseOfTransmission,
    ca: CommonAddr,
)
    requires
        s.commands(r, cmd, t, tag, cot, ca),
    ensures
        ({
            let causes = is_control(cot.cause);
            &&& r is Ok <==> causes && tag is Some && s.connected && s.active_spec()
            &&& !causes ==> r == Err::<Request, Error>(Error::ErrCmdCause(cot))
            &&& causes && tag is None ==> r == Err::<Request, Error>(Error::ErrTypeIDNotMatch(t))
            &&& causes && tag is Some && !s.connected ==> r == Err::<Request, Error>(
                Error::ErrUseClosedConnection,
            )
            &&& causes && tag is Some && s.connected && !s.active_spec() ==> r == Err::<
                Request,
                Error,
            >(Error::ErrNotActive)
            &&& r matches Ok(q) ==> (q matches Request::I(a, p) && p is High && (tag
                matches Some(kind) && sends(a@, seq![cmd], t, kind, false, cot, ca)))
        }),
{
}

/// A list of process information is sent exactly where its cause is accepted.
pub proof fn lists_are_sent_or_refused<T: InfoObject>(
    accepted: bool,
    r: Result<Asdu, Error>,
    infos: Seq<T>,
    t: TypeID,
    kind: TagKind,
    sequence: bool,
    cot: CauseOfTransmission,
    ca: CommonAddr,
)
    requires
        send_outcome(accepted, r, infos, t, kind, sequence, cot, ca),
    ensures
        r is Ok <==> accepted,
        !accepted ==> r == Err::<Asdu, Error>(Error::ErrCmdCause(cot)),
        r matches Ok(a) ==> sends(a@, infos, t, kind, sequence, cot, ca),
{
}

/// A mirrored ASDU has the new cause and is else as it was.
pub proof fn mirrored_asdus_keep_all_but_the_cause(a: AsduData, cause: Cause)
    ensures
        ({
            let m = a.with_cause(cause);
            &&& m.raw == a.raw
            &&& m.identifier.cot.cause == cause
            &&& m.identifier.cot.test == a.identifier.cot.test
            &&& m.identifier.cot.positive == a.identifier.cot.positive
            &&& m.identifier.type_id == a.identifier.type_id
            &&& m.identifier.variable_struct == a.identifier.variable_struct
            &&& m.identifier.orig_addr == a.identifier.orig_addr
            &&& m.identifier.common_addr == a.identifier.common_addr
        }),
{
}

/// An action is refused for the first input that lacks its address or its
/// type, wherever there is one.
pub proof fn first_incomplete_input_is_told(ms: Seq<InputModel>, i: int)
    ensures
        first_bad_input(ms, i) <==> 0 <= i < ms.len() && (ms[i].ioa is None || ms[i].type_id is None)
            && forall|j: int|
            0 <= j < i ==> (#[trigger] ms[j]).ioa is Some && ms[j].type_id is Some,
        first_bad_input(ms, i) && ms[i].ioa is None ==> input_spec(ms[i])->Err_0
            == "ioa is required for IEC104 input"@,
        first_bad_input(ms, i) && ms[i].ioa is Some ==> input_spec(ms[i])->Err_0
            == "typeId is required for IEC104 input"@,
{
    if first_bad_input(ms, i) {
        assert forall|j: int| 0 <= j < i implies (#[trigger] ms[j]).ioa is Some
            && ms[j].type_id is Some by {
            assert(input_spec(ms[j]) is Ok);
        }
    }
}

/// Once devices are removed no point of any of them is left at its common
/// address.
pub proof fn removed_devices_leave_nothing(
    r: Map<u16, Snapshot>,
    ds: Seq<Iec104Device>,
    i: int,
    key: u32,
)
    requires
        0 <= i < ds.len(),
    ensures
        ({
            let left = points_at(without_devices(r, ds), ds[i].ca);
            left.points.contains_key(key) ==> left.points[key].device_id != ds[i].id
        }),
    decreases ds.len(),
{
    let d = ds.drop_last();
    removed_device_leaves_nothing(without_devices(r, d), ds.last());
    if i < d.len() {
        removed_devices_leave_nothing(r, d, i, key);
        assert(d[i] == ds[i]);
    }
}

/// Removing devices leaves the points of all others as they were.
pub proof fn other_devices_stay(r: Map<u16, Snapshot>, ds: Seq<Iec104Device>, ca: u16, key: u32)
    requires
        r.contains_key(ca),
        r[ca].points.contains_key(key),
        forall|i: int|
            0 <= i < ds.len() ==> (#[trigger] ds[i]).ca != ca || ds[i].id
                != r[ca].points[key].device_id,
    ensures
        without_devices(r, ds).contains_key(ca),
        without_devices(r, ds)[ca].points.contains_key(key),
        without_devices(r, ds)[ca].points[key] == r[ca].points[key],
    decreases ds.len(),
{
    if ds.len() > 0 {
        let d = ds.drop_last();
        assert forall|i: int| 0 <= i < d.len() implies (#[trigger] d[i]).ca != ca || d[i].id
            != r[ca].points[key].device_id by {
            assert(d[i] == ds[i]);
        }
        other_devices_stay(r, d, ca, key);
        assert(ds[ds.len() - 1] == ds.last());
        removal_concerns_one_device(without_devices(r, d), ds.last(), ca, key);
    }
}

/// A device is published under the name that stands with its first converted
/// value.
pub proof fn devices_bear_the_name_of_their_first_value(
    values: Seq<(MatchedValue, Option<NGValue>)>,
    device_id: i32,
    i: int,
    j: int,
)
    requires
        first_value(values, device_id, i),
        0 <= j < values.len(),
        values[j].1 is Some,
        values[j].0.meta.device_id == device_id,
    ensures
        i <= j,
        0 <= i,
        values[i].1 is Some,
        values[i].0.meta.device_id == device_id,
{
    if j < i {
        assert(!is_value_of(values[j], device_id));
    }
}

/// A common address is known where some device has it.
pub proof fn addresses_are_those_of_devices(devices: Seq<Iec104Device>, i: int, ca: u16)
    ensures
        0 <= i < devices.len() ==> has_address(devices, devices[i].ca),
        (forall|k: int| 0 <= k < devices.len() ==> (#[trigger] devices[k]).ca != ca) ==> !has_address(
            devices,
            ca,
        ),
{
}

} // verus!
