//! Commands of the IEC 60870-5-104 driver: what a write to a point and the
//! parameters of an action are sent as.

use super::protocol::error::Error;
use super::protocol::frame::asdu::{
    Asdu, Cause, CauseOfTransmission, CommonAddr, InfoObjAddr, TypeID,
};
use super::protocol::frame::cproc::{
    bits_string32_cmd, double_cmd, set_point_cmd_float, set_point_cmd_normal, set_point_cmd_scaled,
    single_cmd, step_cmd, BitsString32CommandInfo, DoubleCommandInfo, SetPointCommandFloatInfo,
    SetPointCommandNormalInfo, SetPointCommandScaledInfo, SingleCommandInfo, StepCommandInfo,
};
use super::protocol::frame::mproc::sends;
use super::protocol::frame::objects::time_wf;
use super::protocol::frame::quality::{weight, ObjectDCO, ObjectQOS, ObjectRCO, ObjectSCO};
use super::protocol::frame::time::TagKind;
use super::supervisor::StartupAction;
use super::types::{Iec104ChannelConfig, Iec104Parameter, Iec104Point};
use crate::clock::{civil_now, CivilTime};
use crate::gateway::{
    check_data_type, config_error, validation_error, DataType, DriverError,
};
use crate::text::{decimal, decimal_text, text3};
use vstd::prelude::*;

verus! {

/// The kinds of commands.
#[derive(Debug, Clone, Copy, PartialEq, Eq, Structural)]
pub enum CommandKind {
    Single,
    Double,
    Step,
    Normal,
    Scaled,
    Float,
    Bits,
}

/// The kind of command that a type is.
pub open spec fn kind_of_command(t: TypeID) -> Option<CommandKind> {
    match t {
        TypeID::C_SC_NA_1 | TypeID::C_SC_TA_1 => Some(CommandKind::Single),
        TypeID::C_DC_NA_1 | TypeID::C_DC_TA_1 => Some(CommandKind::Double),
        TypeID::C_RC_NA_1 | TypeID::C_RC_TA_1 => Some(CommandKind::Step),
        TypeID::C_SE_NA_1 | TypeID::C_SE_TA_1 => Some(CommandKind::Normal),
        TypeID::C_SE_NB_1 | TypeID::C_SE_TB_1 => Some(CommandKind::Scaled),
        TypeID::C_SE_NC_1 | TypeID::C_SE_TC_1 => Some(CommandKind::Float),
        TypeID::C_BO_NA_1 | TypeID::C_BO_TA_1 => Some(CommandKind::Bits),
        _ => None,
    }
}

/// The kind of command that a type is.
pub fn command_kind(t: TypeID) -> (r: Option<CommandKind>)
    ensures
        r == kind_of_command(t),
{
    match t {
        TypeID::C_SC_NA_1 | TypeID::C_SC_TA_1 => Some(CommandKind::Single),
        TypeID::C_DC_NA_1 | TypeID::C_DC_TA_1 => Some(CommandKind::Double),
        TypeID::C_RC_NA_1 | TypeID::C_RC_TA_1 => Some(CommandKind::Step),
        TypeID::C_SE_NA_1 | TypeID::C_SE_TA_1 => Some(CommandKind::Normal),
        TypeID::C_SE_NB_1 | TypeID::C_SE_TB_1 => Some(CommandKind::Scaled),
        TypeID::C_SE_NC_1 | TypeID::C_SE_TC_1 => Some(CommandKind::Float),
        TypeID::C_BO_NA_1 | TypeID::C_BO_TA_1 => Some(CommandKind::Bits),
        _ => None,
    }
}

/// What a value was cast to, or why it cannot be.
pub enum CastValue {
    Truth(Result<bool, String>),
    Byte(Result<u8, String>),
    Short(Result<i16, String>),
    /// Short floating-point number, as its bit pattern.
    Real(Result<u32, String>),
    Word(Result<i32, String>),
}

/// The cast is the one that a command of this kind takes its value from.
pub open spec fn is_cast_for(kind: CommandKind, v: CastValue) -> bool {
    match kind {
        CommandKind::Single => v is Truth,
        CommandKind::Double => v is Byte,
        CommandKind::Step => v is Byte,
        CommandKind::Normal => v is Short,
        CommandKind::Scaled => v is Short,
        CommandKind::Float => v is Real,
        CommandKind::Bits => v is Word,
    }
}

/// Why the value could not be cast.
pub open spec fn cast_failure(v: CastValue) -> Option<Seq<char>> {
    match v {
        CastValue::Truth(Err(e)) => Some(e@),
        CastValue::Byte(Err(e)) => Some(e@),
        CastValue::Short(Err(e)) => Some(e@),
        CastValue::Real(Err(e)) => Some(e@),
        CastValue::Word(Err(e)) => Some(e@),
        _ => None,
    }
}

/// What a command is sent for.
#[derive(Debug, Clone, Copy, PartialEq, Eq, Structural)]
pub enum Purpose {
    /// A write to a point.
    Write,
    /// A parameter of an action.
    Action,
}

/// What is said of a value that cannot be cast.
pub open spec fn complaint(purpose: Purpose, kind: CommandKind) -> Seq<char> {
    match purpose {
        Purpose::Write => match kind {
            CommandKind::Single => "single command expects bool: "@,
            CommandKind::Double => "double command expects u8: "@,
            CommandKind::Step => "step command expects u8: "@,
            CommandKind::Normal => "set point (normal) expects i16-compatible value: "@,
            CommandKind::Scaled => "set point (scaled) expects i16-compatible value: "@,
            CommandKind::Float => "set point (float) expects f32-compatible value: "@,
            CommandKind::Bits => "bits string 32 command expects i32-compatible value: "@,
        },
        Purpose::Action => match kind {
            CommandKind::Single => "Expected boolean-compatible value for single command: "@,
            CommandKind::Double => "Expected numeric value for double command: "@,
            CommandKind::Step => "Expected numeric value for step command: "@,
            CommandKind::Normal => "Expected numeric value for set point command normal: "@,
            CommandKind::Scaled => "Expected numeric value for set point command scaled: "@,
            CommandKind::Float => "Expected numeric value for set point command float: "@,
            CommandKind::Bits => "Expected numeric value for bits string 32 command: "@,
        },
    }
}

fn complaint_text(purpose: Purpose, kind: CommandKind) -> (r: &'static str)
    ensures
        r@ == complaint(purpose, kind),
{
    match purpose {
        Purpose::Write => match kind {
            CommandKind::Single => "single command expects bool: ",
            CommandKind::Double => "double command expects u8: ",
            CommandKind::Step => "step command expects u8: ",
            CommandKind::Normal => "set point (normal) expects i16-compatible value: ",
            CommandKind::Scaled => "set point (scaled) expects i16-compatible value: ",
            CommandKind::Float => "set point (float) expects f32-compatible value: ",
            CommandKind::Bits => "bits string 32 command expects i32-compatible value: ",
        },
        Purpose::Action => match kind {
            CommandKind::Single => "Expected boolean-compatible value for single command: ",
            CommandKind::Double => "Expected numeric value for double command: ",
            CommandKind::Step => "Expected numeric value for step command: ",
            CommandKind::Normal => "Expected numeric value for set point command normal: ",
            CommandKind::Scaled => "Expected numeric value for set point command scaled: ",
            CommandKind::Float => "Expected numeric value for set point command float: ",
            CommandKind::Bits => "Expected numeric value for bits string 32 command: ",
        },
    }
}

/// The error for a value that cannot be cast: a write is refused as invalid,
/// an action as misconfigured.
pub open spec fn is_refused(e: DriverError, purpose: Purpose, kind: CommandKind, why: Seq<char>) -> bool {
    match purpose {
        Purpose::Write => validation_error(e, complaint(purpose, kind) + why),
        Purpose::Action => config_error(e, complaint(purpose, kind) + why),
    }
}

fn refuse(purpose: Purpose, kind: CommandKind, why: &str) -> (r: DriverError)
    ensures
        is_refused(r, purpose, kind, why@),
{
    let text = text3(complaint_text(purpose, kind), why, "");
    proof {
        reveal_strlit("");
        assert(text@ =~= complaint(purpose, kind) + why@);
    }
    match purpose {
        Purpose::Write => DriverError::ValidationError(text),
        Purpose::Action => DriverError::ConfigurationError(text),
    }
}

/// The cause of all commands.
pub open spec fn activation() -> CauseOfTransmission {
    CauseOfTransmission { test: false, positive: false, cause: Cause::Activation }
}

/// How the types of commands are tagged.
pub open spec fn command_tag(t: TypeID) -> TagKind {
    if t.needs_time_spec() {
        TagKind::Cp56
    } else {
        TagKind::Plain
    }
}

/// The ASDU sends the value as a command of this type, without select, to an
/// object of a common address.
pub open spec fn is_command_of(
    a: Asdu,
    t: TypeID,
    ca: CommonAddr,
    ioa: u16,
    v: CastValue,
    time: Option<CivilTime>,
) -> bool {
    match (kind_of_command(t), v) {
        (Some(CommandKind::Single), CastValue::Truth(Ok(x))) => sends(
            a@,
            seq![
                SingleCommandInfo {
                    ioa: InfoObjAddr { res: 0, addr: ioa },
                    sco: ObjectSCO { raw: weight(x, 1) as u8 },
                    time,
                },
            ],
            t,
            command_tag(t),
            false,
            activation(),
            ca,
        ),
        (Some(CommandKind::Double), CastValue::Byte(Ok(x))) => sends(
            a@,
            seq![
                DoubleCommandInfo {
                    ioa: InfoObjAddr { res: 0, addr: ioa },
                    dco: ObjectDCO { raw: x % 4 },
                    time,
                },
            ],
            t,
            command_tag(t),
            false,
            activation(),
            ca,
        ),
        (Some(CommandKind::Step), CastValue::Byte(Ok(x))) => sends(
            a@,
            seq![
                StepCommandInfo {
                    ioa: InfoObjAddr { res: 0, addr: ioa },
                    rco: ObjectRCO { raw: x % 4 },
                    time,
                },
            ],
            t,
            command_tag(t),
            false,
            activation(),
            ca,
        ),
        (Some(CommandKind::Normal), CastValue::Short(Ok(x))) => sends(
            a@,
            seq![
                SetPointCommandNormalInfo {
                    ioa: InfoObjAddr { res: 0, addr: ioa },
                    nva: x,
                    qos: ObjectQOS { raw: 0 },
                    time,
                },
            ],
            t,
            command_tag(t),
            false,
            activation(),
            ca,
        ),
        (Some(CommandKind::Scaled), CastValue::Short(Ok(x))) => sends(
            a@,
            seq![
                SetPointCommandScaledInfo {
                    ioa: InfoObjAddr { res: 0, addr: ioa },
                    sva: x,
                    qos: ObjectQOS { raw: 0 },
                    time,
                },
            ],
            t,
            command_tag(t),
            false,
            activation(),
            ca,
        ),
        (Some(CommandKind::Float), CastValue::Real(Ok(x))) => sends(
            a@,
            seq![
                SetPointCommandFloatInfo {
                    ioa: InfoObjAddr { res: 0, addr: ioa },
                    r: x,
                    qos: ObjectQOS { raw: 0 },
                    time,
                },
            ],
            t,
            command_tag(t),
            false,
            activation(),
            ca,
        ),
        (Some(CommandKind::Bits), CastValue::Word(Ok(x))) => sends(
            a@,
            seq![
                BitsString32CommandInfo {
                    ioa: InfoObjAddr { res: 0, addr: ioa },
                    bcr: x,
                    time,
                },
            ],
            t,
            command_tag(t),
            false,
            activation(),
            ca,
        ),
        _ => false,
    }
}

/// The outcome of putting a value into a command.
pub open spec fn is_put(
    r: Result<Asdu, DriverError>,
    purpose: Purpose,
    t: TypeID,
    ca: CommonAddr,
    ioa: u16,
    v: CastValue,
    time: Option<CivilTime>,
) -> bool {
    match cast_failure(v) {
        Some(why) => r matches Err(e) && is_refused(e, purpose, kind_of_command(t)->0, why),
        None => r matches Ok(a) && is_command_of(a, t, ca, ioa, v, time),
    }
}

fn sent(r: Result<Asdu, Error>) -> (x: Result<Asdu, DriverError>)
    ensures
        r matches Ok(a) ==> x == Ok::<Asdu, DriverError>(a),
{
    match r {
        Ok(a) => Ok(a),
        Err(e) => Err(DriverError::ExecutionError(e.message())),
    }
}

/// Put a value into a command of this type. `v` is the value, cast to what
/// commands of this kind take.
pub fn command_asdu(
    purpose: Purpose,
    t: TypeID,
    ca: CommonAddr,
    ioa: u16,
    v: CastValue,
    time: Option<CivilTime>,
) -> (r: Result<Asdu, DriverError>)
    requires
        kind_of_command(t) matches Some(kind) && is_cast_for(kind, v),
        time_wf(time),
    ensures
        is_put(r, purpose, t, ca, ioa, v, time),
{
    let cot = CauseOfTransmission::new(false, false, Cause::Activation);
    let kind = match command_kind(t) {
        Some(kind) => kind,
        None => {
            return Err(DriverError::ServiceUnavailable);
        },
    };
    match (kind, v) {
        (CommandKind::Single, CastValue::Truth(Ok(x))) => {
            let mut info = SingleCommandInfo::new(ioa, x, false);
            info.time = time;
            sent(single_cmd(t, cot, ca, info))
        },
        (CommandKind::Double, CastValue::Byte(Ok(x))) => {
            let mut info = DoubleCommandInfo::new(ioa, x, false);
            info.time = time;
            sent(double_cmd(t, cot, ca, info))
        },
        (CommandKind::Step, CastValue::Byte(Ok(x))) => {
            let mut info = StepCommandInfo::new(ioa, x, false);
            info.time = time;
            sent(step_cmd(t, cot, ca, info))
        },
        (CommandKind::Normal, CastValue::Short(Ok(x))) => {
            let mut info = SetPointCommandNormalInfo::new(ioa, x);
            info.time = time;
            sent(set_point_cmd_normal(t, cot, ca, info))
        },
        (CommandKind::Scaled, CastValue::Short(Ok(x))) => {
            let mut info = SetPointCommandScaledInfo::new(ioa, x);
            info.time = time;
            sent(set_point_cmd_scaled(t, cot, ca, info))
        },
        (CommandKind::Float, CastValue::Real(Ok(x))) => {
            let mut info = SetPointCommandFloatInfo::new(ioa, x);
            info.time = time;
            sent(set_point_cmd_float(t, cot, ca, info))
        },
        (CommandKind::Bits, CastValue::Word(Ok(x))) => {
            let mut info = BitsString32CommandInfo::new(ioa, x);
            info.time = time;
            sent(bits_string32_cmd(t, cot, ca, info))
        },
        (_, CastValue::Truth(Err(e))) => Err(refuse(purpose, kind, e.as_str())),
        (_, CastValue::Byte(Err(e))) => Err(refuse(purpose, kind, e.as_str())),
        (_, CastValue::Short(Err(e))) => Err(refuse(purpose, kind, e.as_str())),
        (_, CastValue::Real(Err(e))) => Err(refuse(purpose, kind, e.as_str())),
        (_, CastValue::Word(Err(e))) => Err(refuse(purpose, kind, e.as_str())),
        _ => Err(DriverError::ServiceUnavailable),
    }
}

/// The command that writes a value to a point. A type with a time tag gets
/// the present time.
pub fn write_command(t: TypeID, ca: CommonAddr, ioa: u16, v: CastValue) -> (r: Result<
    Asdu,
    DriverError,
>)
    requires
        kind_of_command(t) matches Some(kind) && is_cast_for(kind, v),
    ensures
        exists|time: Option<CivilTime>| #[trigger]
            is_put(r, Purpose::Write, t, ca, ioa, v, time) && time_wf(time) && (time is Some
                <==> t.needs_time_spec()),
{
    let time: Option<CivilTime> = if t.needs_time() {
        Some(civil_now())
    } else {
        None
    };
    let r = command_asdu(Purpose::Write, t, ca, ioa, v, time);
    assert(is_put(r, Purpose::Write, t, ca, ioa, v, time));
    r
}

/// The command for a parameter of an action.
pub fn action_command(t: TypeID, ca: CommonAddr, ioa: u16, v: CastValue) -> (r: Result<
    Asdu,
    DriverError,
>)
    requires
        kind_of_command(t) matches Some(kind) && is_cast_for(kind, v),
    ensures
        is_put(r, Purpose::Action, t, ca, ioa, v, None),
{
    command_asdu(Purpose::Action, t, ca, ioa, v, None)
}

/// The text for a type number that is none.
pub open spec fn unknown_type(type_id: u8) -> Seq<char> {
    "Unknown IEC104 type id: "@ + decimal(type_id as nat)
}

fn unknown_type_error(type_id: u8) -> (r: DriverError)
    ensures
        config_error(r, unknown_type(type_id)),
{
    let n = decimal_text(type_id as u64);
    let text = text3("Unknown IEC104 type id: ", n.as_str(), "");
    proof {
        reveal_strlit("");
        assert(text@ =~= unknown_type(type_id));
    }
    DriverError::ConfigurationError(text)
}

/// The type of the command that writes to a point, or why it cannot be
/// written.
pub open spec fn is_write_type(
    r: Result<TypeID, DriverError>,
    p: Iec104Point,
    valid: bool,
    got: DataType,
) -> bool {
    if !p.access_mode.writeable_spec() {
        r matches Err(e) && validation_error(e, "point is not writeable"@)
    } else {
        match TypeID::of_code(p.type_id) {
            None => r matches Err(e) && config_error(e, unknown_type(p.type_id)),
            Some(t) => match t.command_spec() {
                None => r matches Err(e) && config_error(
                    e,
                    "IEC104 point type "@ + t.name_spec() + " is not supported for write_point"@,
                ),
                Some(c) => if valid {
                    r == Ok::<TypeID, DriverError>(c)
                } else {
                    r matches Err(e) && validation_error(
                        e,
                        "type mismatch: expected "@ + p.data_type.name_spec() + ", got "@
                            + got.name_spec(),
                    )
                },
            },
        }
    }
}

/// The type of the command that writes to a point. `valid` says whether the
/// value, of data type `got`, is valid for the point's data type.
pub fn check_write(p: &Iec104Point, valid: bool, got: DataType) -> (r: Result<TypeID, DriverError>)
    ensures
        is_write_type(r, *p, valid, got),
{
    if !p.access_mode.is_writeable() {
        return Err(DriverError::ValidationError("point is not writeable".to_owned()));
    }
    let t = match TypeID::try_from(p.type_id) {
        Ok(t) => t,
        Err(_) => {
            return Err(unknown_type_error(p.type_id));
        },
    };
    let c = match t.map_to_command() {
        Some(c) => c,
        None => {
            return Err(
                DriverError::ConfigurationError(
                    text3("IEC104 point type ", t.name(), " is not supported for write_point"),
                ),
            );
        },
    };
    match check_data_type(valid, p.data_type, got) {
        Ok(_) => Ok(c),
        Err(e) => Err(e),
    }
}

/// What a parameter of an action is sent as.
#[derive(Debug, Clone, Copy, PartialEq, Eq, Structural)]
pub enum ActionStep {
    /// A command of this type, with the parameter's value.
    Command(TypeID),
    /// An interrogation, as the channel is configured.
    Interrogate(StartupAction),
}

/// What a parameter of an action is sent as, or why it cannot be.
pub open spec fn is_action_step(
    r: Result<ActionStep, DriverError>,
    p: Iec104Parameter,
    c: Iec104ChannelConfig,
    ca: CommonAddr,
) -> bool {
    match TypeID::of_code(p.type_id) {
        None => r matches Err(e) && config_error(e, unknown_type(p.type_id)),
        Some(t) => if kind_of_command(t) is Some {
            r == Ok::<ActionStep, DriverError>(ActionStep::Command(t))
        } else if t is C_IC_NA_1 {
            r == Ok::<ActionStep, DriverError>(
                ActionStep::Interrogate(
                    StartupAction::GeneralInterrogation { ca, qoi: c.startup_qoi },
                ),
            )
        } else if t is C_CI_NA_1 {
            r == Ok::<ActionStep, DriverError>(
                ActionStep::Interrogate(
                    StartupAction::CounterInterrogation { ca, qcc: c.startup_qcc },
                ),
            )
        } else {
            r matches Err(e) && config_error(
                e,
                "Unsupported IEC104 write type: "@ + t.name_spec(),
            )
        },
    }
}

/// What a parameter of an action is sent as.
pub fn action_step(p: &Iec104Parameter, c: &Iec104ChannelConfig, ca: CommonAddr) -> (r: Result<
    ActionStep,
    DriverError,
>)
    ensures
        is_action_step(r, *p, *c, ca),
{
    let t = match TypeID::try_from(p.type_id) {
        Ok(t) => t,
        Err(_) => {
            return Err(unknown_type_error(p.type_id));
        },
    };
    if command_kind(t).is_some() {
        return Ok(ActionStep::Command(t));
    }
    match t {
        TypeID::C_IC_NA_1 => Ok(
            ActionStep::Interrogate(
                StartupAction::GeneralInterrogation { ca, qoi: c.startup_qoi },
            ),
        ),
        TypeID::C_CI_NA_1 => Ok(
            ActionStep::Interrogate(
                StartupAction::CounterInterrogation { ca, qcc: c.startup_qcc },
            ),
        ),
        other => {
            let text = text3("Unsupported IEC104 write type: ", other.name(), "");
            proof {
                reveal_strlit("");
                assert(text@ =~= "Unsupported IEC104 write type: "@ + t.name_spec());
            }
            Err(DriverError::ConfigurationError(text))
        },
    }
}

/// What is answered once all parameters of an action were sent.
pub fn action_answer(name: &str) -> (r: String)
    ensures
        r@ == "Action '"@ + name@ + "' executed"@,
{
    text3("Action '", name, "' executed")
}

/// Every point that can be written is written with a command that takes a
/// value: of a kind that has one, and tagged as the type says.
pub proof fn writes_are_commands(t: TypeID, c: TypeID)
    requires
        t.command_spec() == Some(c),
    ensures
        kind_of_command(c) is Some,
        c.command_spec() == Some(c),
{
}

} // verus!
