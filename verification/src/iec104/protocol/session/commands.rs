//! The commands that a session sends.

use super::super::error::Error;
use super::super::frame::asdu::{Asdu, CauseOfTransmission, CommonAddr, TypeID};
use super::super::frame::cproc::{
    BitsString32CommandInfo, DoubleCommandInfo, SetPointCommandFloatInfo,
    SetPointCommandNormalInfo, SetPointCommandScaledInfo, SingleCommandInfo, StepCommandInfo,
    bits_command_tag, bits_string32_cmd, double_cmd, double_command_tag, float_command_tag,
    is_commanded, normal_command_tag, scaled_command_tag, set_point_cmd_float,
    set_point_cmd_normal, set_point_cmd_scaled, single_cmd, single_command_tag, step_cmd,
    step_command_tag,
};
use super::super::frame::mproc::{sends, InfoObject};
use super::super::frame::objects::time_wf;
use super::super::frame::time::TagKind;
use super::link::{Priority, Request};
use super::requests::Session;
use vstd::prelude::*;

verus! {

impl Session {
    /// The outcome of a command: refused for its cause or its type, held back
    /// by the session, or sent as a single object with high priority.
    pub open spec fn commands<T: InfoObject>(
        self,
        r: Result<Request, Error>,
        cmd: T,
        t: TypeID,
        tag: Option<TagKind>,
        cot: CauseOfTransmission,
        ca: CommonAddr,
    ) -> bool {
        if !is_commanded(cot.cause) {
            r == Err::<Request, Error>(Error::ErrCmdCause(cot))
        } else if tag is None {
            r == Err::<Request, Error>(Error::ErrTypeIDNotMatch(t))
        } else if !self.connected {
            r == Err::<Request, Error>(Error::ErrUseClosedConnection)
        } else if !self.active_spec() {
            r == Err::<Request, Error>(Error::ErrNotActive)
        } else {
            r matches Ok(Request::I(a, Priority::High)) && sends(
                a@,
                seq![cmd],
                t,
                tag->0,
                false,
                cot,
                ca,
            )
        }
    }

    fn send_built(&self, built: Result<Asdu, Error>) -> (r: Result<Request, Error>)
        ensures
            r == match built {
                Ok(asdu) => self.admitted(asdu, Priority::High),
                Err(e) => Err(e),
            },
    {
        match built {
            Ok(asdu) => self.send_asdu(asdu),
            Err(e) => Err(e),
        }
    }

    /// The request that sends a single command.
    pub fn single_cmd(
        &self,
        type_id: TypeID,
        cot: CauseOfTransmission,
        ca: CommonAddr,
        cmd: SingleCommandInfo,
    ) -> (r: Result<Request, Error>)
        requires
            time_wf(cmd.time),
        ensures
            self.commands(r, cmd, type_id, single_command_tag(type_id), cot, ca),
    {
        self.send_built(single_cmd(type_id, cot, ca, cmd))
    }

    /// The request that sends a double command.
    pub fn double_cmd(
        &self,
        type_id: TypeID,
        cot: CauseOfTransmission,
        ca: CommonAddr,
        cmd: DoubleCommandInfo,
    ) -> (r: Result<Request, Error>)
        requires
            time_wf(cmd.time),
        ensures
            self.commands(r, cmd, type_id, double_command_tag(type_id), cot, ca),
    {
        self.send_built(double_cmd(type_id, cot, ca, cmd))
    }

    /// The request that sends a regulating step command.
    pub fn step_cmd(
        &self,
        type_id: TypeID,
        cot: CauseOfTransmission,
        ca: CommonAddr,
        cmd: StepCommandInfo,
    ) -> (r: Result<Request, Error>)
        requires
            time_wf(cmd.time),
        ensures
            self.commands(r, cmd, type_id, step_command_tag(type_id), cot, ca),
    {
        self.send_built(step_cmd(type_id, cot, ca, cmd))
    }

    /// The request that sends a set-point command with a normalized value.
    pub fn set_point_cmd_normal(
        &self,
        type_id: TypeID,
        cot: CauseOfTransmission,
        ca: CommonAddr,
        cmd: SetPointCommandNormalInfo,
    ) -> (r: Result<Request, Error>)
        requires
            time_wf(cmd.time),
        ensures
            self.commands(r, cmd, type_id, normal_command_tag(type_id), cot, ca),
    {
        self.send_built(set_point_cmd_normal(type_id, cot, ca, cmd))
    }

    /// The request that sends a set-point command with a scaled value.
    pub fn set_point_cmd_scaled(
        &self,
        type_id: TypeID,
        cot: CauseOfTransmission,
        ca: CommonAddr,
        cmd: SetPointCommandScaledInfo,
    ) -> (r: Result<Request, Error>)
        requires
            time_wf(cmd.time),
        ensures
            self.commands(r, cmd, type_id, scaled_command_tag(type_id), cot, ca),
    {
        self.send_built(set_point_cmd_scaled(type_id, cot, ca, cmd))
    }

    /// The request that sends a set-point command with a floating-point value.
    pub fn set_point_cmd_float(
        &self,
        type_id: TypeID,
        cot: CauseOfTransmission,
        ca: CommonAddr,
        cmd: SetPointCommandFloatInfo,
    ) -> (r: Result<Request, Error>)
        requires
            time_wf(cmd.time),
        ensures
            self.commands(r, cmd, type_id, float_command_tag(type_id), cot, ca),
    {
        self.send_built(set_point_cmd_float(type_id, cot, ca, cmd))
    }

    /// The request that sends a bit string command.
    pub fn bits_string32_cmd(
        &self,
        type_id: TypeID,
        cot: CauseOfTransmission,
        ca: CommonAddr,
        cmd: BitsString32CommandInfo,
    ) -> (r: Result<Request, Error>)
        requires
            time_wf(cmd.time),
        ensures
            self.commands(r, cmd, type_id, bits_command_tag(type_id), cot, ca),
    {
        self.send_built(bits_string32_cmd(type_id, cot, ca, cmd))
    }
}

} // verus!
