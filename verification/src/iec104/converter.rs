//! Conversion of persisted models into the runtime model of the driver.

use super::types::{
    Iec104Action, Iec104ChannelConfig, Iec104Device, Iec104Parameter, Iec104Point,
};
use crate::gateway::{config_error, AccessMode, DataPointType, DataType, DriverError};
use crate::text::text3;
use vstd::prelude::*;

verus! {

/// The low 16 bits of a number.
pub open spec fn low16(n: u64) -> u16 {
    (n % 65536) as u16
}

/// The low 8 bits of a number.
pub open spec fn low8(n: u64) -> u8 {
    (n % 256) as u8
}

/// A persisted device, as far as the driver converts it.
pub struct DeviceModel {
    pub id: i32,
    pub channel_id: i32,
    pub device_name: String,
    pub device_type: String,
    /// The driver configuration, if there is one: the number under `ca`, if
    /// there is one.
    pub driver_config: Option<Option<u64>>,
}

/// A persisted point, as far as the driver converts it.
pub struct PointModel {
    pub id: i32,
    pub device_id: i32,
    pub name: String,
    pub key: String,
    pub kind: DataPointType,
    pub data_type: DataType,
    pub access_mode: AccessMode,
    pub scale: Option<u64>,
    /// The number under `ioa` in the driver configuration.
    pub ioa: Option<u64>,
    /// The number under `typeId` in the driver configuration.
    pub type_id: Option<u64>,
}

/// A persisted input of an action, as far as the driver converts it.
pub struct InputModel {
    pub name: String,
    pub key: String,
    pub data_type: DataType,
    pub required: bool,
    /// The number under `ioa` in the driver configuration.
    pub ioa: Option<u64>,
    /// The number under `typeId` in the driver configuration.
    pub type_id: Option<u64>,
}

/// A persisted action, as far as the driver converts it.
pub struct ActionModel {
    pub id: i32,
    pub device_id: i32,
    pub name: String,
    pub command: String,
    pub inputs: Vec<InputModel>,
}

/// The parameter of an input, or the text of the error.
pub open spec fn input_spec(m: InputModel) -> Result<Iec104Parameter, Seq<char>> {
    match (m.ioa, m.type_id) {
        (None, _) => Err("ioa is required for IEC104 input"@),
        (_, None) => Err("typeId is required for IEC104 input"@),
        (Some(ioa), Some(type_id)) => Ok(
            Iec104Parameter {
                name: m.name,
                key: m.key,
                data_type: m.data_type,
                required: m.required,
                ioa: low16(ioa),
                type_id: low8(type_id),
            },
        ),
    }
}

/// The outcome for a list of inputs: one parameter for each, or the error of
/// the first that cannot be converted.
pub open spec fn first_bad_input(ms: Seq<InputModel>, i: int) -> bool {
    &&& 0 <= i < ms.len()
    &&& input_spec(ms[i]) is Err
    &&& forall|k: int| 0 <= k < i ==> input_spec(#[trigger] ms[k]) is Ok
}

fn convert_input(m: InputModel) -> (r: Result<Iec104Parameter, DriverError>)
    ensures
        match input_spec(m) {
            Ok(p) => r == Ok::<Iec104Parameter, DriverError>(p),
            Err(text) => r matches Err(e) && config_error(e, text),
        },
{
    let ioa: u64 = match m.ioa {
        Some(n) => n,
        None => {
            return Err(
                DriverError::ConfigurationError("ioa is required for IEC104 input".to_owned()),
            );
        },
    };
    let type_id: u64 = match m.type_id {
        Some(n) => n,
        None => {
            return Err(
                DriverError::ConfigurationError("typeId is required for IEC104 input".to_owned()),
            );
        },
    };
    Ok(
        Iec104Parameter {
            name: m.name,
            key: m.key,
            data_type: m.data_type,
            required: m.required,
            ioa: (ioa % 65536) as u16,
            type_id: (type_id % 256) as u8,
        },
    )
}

/// IEC104 default model converter.
#[derive(Debug, Clone, Copy, PartialEq, Eq, Structural)]
pub struct Iec104Converter;

impl Iec104Converter {
    /// The configuration of a channel, given what reading it came to.
    pub fn convert_runtime_channel(&self, config: Result<Iec104ChannelConfig, String>) -> (r:
        Result<Iec104ChannelConfig, DriverError>)
        ensures
            match config {
                Ok(c) => r == Ok::<Iec104ChannelConfig, DriverError>(c),
                Err(why) => r matches Err(e) && config_error(
                    e,
                    "Failed to deserialize Iec104ChannelConfig: "@ + why@,
                ),
            },
    {
        match config {
            Ok(c) => Ok(c),
            Err(why) => {
                let text = text3("Failed to deserialize Iec104ChannelConfig: ", why.as_str(), "");
                proof {
                    reveal_strlit("");
                    assert(text@ =~= "Failed to deserialize Iec104ChannelConfig: "@ + why@);
                }
                Err(DriverError::ConfigurationError(text))
            },
        }
    }

    /// A device. Of its common address the low 16 bits count.
    pub fn convert_runtime_device(&self, m: DeviceModel) -> (r: Result<Iec104Device, DriverError>)
        ensures
            match m.driver_config {
                None => r matches Err(e) && config_error(
                    e,
                    "Driver config is required for IEC104 device"@,
                ),
                Some(None) => r matches Err(e) && config_error(
                    e,
                    "ca is required for IEC104 device"@,
                ),
                Some(Some(ca)) => r == Ok::<Iec104Device, DriverError>(
                    Iec104Device {
                        id: m.id,
                        channel_id: m.channel_id,
                        device_name: m.device_name,
                        device_type: m.device_type,
                        ca: low16(ca),
                    },
                ),
            },
    {
        let config: Option<u64> = match m.driver_config {
            Some(c) => c,
            None => {
                return Err(
                    DriverError::ConfigurationError(
                        "Driver config is required for IEC104 device".to_owned(),
                    ),
                );
            },
        };
        let ca: u64 = match config {
            Some(n) => n,
            None => {
                return Err(
                    DriverError::ConfigurationError("ca is required for IEC104 device".to_owned()),
                );
            },
        };
        Ok(
            Iec104Device {
                id: m.id,
                channel_id: m.channel_id,
                device_name: m.device_name,
                device_type: m.device_type,
                ca: (ca % 65536) as u16,
            },
        )
    }

    /// A point. Of its address the low 16 bits count, of its type the low 8.
    pub fn convert_runtime_point(&self, m: PointModel) -> (r: Result<Iec104Point, DriverError>)
        ensures
            match (m.ioa, m.type_id) {
                (None, _) => r matches Err(e) && config_error(
                    e,
                    "ioa is required for IEC104 point"@,
                ),
                (_, None) => r matches Err(e) && config_error(
                    e,
                    "typeId is required for IEC104 point"@,
                ),
                (Some(ioa), Some(type_id)) => r == Ok::<Iec104Point, DriverError>(
                    Iec104Point {
                        id: m.id,
                        device_id: m.device_id,
                        name: m.name,
                        key: m.key,
                        kind: m.kind,
                        data_type: m.data_type,
                        access_mode: m.access_mode,
                        scale: m.scale,
                        ioa: low16(ioa),
                        type_id: low8(type_id),
                    },
                ),
            },
    {
        let ioa: u64 = match m.ioa {
            Some(n) => n,
            None => {
                return Err(
                    DriverError::ConfigurationError("ioa is required for IEC104 point".to_owned()),
                );
            },
        };
        let type_id: u64 = match m.type_id {
            Some(n) => n,
            None => {
                return Err(
                    DriverError::ConfigurationError(
                        "typeId is required for IEC104 point".to_owned(),
                    ),
                );
            },
        };
        Ok(
            Iec104Point {
                id: m.id,
                device_id: m.device_id,
                name: m.name,
                key: m.key,
                kind: m.kind,
                data_type: m.data_type,
                access_mode: m.access_mode,
                scale: m.scale,
                ioa: (ioa % 65536) as u16,
                type_id: (type_id % 256) as u8,
            },
        )
    }

    /// An action, with a parameter for each of its inputs.
    pub fn convert_runtime_action(&self, m: ActionModel) -> (r: Result<Iec104Action, DriverError>)
        ensures
            match r {
                Ok(a) => {
                    &&& a.id == m.id
                    &&& a.device_id == m.device_id
                    &&& a.name == m.name
                    &&& a.command == m.command
                    &&& a.input_parameters@.len() == m.inputs@.len()
                    &&& forall|i: int|
                        0 <= i < m.inputs@.len() ==> input_spec(m.inputs@[i]) == Ok::<
                            Iec104Parameter,
                            Seq<char>,
                        >(#[trigger] a.input_parameters@[i])
                },
                Err(e) => exists|i: int| #[trigger]
                    first_bad_input(m.inputs@, i) && config_error(
                        e,
                        input_spec(m.inputs@[i])->Err_0,
                    ),
            },
    {
        let ghost all = m.inputs@;
        let mut out: Vec<Iec104Parameter> = Vec::new();
        for input in it: m.inputs
            invariant
                it.seq() == all,
                out@.len() == it.index(),
                forall|i: int|
                    0 <= i < it.index() ==> input_spec(all[i]) == Ok::<Iec104Parameter, Seq<char>>(
                        #[trigger] out@[i],
                    ),
        {
            let ghost n = it.index();
            assert(all[n] == input);
            match convert_input(input) {
                Ok(p) => {
                    out.push(p);
                },
                Err(e) => {
                    proof {
                        assert forall|k: int| 0 <= k < n implies input_spec(
                            #[trigger] all[k],
                        ) is Ok by {
                            assert(input_spec(all[k]) == Ok::<Iec104Parameter, Seq<char>>(out@[k]));
                        }
                        assert(first_bad_input(all, n));
                    }
                    return Err(e);
                },
            }
        }
        Ok(
            Iec104Action {
                id: m.id,
                device_id: m.device_id,
                name: m.name,
                command: m.command,
                input_parameters: out,
            },
        )
    }
}

} // verus!
