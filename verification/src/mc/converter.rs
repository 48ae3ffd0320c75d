//! Conversion of persisted models into the runtime model of the MC driver.

use super::protocol::frame::addr::{parsed, McLogicalAddress};
use super::protocol::frame::device::McDeviceType;
use super::types::{McAddress, McChannelConfig, McParameter, McPoint};
use crate::gateway::{config_error, AccessMode, DataPointType, DataType, DriverError};
use crate::text::{message, parts_text, text3, trimmed};
use vstd::prelude::*;

verus! {

/// What an address belongs to; the error text names it.
pub enum AddressOf<'a> {
    /// A point.
    Point,
    /// The input of an action with this name.
    Input(&'a str),
    /// A parameter of the action that is carried out.
    Parameter,
}

/// The text between an address that cannot be parsed and the reason.
pub open spec fn owner_text(of: AddressOf) -> Seq<char> {
    match of {
        AddressOf::Point => "': "@,
        AddressOf::Input(name) => "' for action parameter '"@ + name@ + "': "@,
        AddressOf::Parameter => "' in action parameter: "@,
    }
}

/// The address that a configured text stands for, or the error text.
pub open spec fn resolved(raw: Seq<char>, of: AddressOf) -> Result<McLogicalAddress, Seq<char>> {
    match parsed(raw) {
        Ok(a) => Ok(a),
        Err(why) => Err("Invalid MC address '"@ + raw + owner_text(of) + why),
    }
}

/// The outcome of a conversion: the configured text with its address, or a
/// configuration error.
pub open spec fn is_resolved(
    r: Result<McAddress, DriverError>,
    raw: Seq<char>,
    of: AddressOf,
) -> bool {
    match resolved(raw, of) {
        Ok(a) => r matches Ok(x) && x.raw@ == raw && x.logical == Some(a),
        Err(text) => r matches Err(e) && config_error(e, text),
    }
}

fn owner(of: &AddressOf) -> (r: String)
    ensures
        r@ == owner_text(*of),
{
    match of {
        AddressOf::Point => "': ".to_owned(),
        AddressOf::Input(name) => text3("' for action parameter '", name, "': "),
        AddressOf::Parameter => "' in action parameter: ".to_owned(),
    }
}

/// Parse a configured address. A text in which the symbol of the device ends
/// inside of a character is left out.
pub fn resolve_address(raw: String, of: &AddressOf) -> (r: Result<McAddress, DriverError>)
    requires
        McDeviceType::symbol_ends_at_char(trimmed(raw@)),
    ensures
        is_resolved(r, raw@, *of),
{
    match McLogicalAddress::parse(raw.as_str()) {
        Ok(a) => Ok(McAddress { raw, logical: Some(a) }),
        Err(why) => {
            let o = owner(of);
            let e = message(
                &["Invalid MC address '", raw.as_str(), o.as_str(), why.as_str()],
            );
            proof {
                reveal_with_fuel(parts_text, 5);
                assert(e@ =~= "Invalid MC address '"@ + raw@ + owner_text(*of) + why@);
            }
            Err(DriverError::ConfigurationError(e))
        },
    }
}

/// `resolve_address` for any text: `None` where the symbol of the device would
/// end inside of a character.
pub fn try_resolve_address(raw: String, of: &AddressOf) -> (r: Option<
    Result<McAddress, DriverError>,
>)
    ensures
        match r {
            None => !McDeviceType::symbol_ends_at_char(trimmed(raw@)),
            Some(x) => McDeviceType::symbol_ends_at_char(trimmed(raw@)) && is_resolved(
                x,
                raw@,
                *of,
            ),
        },
{
    match McLogicalAddress::try_parse(raw.as_str()) {
        None => None,
        Some(_) => Some(resolve_address(raw, of)),
    }
}

/// A persisted point, as far as the driver converts it.
pub struct PointModel {
    pub id: i32,
    pub device_id: i32,
    pub name: String,
    pub key: String,
    pub kind: DataPointType,
    pub data_type: DataType,
    pub access_mode: AccessMode,
    pub unit: Option<String>,
    /// The text under `address` in the driver configuration.
    pub address: Option<String>,
    /// The number under `stringLenBytes` in the driver configuration.
    pub string_len_bytes: Option<u64>,
}

/// A persisted input of an action, as far as the driver converts it.
pub struct InputModel {
    pub name: String,
    pub key: String,
    pub data_type: DataType,
    pub required: bool,
    /// The text under `address` in the driver configuration.
    pub address: Option<String>,
    /// The number under `stringLenBytes` in the driver configuration.
    pub string_len_bytes: Option<u64>,
}

/// The text of an optional string; empty where there is none.
pub open spec fn text_or_empty(s: Option<String>) -> Seq<char> {
    match s {
        Some(t) => t@,
        None => Seq::empty(),
    }
}

/// The low 16 bits of an optional number.
pub open spec fn low16(n: Option<u64>) -> Option<u16> {
    match n {
        Some(v) => Some((v % 0x1_0000) as u16),
        None => None,
    }
}

fn low16_of(n: Option<u64>) -> (r: Option<u16>)
    ensures
        r == low16(n),
{
    match n {
        Some(v) => Some((v % 0x1_0000) as u16),
        None => None,
    }
}

/// The point that a model stands for.
pub open spec fn is_point(p: McPoint, m: PointModel, a: McLogicalAddress) -> bool {
    &&& p.id == m.id
    &&& p.device_id == m.device_id
    &&& p.name@ == m.name@
    &&& p.key@ == m.key@
    &&& p.kind == m.kind
    &&& p.data_type == m.data_type
    &&& p.access_mode == m.access_mode
    &&& p.unit == m.unit
    &&& p.address.raw@ == text_or_empty(m.address)
    &&& p.address.logical == Some(a)
    &&& p.string_len_bytes == low16(m.string_len_bytes)
}

/// The parameter that a model stands for, or the error text.
pub open spec fn parameter_of(m: InputModel) -> Result<McLogicalAddress, Seq<char>> {
    match m.address {
        None => Err("address is required for MC action parameter '"@ + m.name@ + "'"@),
        Some(raw) => match parsed(raw@) {
            Ok(a) => Ok(a),
            Err(why) => Err(
                "Invalid MC address '"@ + raw@ + ("' for action parameter '"@ + m.name@ + "': "@)
                    + why,
            ),
        },
    }
}

/// The parameter has what the model says and this address.
pub open spec fn is_parameter(p: McParameter, m: InputModel, a: McLogicalAddress) -> bool {
    &&& p.name@ == m.name@
    &&& p.key@ == m.key@
    &&& p.data_type == m.data_type
    &&& p.required == m.required
    &&& m.address matches Some(raw) && p.address.raw@ == raw@
    &&& p.address.logical == Some(a)
    &&& p.string_len_bytes == low16(m.string_len_bytes)
}

/// The address text of an input can be cut behind the symbol of its device.
pub open spec fn input_can_be_cut(m: InputModel) -> bool {
    m.address matches Some(raw) ==> McDeviceType::symbol_ends_at_char(trimmed(raw@))
}

/// The input at `i` is the first one that cannot be converted.
pub open spec fn first_bad_input(inputs: Seq<InputModel>, i: int) -> bool {
    &&& 0 <= i < inputs.len()
    &&& parameter_of(inputs[i]) is Err
    &&& forall|j: int| 0 <= j < i ==> parameter_of(#[trigger] inputs[j]) is Ok
}

/// The parameters that the inputs stand for, one for one.
pub open spec fn converts_all(inputs: Seq<InputModel>, params: Seq<McParameter>) -> bool {
    &&& params.len() == inputs.len()
    &&& forall|i: int|
        0 <= i < inputs.len() ==> parameter_of(#[trigger] inputs[i]) is Ok && is_parameter(
            params[i],
            inputs[i],
            parameter_of(inputs[i])->Ok_0,
        )
}

/// The outcome of converting inputs: all parameters, or the error of the first
/// input that cannot be converted.
pub open spec fn inputs_outcome(
    inputs: Seq<InputModel>,
    r: Result<Vec<McParameter>, DriverError>,
) -> bool {
    match r {
        Ok(v) => converts_all(inputs, v@),
        Err(e) => exists|i: int|
            #![trigger first_bad_input(inputs, i)]
            first_bad_input(inputs, i) && config_error(e, parameter_of(inputs[i])->Err_0),
    }
}

/// Default model converter for the MC driver.
#[derive(Debug, Clone, Default)]
pub struct McConverter;

impl McConverter {
    /// The settings of a channel; `config` is the outcome of reading them.
    pub fn convert_runtime_channel(&self, config: Result<McChannelConfig, String>) -> (r: Result<
        McChannelConfig,
        DriverError,
    >)
        ensures
            match config {
                Ok(c) => r == Ok::<McChannelConfig, DriverError>(c),
                Err(why) => r matches Err(e) && config_error(
                    e,
                    "Failed to deserialize McChannelConfig: "@ + why@,
                ),
            },
    {
        match config {
            Ok(c) => Ok(c),
            Err(why) => {
                let e = text3("Failed to deserialize McChannelConfig: ", why.as_str(), "");
                proof {
                    reveal_strlit("");
                    assert(e@ =~= "Failed to deserialize McChannelConfig: "@ + why@);
                }
                Err(DriverError::ConfigurationError(e))
            },
        }
    }

    /// The runtime point of a model; a missing address is an empty one.
    pub fn convert_runtime_point(&self, m: PointModel) -> (r: Result<McPoint, DriverError>)
        requires
            McDeviceType::symbol_ends_at_char(trimmed(text_or_empty(m.address))),
        ensures
            match resolved(text_or_empty(m.address), AddressOf::Point) {
                Ok(a) => r matches Ok(p) && is_point(p, m, a),
                Err(text) => r matches Err(e) && config_error(e, text),
            },
    {
        let raw = match m.address {
            Some(t) => t,
            None => String::new(),
        };
        match resolve_address(raw, &AddressOf::Point) {
            Err(e) => Err(e),
            Ok(address) => Ok(
                McPoint {
                    id: m.id,
                    device_id: m.device_id,
                    name: m.name,
                    key: m.key,
                    kind: m.kind,
                    data_type: m.data_type,
                    access_mode: m.access_mode,
                    unit: m.unit,
                    address,
                    string_len_bytes: low16_of(m.string_len_bytes),
                },
            ),
        }
    }

    /// `convert_runtime_point` for any address text: `None` where the symbol
    /// of the device would end inside of a character.
    pub fn try_convert_runtime_point(&self, m: PointModel) -> (r: Option<
        Result<McPoint, DriverError>,
    >)
        ensures
            match r {
                None => !McDeviceType::symbol_ends_at_char(trimmed(text_or_empty(m.address))),
                Some(x) => McDeviceType::symbol_ends_at_char(trimmed(text_or_empty(m.address)))
                    && match resolved(text_or_empty(m.address), AddressOf::Point) {
                    Ok(a) => x matches Ok(p) && is_point(p, m, a),
                    Err(text) => x matches Err(e) && config_error(e, text),
                },
            },
    {
        let can: bool = match &m.address {
            Some(t) => McLogicalAddress::try_parse(t.as_str()).is_some(),
            None => {
                let empty = String::new();
                McLogicalAddress::try_parse(empty.as_str()).is_some()
            },
        };
        if can {
            Some(self.convert_runtime_point(m))
        } else {
            None
        }
    }

    /// The parameters of an action; the first input without an address, or
    /// with one that cannot be parsed, refuses them all.
    pub fn convert_runtime_action(&self, inputs: Vec<InputModel>) -> (r: Result<
        Vec<McParameter>,
        DriverError,
    >)
        requires
            forall|i: int| 0 <= i < inputs@.len() ==> input_can_be_cut(#[trigger] inputs@[i]),
        ensures
            inputs_outcome(inputs@, r),
    {
        let ghost i0 = inputs@;
        let mut out: Vec<McParameter> = Vec::new();
        for m in it: inputs
            invariant
                it.seq() == i0,
                i0 == inputs@,
                forall|i: int| 0 <= i < i0.len() ==> input_can_be_cut(#[trigger] i0[i]),
                out@.len() == it.index(),
                forall|i: int|
                    0 <= i < it.index() ==> parameter_of(#[trigger] i0[i]) is Ok && is_parameter(
                        out@[i],
                        i0[i],
                        parameter_of(i0[i])->Ok_0,
                    ),
        {
            let ghost n = it.index();
            let ghost m0 = m;
            assert(m0 == i0[n]);
            assert(input_can_be_cut(i0[n]));
            match m.address {
                None => {
                    assert(first_bad_input(i0, n));
                    return Err(
                        DriverError::ConfigurationError(
                            text3(
                                "address is required for MC action parameter '",
                                m.name.as_str(),
                                "'",
                            ),
                        ),
                    );
                },
                Some(raw) => {
                    match resolve_address(raw, &AddressOf::Input(m.name.as_str())) {
                        Err(e) => {
                            assert(first_bad_input(i0, n));
                            return Err(e);
                        },
                        Ok(address) => {
                            out.push(
                                McParameter {
                                    name: m.name,
                                    key: m.key,
                                    data_type: m.data_type,
                                    required: m.required,
                                    address,
                                    string_len_bytes: low16_of(m.string_len_bytes),
                                },
                            );
                        },
                    }
                },
            }
        }
        Ok(out)
    }

    /// `convert_runtime_action` for any address texts: `None` where in one of
    /// them the symbol of the device would end inside of a character.
    pub fn try_convert_runtime_action(&self, inputs: Vec<InputModel>) -> (r: Option<
        Result<Vec<McParameter>, DriverError>,
    >)
        ensures
            match r {
                None => exists|i: int|
                    0 <= i < inputs@.len() && !input_can_be_cut(#[trigger] inputs@[i]),
                Some(x) => inputs_outcome(inputs@, x) && forall|i: int|
                    0 <= i < inputs@.len() ==> input_can_be_cut(#[trigger] inputs@[i]),
            },
    {
        for i in 0..inputs.len()
            invariant
                forall|j: int| 0 <= j < i ==> input_can_be_cut(#[trigger] inputs@[j]),
        {
            let can: bool = match &inputs[i].address {
                Some(t) => McLogicalAddress::try_parse(t.as_str()).is_some(),
                None => true,
            };
            if !can {
                assert(!input_can_be_cut(inputs@[i as int]));
                return None;
            }
        }
        Some(self.convert_runtime_action(inputs))
    }
}

} // verus!
