//! Factory of the MC driver.

use super::converter::{
    inputs_outcome, input_can_be_cut, is_point, resolved, text_or_empty, AddressOf, InputModel,
    McConverter, PointModel,
};
use super::protocol::frame::device::McDeviceType;
use super::types::{McChannelConfig, McParameter, McPoint};
use crate::gateway::{config_error, DriverError};
use crate::text::trimmed;
use vstd::prelude::*;

verus! {

/// Driver factory for the Mitsubishi MC protocol driver: turns persisted
/// models into runtime types.
#[derive(Debug, Clone, Default)]
pub struct McDriverFactory;

impl McDriverFactory {
    /// The settings of a channel; `config` is the outcome of reading them.
    pub fn convert_runtime_channel(&self, config: Result<McChannelConfig, String>) -> (r: Result<
        McChannelConfig,
        DriverError,
    >)
        ensures
            match config {
                Ok(c) => r == Ok::<McChannelConfig, DriverError>(c),
                Err(why) => r matches Err(e) && config_error(
                    e,
                    "Failed to deserialize McChannelConfig: "@ + why@,
                ),
            },
    {
        McConverter.convert_runtime_channel(config)
    }

    /// The runtime point of a model; `None` where in its address text the
    /// symbol of the device would end inside of a character.
    pub fn convert_runtime_point(&self, m: PointModel) -> (r: Option<Result<McPoint, DriverError>>)
        ensures
            match r {
                None => !McDeviceType::symbol_ends_at_char(trimmed(text_or_empty(m.address))),
                Some(x) => McDeviceType::symbol_ends_at_char(trimmed(text_or_empty(m.address)))
                    && match resolved(text_or_empty(m.address), AddressOf::Point) {
                    Ok(a) => x matches Ok(p) && is_point(p, m, a),
                    Err(text) => x matches Err(e) && config_error(e, text),
                },
            },
    {
        McConverter.try_convert_runtime_point(m)
    }

    /// The parameters of an action; `None` where in one of the address texts
    /// the symbol of the device would end inside of a character.
    pub fn convert_runtime_action(&self, inputs: Vec<InputModel>) -> (r: Option<
        Result<Vec<McParameter>, DriverError>,
    >)
        ensures
            match r {
                None => exists|i: int|
                    0 <= i < inputs@.len() && !input_can_be_cut(#[trigger] inputs@[i]),
                Some(x) => inputs_outcome(inputs@, x) && forall|i: int|
                    0 <= i < inputs@.len() ==> input_can_be_cut(#[trigger] inputs@[i]),
            },
    {
        McConverter.try_convert_runtime_action(inputs)
    }
}

} // verus!
