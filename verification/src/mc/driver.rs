//! Writes whose addresses are parsed anew from their configured texts.

use super::converter::{resolved, try_resolve_address, AddressOf};
use super::handle::{
    bytes_outcome, parameter_at_spec, parameter_entry_at, point_entry_at, point_write_at_spec,
    refused_with, write_of, Refusal, ResolvedParameter, WriteOf,
};
use super::protocol::frame::device::McDeviceType;
use super::protocol::planner::WriteEntry;
use super::types::McPoint;
use crate::gateway::{check_data_type, DataType, DriverError};
use crate::text::trimmed;
use vstd::prelude::*;

verus! {

/// How a point is written, or why it cannot be: it takes writes, the value of
/// type `value_type` is valid for it, and its address can be parsed and
/// written to. `data` is the outcome of turning the value into bytes.
pub open spec fn parsed_write_spec(
    p: McPoint,
    valid: bool,
    value_type: DataType,
    data: Result<Seq<u8>, Seq<char>>,
) -> Result<WriteOf, Refusal> {
    if !p.access_mode.writeable_spec() {
        Err(Refusal::Validation("point is not writeable"@))
    } else if !valid {
        Err(
            Refusal::Validation(
                "type mismatch: expected "@ + p.data_type.name_spec() + ", got "@
                    + value_type.name_spec(),
            ),
        )
    } else {
        match resolved(p.address.raw@, AddressOf::Point) {
            Err(text) => Err(Refusal::Config(text)),
            Ok(a) => point_write_at_spec(p, Some(a), value_type, data),
        }
    }
}

/// In the address text the symbol of the device does not end inside of a
/// character.
pub open spec fn can_be_cut(raw: Seq<char>) -> bool {
    McDeviceType::symbol_ends_at_char(trimmed(raw))
}

/// The write of a point whose address is parsed anew. `valid` says whether the
/// value is valid for the data type of the point. `None` where the point would
/// be written but the symbol of the device ends inside of a character of its
/// address text.
pub fn parsed_point_entry(
    p: &McPoint,
    valid: bool,
    value_type: DataType,
    data: Result<Vec<u8>, String>,
) -> (r: Option<Result<WriteEntry, DriverError>>)
    ensures
        r is None <==> p.access_mode.writeable_spec() && valid && !can_be_cut(p.address.raw@),
        r matches Some(x) ==> match parsed_write_spec(*p, valid, value_type, bytes_outcome(data)) {
            Ok(w) => x matches Ok(e) && write_of(e) == w,
            Err(why) => x matches Err(e) && refused_with(e, why),
        },
{
    if !p.access_mode.is_writeable() {
        return Some(Err(DriverError::ValidationError("point is not writeable".to_owned())));
    }
    if let Err(e) = check_data_type(valid, p.data_type, value_type) {
        return Some(Err(e));
    }
    match try_resolve_address(p.address.raw.clone(), &AddressOf::Point) {
        None => None,
        Some(Err(e)) => Some(Err(e)),
        Some(Ok(a)) => Some(point_entry_at(p, a.logical, value_type, data)),
    }
}

/// How a parameter of an action is written, or why it cannot be.
pub open spec fn parsed_parameter_spec(action: Seq<char>, p: ResolvedParameter) -> Result<
    WriteOf,
    Refusal,
> {
    match resolved(p.param.address.raw@, AddressOf::Parameter) {
        Err(text) => Err(Refusal::Config(text)),
        Ok(a) => parameter_at_spec(action, p, Some(a)),
    }
}

/// The first `n` parameters can be written.
pub open spec fn parsed_up_to(action: Seq<char>, params: Seq<ResolvedParameter>, n: int) -> bool {
    &&& 0 <= n <= params.len()
    &&& forall|j: int|
        0 <= j < n ==> can_be_cut((#[trigger] params[j]).param.address.raw@)
            && parsed_parameter_spec(action, params[j]) is Ok
}

/// The parameter at `i` is the first one that cannot be written, and its
/// address text can be cut.
pub open spec fn first_refused(
    action: Seq<char>,
    params: Seq<ResolvedParameter>,
    i: int,
) -> bool {
    &&& parsed_up_to(action, params, i)
    &&& i < params.len()
    &&& can_be_cut(params[i].param.address.raw@)
    &&& parsed_parameter_spec(action, params[i]) is Err
}

/// The parameter at `i` is the first one that cannot be written, and the
/// symbol of the device ends inside of a character of its address text.
pub open spec fn first_uncut(action: Seq<char>, params: Seq<ResolvedParameter>, i: int) -> bool {
    &&& parsed_up_to(action, params, i)
    &&& i < params.len()
    &&& !can_be_cut(params[i].param.address.raw@)
}

/// The writes of an action whose addresses are parsed anew, one per parameter;
/// the first parameter that cannot be written refuses them all. `None` where
/// that is one in whose address text the symbol of the device ends inside of a
/// character.
pub fn parsed_action_entries(action: &str, params: &Vec<ResolvedParameter>) -> (r: Option<
    Result<Vec<WriteEntry>, DriverError>,
>)
    requires
        forall|i: int| 0 <= i < params@.len() ==> (#[trigger] params@[i]).wf(),
    ensures
        match r {
            None => exists|i: int| #[trigger] first_uncut(action@, params@, i),
            Some(Ok(v)) => {
                &&& parsed_up_to(action@, params@, params@.len() as int)
                &&& v@.len() == params@.len()
                &&& forall|i: int|
                    0 <= i < params@.len() ==> parsed_parameter_spec(action@, #[trigger] params@[i])
                        == Ok::<WriteOf, Refusal>(write_of(v@[i]))
            },
            Some(Err(e)) => exists|i: int| #[trigger]
                first_refused(action@, params@, i) && refused_with(
                    e,
                    parsed_parameter_spec(action@, params@[i])->Err_0,
                ),
        },
{
    let mut out: Vec<WriteEntry> = Vec::new();
    for i in 0..params.len()
        invariant
            forall|j: int| 0 <= j < params@.len() ==> (#[trigger] params@[j]).wf(),
            out@.len() == i,
            parsed_up_to(action@, params@, i as int),
            forall|j: int|
                0 <= j < i ==> parsed_parameter_spec(action@, #[trigger] params@[j]) == Ok::<
                    WriteOf,
                    Refusal,
                >(write_of(out@[j])),
    {
        let p = &params[i];
        match try_resolve_address(p.param.address.raw.clone(), &AddressOf::Parameter) {
            None => {
                assert(first_uncut(action@, params@, i as int));
                return None;
            },
            Some(Err(e)) => {
                assert(first_refused(action@, params@, i as int));
                return Some(Err(e));
            },
            Some(Ok(a)) => match parameter_entry_at(action, p, a.logical) {
                Ok(e) => {
                    out.push(e);
                },
                Err(e) => {
                    assert(first_refused(action@, params@, i as int));
                    return Some(Err(e));
                },
            },
        }
    }
    Some(Ok(out))
}

} // verus!
