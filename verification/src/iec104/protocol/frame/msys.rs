//! System information in monitor direction.

use super::asdu::{
    end_of_data, Asdu, AsduData, Cause, CauseOfTransmission, CommonAddr, Identifier, InfoObjAddr, TypeID,
    VariableStruct,
};
use super::super::error::Error;
use super::quality::ObjectCOI;
use crate::wire::{
    bytes_as_slice, bytes_from_vec, le24, le_bytes, le_vec, lemma_le3, Reader,
};
use vstd::prelude::*;

verus! {

/// Report the end of initialization (`M_EI_NA_1`), which has one cause of
/// its own: any other is refused.
pub fn end_of_initialization(
    cot: CauseOfTransmission,
    ca: CommonAddr,
    ioa: InfoObjAddr,
    coi: ObjectCOI,
) -> (r: Result<Asdu, Error>)
    ensures
        if cot.cause is Initialized {
            &&& r matches Ok(a)
            &&& a.identifier.type_id is M_EI_NA_1
            &&& a.identifier.variable_struct.raw_spec() == 1
            &&& a.identifier.cot == cot
            &&& a.identifier.orig_addr == 0
            &&& a.identifier.common_addr == ca
            &&& a@.raw == le_bytes(ioa.raw_spec() as nat, 3).push(coi.raw)
        } else {
            r == Err::<Asdu, Error>(Error::ErrCmdCause(cot))
        },
{
    if !matches!(cot.cause, Cause::Initialized) {
        return Err(Error::ErrCmdCause(cot));
    }
    let mut buf = le_vec(ioa.raw() as u64, 3);
    buf.push(coi.raw);
    Ok(Asdu {
        identifier: Identifier {
            type_id: TypeID::M_EI_NA_1,
            variable_struct: VariableStruct::new(false, 1),
            cot,
            orig_addr: 0,
            common_addr: ca,
        },
        raw: bytes_from_vec(buf),
    })
}

/// Address and cause in the report of the end of initialization.
pub open spec fn initialization(a: AsduData) -> Option<(InfoObjAddr, ObjectCOI)> {
    if a.raw.len() < 4 {
        None
    } else {
        Some((InfoObjAddr::of_raw(le24(a.raw, 0)), ObjectCOI { raw: a.raw[3] }))
    }
}

impl Asdu {
    /// Address and cause in the report of the end of initialization.
    pub fn get_end_of_initialization(&self) -> (r: Result<(InfoObjAddr, ObjectCOI), String>)
        ensures
            match initialization(self@) {
                Some(x) => r == Ok::<(InfoObjAddr, ObjectCOI), String>(x),
                None => r matches Err(e) && e@ == end_of_data(),
            },
    {
        let data = bytes_as_slice(&self.raw);
        if data.len() < 4 {
            return Err("failed to fill whole buffer".to_owned());
        }
        let mut rdr = Reader { data, pos: 0 };
        let ioa = InfoObjAddr::from_raw(rdr.take_u24());
        let coi = ObjectCOI { raw: rdr.take_u8() };
        Ok((ioa, coi))
    }
}

/// A report of the end of initialization is read back.
pub proof fn reported_initialization_is_read_back(a: AsduData, ioa: InfoObjAddr, coi: ObjectCOI)
    requires
        a.raw == le_bytes(ioa.raw_spec() as nat, 3).push(coi.raw),
    ensures
        initialization(a) == Some((ioa, coi)),
{
    lemma_le3(ioa.raw_spec() as nat);
    assert(le24(a.raw, 0) == ioa.raw_spec());
}

} // verus!
