//! Process information in control direction.

use super::super::error::{is_end_of_data, Error};
use super::asdu::{Asdu, AsduData, Cause, CauseOfTransmission, CommonAddr, InfoObjAddr, TypeID};
use super::mproc::{encodes, reads, send_infos, sends, InfoObject};
use super::objects::{
    all_read_as, is_stamp, object_regular, regular, scan, time_wf, written_objects_are_read_back,
    ObjectBytes, ObjectData, Scan,
};
use super::quality::{weight, ObjectDCO, ObjectQOS, ObjectRCO, ObjectSCO};
use super::time::{check_tag, decode_cp56time2a, tag_at, taggable, time_fits, TagKind};
use crate::clock::CivilTime;
use crate::wire::{
    bytes_as_slice, le16, le32, le_bytes, le_vec, lemma_le_bytes_len, lemma_le_read,
    lemma_signed_read, signed, to_i16, to_i32, twos, twos_of, Reader,
};
use super::super::error::end_of_data_error;
use vstd::prelude::*;

verus! {

/// Single command.
#[derive(Debug, Clone, Copy, PartialEq, Eq, Structural)]
pub struct SingleCommandInfo {
    pub ioa: InfoObjAddr,
    pub sco: ObjectSCO,
    pub time: Option<CivilTime>,
}

impl InfoObject for SingleCommandInfo {
    open spec fn addr_spec(self) -> InfoObjAddr {
        self.ioa
    }

    open spec fn time_spec(self) -> Option<CivilTime> {
        self.time
    }

    open spec fn with_time(self, time: Option<CivilTime>) -> Self {
        SingleCommandInfo { time, ..self }
    }

    open spec fn value_spec(self, t: TypeID) -> Seq<u8> {
        seq![self.sco.raw]
    }

    open spec fn carried(self, t: TypeID) -> bool {
        true
    }

    open spec fn width_spec(t: TypeID) -> nat {
        1
    }

    open spec fn of_value(ioa: InfoObjAddr, value: Seq<u8>, t: TypeID) -> Self {
        SingleCommandInfo { ioa, sco: ObjectSCO { raw: value[0] }, time: None }
    }

    fn addr(&self) -> (r: InfoObjAddr) {
        self.ioa
    }

    fn time_of(&self) -> (r: Option<CivilTime>) {
        self.time
    }

    fn value(&self, t: TypeID) -> (r: Vec<u8>) {
        let mut v: Vec<u8> = Vec::new();
        v.push(self.sco.raw);
        assert(v@ =~= seq![self.sco.raw]);
        v
    }

    fn width(t: TypeID) -> (r: usize) {
        1
    }

    fn read(rdr: &mut Reader, ioa: InfoObjAddr, time: Option<CivilTime>, t: TypeID) -> (r: Self) {
        SingleCommandInfo { ioa, sco: ObjectSCO { raw: rdr.take_u8() }, time }
    }

    proof fn read_back(self, t: TypeID) {
        
    }

    proof fn time_laws(self, a: Option<CivilTime>, b: Option<CivilTime>) {
    }
}

impl SingleCommandInfo {
    /// The command to set a state, without time; `se` selects first.
    pub fn new(addr: u16, v: bool, se: bool) -> (r: Self)
        ensures
            r.ioa == (InfoObjAddr { res: 0, addr }),
            r.sco.raw == weight(se, 128) + weight(v, 1),
            r.time is None,
    {
        SingleCommandInfo {
            ioa: InfoObjAddr::new(0, addr),
            sco: ObjectSCO::new(se, 0, 0, v),
            time: None,
        }
    }
}

/// Double command.
#[derive(Debug, Clone, Copy, PartialEq, Eq, Structural)]
pub struct DoubleCommandInfo {
    pub ioa: InfoObjAddr,
    pub dco: ObjectDCO,
    pub time: Option<CivilTime>,
}

impl InfoObject for DoubleCommandInfo {
    open spec fn addr_spec(self) -> InfoObjAddr {
        self.ioa
    }

    open spec fn time_spec(self) -> Option<CivilTime> {
        self.time
    }

    open spec fn with_time(self, time: Option<CivilTime>) -> Self {
        DoubleCommandInfo { time, ..self }
    }

    open spec fn value_spec(self, t: TypeID) -> Seq<u8> {
        seq![self.dco.raw]
    }

    open spec fn carried(self, t: TypeID) -> bool {
        true
    }

    open spec fn width_spec(t: TypeID) -> nat {
        1
    }

    open spec fn of_value(ioa: InfoObjAddr, value: Seq<u8>, t: TypeID) -> Self {
        DoubleCommandInfo { ioa, dco: ObjectDCO { raw: value[0] }, time: None }
    }

    fn addr(&self) -> (r: InfoObjAddr) {
        self.ioa
    }

    fn time_of(&self) -> (r: Option<CivilTime>) {
        self.time
    }

    fn value(&self, t: TypeID) -> (r: Vec<u8>) {
        let mut v: Vec<u8> = Vec::new();
        v.push(self.dco.raw);
        assert(v@ =~= seq![self.dco.raw]);
        v
    }

    fn width(t: TypeID) -> (r: usize) {
        1
    }

    fn read(rdr: &mut Reader, ioa: InfoObjAddr, time: Option<CivilTime>, t: TypeID) -> (r: Self) {
        DoubleCommandInfo { ioa, dco: ObjectDCO { raw: rdr.take_u8() }, time }
    }

    proof fn read_back(self, t: TypeID) {
        
    }

    proof fn time_laws(self, a: Option<CivilTime>, b: Option<CivilTime>) {
    }
}

impl DoubleCommandInfo {
    /// The command to set a state, of which the low two bits count, without
    /// time; `se` selects first.
    pub fn new(addr: u16, v: u8, se: bool) -> (r: Self)
        ensures
            r.ioa == (InfoObjAddr { res: 0, addr }),
            r.dco.raw == weight(se, 128) + v % 4,
            r.time is None,
    {
        DoubleCommandInfo {
            ioa: InfoObjAddr::new(0, addr),
            dco: ObjectDCO::new(se, 0, v % 4),
            time: None,
        }
    }
}

/// Regulating step command.
#[derive(Debug, Clone, Copy, PartialEq, Eq, Structural)]
pub struct StepCommandInfo {
    pub ioa: InfoObjAddr,
    pub rco: ObjectRCO,
    pub time: Option<CivilTime>,
}

impl InfoObject for StepCommandInfo {
    open spec fn addr_spec(self) -> InfoObjAddr {
        self.ioa
    }

    open spec fn time_spec(self) -> Option<CivilTime> {
        self.time
    }

    open spec fn with_time(self, time: Option<CivilTime>) -> Self {
        StepCommandInfo { time, ..self }
    }

    open spec fn value_spec(self, t: TypeID) -> Seq<u8> {
        seq![self.rco.raw]
    }

    open spec fn carried(self, t: TypeID) -> bool {
        true
    }

    open spec fn width_spec(t: TypeID) -> nat {
        1
    }

    open spec fn of_value(ioa: InfoObjAddr, value: Seq<u8>, t: TypeID) -> Self {
        StepCommandInfo { ioa, rco: ObjectRCO { raw: value[0] }, time: None }
    }

    fn addr(&self) -> (r: InfoObjAddr) {
        self.ioa
    }

    fn time_of(&self) -> (r: Option<CivilTime>) {
        self.time
    }

    fn value(&self, t: TypeID) -> (r: Vec<u8>) {
        let mut v: Vec<u8> = Vec::new();
        v.push(self.rco.raw);
        assert(v@ =~= seq![self.rco.raw]);
        v
    }

    fn width(t: TypeID) -> (r: usize) {
        1
    }

    fn read(rdr: &mut Reader, ioa: InfoObjAddr, time: Option<CivilTime>, t: TypeID) -> (r: Self) {
        StepCommandInfo { ioa, rco: ObjectRCO { raw: rdr.take_u8() }, time }
    }

    proof fn read_back(self, t: TypeID) {
        
    }

    proof fn time_laws(self, a: Option<CivilTime>, b: Option<CivilTime>) {
    }
}

impl StepCommandInfo {
    /// The command to take a step, of which the low two bits count, without
    /// time; `se` selects first.
    pub fn new(addr: u16, v: u8, se: bool) -> (r: Self)
        ensures
            r.ioa == (InfoObjAddr { res: 0, addr }),
            r.rco.raw == weight(se, 128) + v % 4,
            r.time is None,
    {
        StepCommandInfo {
            ioa: InfoObjAddr::new(0, addr),
            rco: ObjectRCO::new(se, 0, v % 4),
            time: None,
        }
    }
}

/// Set-point command, normalized value.
#[derive(Debug, Clone, Copy, PartialEq, Eq, Structural)]
pub struct SetPointCommandNormalInfo {
    pub ioa: InfoObjAddr,
    pub nva: i16,
    pub qos: ObjectQOS,
    pub time: Option<CivilTime>,
}

impl InfoObject for SetPointCommandNormalInfo {
    open spec fn addr_spec(self) -> InfoObjAddr {
        self.ioa
    }

    open spec fn time_spec(self) -> Option<CivilTime> {
        self.time
    }

    open spec fn with_time(self, time: Option<CivilTime>) -> Self {
        SetPointCommandNormalInfo { time, ..self }
    }

    open spec fn value_spec(self, t: TypeID) -> Seq<u8> {
        le_bytes(twos(self.nva as int), 2) + seq![self.qos.raw]
    }

    open spec fn carried(self, t: TypeID) -> bool {
        true
    }

    open spec fn width_spec(t: TypeID) -> nat {
        3
    }

    open spec fn of_value(ioa: InfoObjAddr, value: Seq<u8>, t: TypeID) -> Self {
        SetPointCommandNormalInfo {
            ioa,
            nva: signed(le16(value, 0) as int, 16) as i16,
            qos: ObjectQOS { raw: value[2] },
            time: None,
        }
    }

    fn addr(&self) -> (r: InfoObjAddr) {
        self.ioa
    }

    fn time_of(&self) -> (r: Option<CivilTime>) {
        self.time
    }

    fn value(&self, t: TypeID) -> (r: Vec<u8>) {
        let mut v = le_vec(twos_of(self.nva as i64), 2);
        let ghost v0 = v@;
        v.push(self.qos.raw);
        assert(v@ =~= v0 + seq![self.qos.raw]);
        v
    }

    fn width(t: TypeID) -> (r: usize) {
        3
    }

    fn read(rdr: &mut Reader, ioa: InfoObjAddr, time: Option<CivilTime>, t: TypeID) -> (r: Self) {
        let nva: i16 = to_i16(rdr.take_u16());
        let qos = ObjectQOS { raw: rdr.take_u8() };
        SetPointCommandNormalInfo { ioa, nva, qos, time }
    }

    proof fn read_back(self, t: TypeID) {
        lemma_le_bytes_len(twos(self.nva as int), 2);
        lemma_signed_read(self.nva as int, 2, seq![self.qos.raw]);
    }

    proof fn time_laws(self, a: Option<CivilTime>, b: Option<CivilTime>) {
    }
}

impl SetPointCommandNormalInfo {
    /// The command to set a value, without time.
    pub fn new(addr: u16, v: i16) -> (r: Self)
        ensures
            r == (SetPointCommandNormalInfo {
                ioa: InfoObjAddr { res: 0, addr },
                nva: v,
                qos: ObjectQOS { raw: 0 },
                time: None,
            }),
    {
        SetPointCommandNormalInfo {
            ioa: InfoObjAddr::new(0, addr),
            nva: v,
            qos: ObjectQOS::new(0, 0),
            time: None,
        }
    }
}

/// Set-point command, scaled value.
#[derive(Debug, Clone, Copy, PartialEq, Eq, Structural)]
pub struct SetPointCommandScaledInfo {
    pub ioa: InfoObjAddr,
    pub sva: i16,
    pub qos: ObjectQOS,
    pub time: Option<CivilTime>,
}

impl InfoObject for SetPointCommandScaledInfo {
    open spec fn addr_spec(self) -> InfoObjAddr {
        self.ioa
    }

    open spec fn time_spec(self) -> Option<CivilTime> {
        self.time
    }

    open spec fn with_time(self, time: Option<CivilTime>) -> Self {
        SetPointCommandScaledInfo { time, ..self }
    }

    open spec fn value_spec(self, t: TypeID) -> Seq<u8> {
        le_bytes(twos(self.sva as int), 2) + seq![self.qos.raw]
    }

    open spec fn carried(self, t: TypeID) -> bool {
        true
    }

    open spec fn width_spec(t: TypeID) -> nat {
        3
    }

    open spec fn of_value(ioa: InfoObjAddr, value: Seq<u8>, t: TypeID) -> Self {
        SetPointCommandScaledInfo {
            ioa,
            sva: signed(le16(value, 0) as int, 16) as i16,
            qos: ObjectQOS { raw: value[2] },
            time: None,
        }
    }

    fn addr(&self) -> (r: InfoObjAddr) {
        self.ioa
    }

    fn time_of(&self) -> (r: Option<CivilTime>) {
        self.time
    }

    fn value(&self, t: TypeID) -> (r: Vec<u8>) {
        let mut v = le_vec(twos_of(self.sva as i64), 2);
        let ghost v0 = v@;
        v.push(self.qos.raw);
        assert(v@ =~= v0 + seq![self.qos.raw]);
        v
    }

    fn width(t: TypeID) -> (r: usize) {
        3
    }

    fn read(rdr: &mut Reader, ioa: InfoObjAddr, time: Option<CivilTime>, t: TypeID) -> (r: Self) {
        let sva: i16 = to_i16(rdr.take_u16());
        let qos = ObjectQOS { raw: rdr.take_u8() };
        SetPointCommandScaledInfo { ioa, sva, qos, time }
    }

    proof fn read_back(self, t: TypeID) {
        lemma_le_bytes_len(twos(self.sva as int), 2);
        lemma_signed_read(self.sva as int, 2, seq![self.qos.raw]);
    }

    proof fn time_laws(self, a: Option<CivilTime>, b: Option<CivilTime>) {
    }
}

impl SetPointCommandScaledInfo {
    /// The command to set a value, without time.
    pub fn new(addr: u16, v: i16) -> (r: Self)
        ensures
            r == (SetPointCommandScaledInfo {
                ioa: InfoObjAddr { res: 0, addr },
                sva: v,
                qos: ObjectQOS { raw: 0 },
                time: None,
            }),
    {
        SetPointCommandScaledInfo {
            ioa: InfoObjAddr::new(0, addr),
            sva: v,
            qos: ObjectQOS::new(0, 0),
            time: None,
        }
    }
}

/// Set-point command, short floating point.
#[derive(Debug, Clone, Copy, PartialEq, Eq, Structural)]
pub struct SetPointCommandFloatInfo {
    pub ioa: InfoObjAddr,
    /// The number, by its bit pattern.
    pub r: u32,
    pub qos: ObjectQOS,
    pub time: Option<CivilTime>,
}

impl InfoObject for SetPointCommandFloatInfo {
    open spec fn addr_spec(self) -> InfoObjAddr {
        self.ioa
    }

    open spec fn time_spec(self) -> Option<CivilTime> {
        self.time
    }

    open spec fn with_time(self, time: Option<CivilTime>) -> Self {
        SetPointCommandFloatInfo { time, ..self }
    }

    open spec fn value_spec(self, t: TypeID) -> Seq<u8> {
        le_bytes(self.r as nat, 4) + seq![self.qos.raw]
    }

    open spec fn carried(self, t: TypeID) -> bool {
        true
    }

    open spec fn width_spec(t: TypeID) -> nat {
        5
    }

    open spec fn of_value(ioa: InfoObjAddr, value: Seq<u8>, t: TypeID) -> Self {
        SetPointCommandFloatInfo {
            ioa,
            r: le32(value, 0),
            qos: ObjectQOS { raw: value[4] },
            time: None,
        }
    }

    fn addr(&self) -> (r: InfoObjAddr) {
        self.ioa
    }

    fn time_of(&self) -> (r: Option<CivilTime>) {
        self.time
    }

    fn value(&self, t: TypeID) -> (r: Vec<u8>) {
        let mut v = le_vec(self.r as u64, 4);
        let ghost v0 = v@;
        v.push(self.qos.raw);
        assert(v@ =~= v0 + seq![self.qos.raw]);
        v
    }

    fn width(t: TypeID) -> (r: usize) {
        5
    }

    fn read(rdr: &mut Reader, ioa: InfoObjAddr, time: Option<CivilTime>, t: TypeID) -> (r: Self) {
        let r: u32 = rdr.take_u32();
        let qos = ObjectQOS { raw: rdr.take_u8() };
        SetPointCommandFloatInfo { ioa, r, qos, time }
    }

    proof fn read_back(self, t: TypeID) {
        lemma_le_bytes_len(self.r as nat, 4);
        lemma_le_read(self.r as nat, 4, seq![self.qos.raw]);
    }

    proof fn time_laws(self, a: Option<CivilTime>, b: Option<CivilTime>) {
    }
}

impl SetPointCommandFloatInfo {
    /// The command to set a value, given by its bit pattern, without time.
    pub fn new(addr: u16, v: u32) -> (r: Self)
        ensures
            r == (SetPointCommandFloatInfo {
                ioa: InfoObjAddr { res: 0, addr },
                r: v,
                qos: ObjectQOS { raw: 0 },
                time: None,
            }),
    {
        SetPointCommandFloatInfo {
            ioa: InfoObjAddr::new(0, addr),
            r: v,
            qos: ObjectQOS::new(0, 0),
            time: None,
        }
    }
}

/// Bit string command.
#[derive(Debug, Clone, Copy, PartialEq, Eq, Structural)]
pub struct BitsString32CommandInfo {
    pub ioa: InfoObjAddr,
    pub bcr: i32,
    pub time: Option<CivilTime>,
}

impl InfoObject for BitsString32CommandInfo {
    open spec fn addr_spec(self) -> InfoObjAddr {
        self.ioa
    }

    open spec fn time_spec(self) -> Option<CivilTime> {
        self.time
    }

    open spec fn with_time(self, time: Option<CivilTime>) -> Self {
        BitsString32CommandInfo { time, ..self }
    }

    open spec fn value_spec(self, t: TypeID) -> Seq<u8> {
        le_bytes(twos(self.bcr as int), 4)
    }

    open spec fn carried(self, t: TypeID) -> bool {
        true
    }

    open spec fn width_spec(t: TypeID) -> nat {
        4
    }

    open spec fn of_value(ioa: InfoObjAddr, value: Seq<u8>, t: TypeID) -> Self {
        BitsString32CommandInfo { ioa, bcr: signed(le32(value, 0) as int, 32) as i32, time: None }
    }

    fn addr(&self) -> (r: InfoObjAddr) {
        self.ioa
    }

    fn time_of(&self) -> (r: Option<CivilTime>) {
        self.time
    }

    fn value(&self, t: TypeID) -> (r: Vec<u8>) {
        le_vec(twos_of(self.bcr as i64), 4)
    }

    fn width(t: TypeID) -> (r: usize) {
        4
    }

    fn read(rdr: &mut Reader, ioa: InfoObjAddr, time: Option<CivilTime>, t: TypeID) -> (r: Self) {
        let bcr: i32 = to_i32(rdr.take_u32());
        BitsString32CommandInfo { ioa, bcr, time }
    }

    proof fn read_back(self, t: TypeID) {
        lemma_le_bytes_len(twos(self.bcr as int), 4);
        lemma_signed_read(self.bcr as int, 4, Seq::empty());
        assert(self.value_spec(t) + Seq::<u8>::empty() =~= self.value_spec(t));
    }

    proof fn time_laws(self, a: Option<CivilTime>, b: Option<CivilTime>) {
    }
}

impl BitsString32CommandInfo {
    /// The command to set 32 bits, without time.
    pub fn new(addr: u16, v: i32) -> (r: Self)
        ensures
            r == (BitsString32CommandInfo {
                ioa: InfoObjAddr { res: 0, addr },
                bcr: v,
                time: None,
            }),
    {
        BitsString32CommandInfo { ioa: InfoObjAddr::new(0, addr), bcr: v, time: None }
    }
}

/// Causes of commands and of the answers to them.
pub open spec fn is_commanded(c: Cause) -> bool {
    ||| c is Activation
    ||| c is ActivationCon
    ||| c is Deactivation
    ||| c is DeactivationCon
    ||| c is ActivationTerm
    ||| c is UnknownTypeID
    ||| c is UnknownCOT
    ||| c is UnknownCA
    ||| c is UnknownIOA
}

fn commanded(c: Cause) -> (r: bool)
    ensures
        r == is_commanded(c),
{
    matches!(
        c,
        Cause::Activation
        | Cause::ActivationCon
        | Cause::Deactivation
        | Cause::DeactivationCon
        | Cause::ActivationTerm
        | Cause::UnknownTypeID
        | Cause::UnknownCOT
        | Cause::UnknownCA
        | Cause::UnknownIOA
    )
}

/// The outcome of sending a command: refused for its cause or its type, or
/// sent as a single object.
pub open spec fn command_outcome<T: InfoObject>(
    r: Result<Asdu, Error>,
    cmd: T,
    t: TypeID,
    tag: Option<TagKind>,
    cot: CauseOfTransmission,
    ca: CommonAddr,
) -> bool {
    if !is_commanded(cot.cause) {
        r == Err::<Asdu, Error>(Error::ErrCmdCause(cot))
    } else {
        match tag {
            None => r == Err::<Asdu, Error>(Error::ErrTypeIDNotMatch(t)),
            Some(kind) => r matches Ok(a) && sends(a@, seq![cmd], t, kind, false, cot, ca),
        }
    }
}

fn send_command<T: InfoObject>(
    type_id: TypeID,
    tag: Option<TagKind>,
    cot: CauseOfTransmission,
    ca: CommonAddr,
    cmd: T,
) -> (r: Result<Asdu, Error>)
    requires
        time_wf(cmd.time_spec()),
    ensures
        command_outcome(r, cmd, type_id, tag, cot, ca),
{
    if !commanded(cot.cause) {
        return Err(Error::ErrCmdCause(cot));
    }
    match tag {
        None => Err(Error::ErrTypeIDNotMatch(type_id)),
        Some(kind) => {
            let mut infos: Vec<T> = Vec::new();
            infos.push(cmd);
            assert(infos@ =~= seq![cmd]);
            Ok(send_infos(type_id, kind, false, cot, ca, infos))
        },
    }
}

/// The command of an ASDU: one object, whatever the qualifier says.
pub open spec fn command_of(a: AsduData, width: nat, tag: Option<TagKind>) -> Scan {
    scan(a.raw, 0, 1, false, None, width, tag)
}

/// The outcome of reading the command of an ASDU.
pub open spec fn command_read<T: InfoObject>(
    a: AsduData,
    tag: Option<TagKind>,
    r: Result<T, Error>,
) -> bool {
    match command_of(a, T::width_spec(a.identifier.type_id), tag) {
        Scan::Objects(ds) => r matches Ok(x) && reads(seq![x], a.identifier.type_id, ds),
        Scan::Short => r matches Err(e) && is_end_of_data(e),
        Scan::Mismatch => r == Err::<T, Error>(Error::ErrTypeIDNotMatch(a.identifier.type_id)),
        Scan::Undefined => false,
    }
}

fn read_command<T: InfoObject>(asdu: &Asdu, tag: Option<TagKind>) -> (r: Result<T, Error>)
    requires
        !(command_of(asdu@, T::width_spec(asdu.identifier.type_id), tag) is Undefined),
        tag matches Some(k) ==> !(k is Cp24),
    ensures
        command_read::<T>(asdu@, tag, r),
{
    let t = asdu.identifier.type_id;
    let width: usize = T::width(t);
    let data = bytes_as_slice(&asdu.raw);
    let ghost s = data@;
    proof {
        reveal_with_fuel(scan, 2);
    }
    let mut rdr = Reader { data, pos: 0 };
    if rdr.remaining() < 3 {
        return Err(end_of_data_error());
    }
    let ioa = InfoObjAddr::from_raw(rdr.take_u24());
    if rdr.remaining() < width {
        return Err(end_of_data_error());
    }
    let kind = match tag {
        None => {
            return Err(Error::ErrTypeIDNotMatch(t));
        },
        Some(k) => k,
    };
    let mut behind = Reader { data, pos: 3 + width };
    let time: Option<CivilTime> = match kind {
        TagKind::Cp56 => decode_cp56time2a(&mut behind),
        _ => None,
    };
    let x = T::read(&mut rdr, ioa, time, t);
    proof {
        let w = width as nat;
        let d = ObjectData {
            ioa,
            value: s.subrange(3, 3int + w),
            tag: tag_at(s, 3int + w, kind).0,
        };
        T::of_value(ioa, d.value, t).time_laws(time, time);
        assert(seq![d] + Seq::<ObjectData>::empty() =~= seq![d]);
        assert(command_of(asdu@, w, tag) == Scan::Objects(seq![d]));
    }
    Ok(x)
}

impl AsduData {
    /// The command can be read: its time tag, if the type has one, names an
    /// existing moment.
    pub open spec fn command_defined(self) -> bool {
        match command_layout(self.identifier.type_id) {
            None => true,
            Some(w) => !(tag_at(self.raw, 3int + w, TagKind::Cp56).0 is Undefined),
        }
    }
}

/// Width of the value of commands with a time tag, by type.
pub open spec fn command_layout(t: TypeID) -> Option<nat> {
    match t {
        TypeID::C_SC_TA_1 | TypeID::C_DC_TA_1 | TypeID::C_RC_TA_1 => Some(1),
        TypeID::C_SE_TA_1 | TypeID::C_SE_TB_1 => Some(3),
        TypeID::C_SE_TC_1 => Some(5),
        TypeID::C_BO_TA_1 => Some(4),
        _ => None,
    }
}

impl Asdu {
    /// Whether the command can be read.
    pub fn has_defined_command(&self) -> (r: bool)
        ensures
            r == self@.command_defined(),
    {
        let width: usize = match self.identifier.type_id {
            TypeID::C_SC_TA_1 | TypeID::C_DC_TA_1 | TypeID::C_RC_TA_1 => 1,
            TypeID::C_SE_TA_1 | TypeID::C_SE_TB_1 => 3,
            TypeID::C_SE_TC_1 => 5,
            TypeID::C_BO_TA_1 => 4,
            _ => {
                return true;
            },
        };
        let data = bytes_as_slice(&self.raw);
        if data.len() < 3 + width {
            return true;
        }
        check_tag(data, 3 + width, TagKind::Cp56).is_some()
    }
}

/// The types of the single command, and how they are tagged.
pub open spec fn single_command_tag(t: TypeID) -> Option<TagKind> {
    match t {
        TypeID::C_SC_NA_1 => Some(TagKind::Plain),
        TypeID::C_SC_TA_1 => Some(TagKind::Cp56),
        _ => None,
    }
}

fn tag_of_single_command(t: TypeID) -> (r: Option<TagKind>)
    ensures
        r == single_command_tag(t),
{
    match t {
        TypeID::C_SC_NA_1 => Some(TagKind::Plain),
        TypeID::C_SC_TA_1 => Some(TagKind::Cp56),
        _ => None,
    }
}

/// Send a single command (`C_SC_NA_1` or `C_SC_TA_1`).
pub fn single_cmd(
    type_id: TypeID,
    cot: CauseOfTransmission,
    ca: CommonAddr,
    cmd: SingleCommandInfo,
) -> (r: Result<Asdu, Error>)
    requires
        time_wf(cmd.time),
    ensures
        command_outcome(r, cmd, type_id, single_command_tag(type_id), cot, ca),
{
    send_command(type_id, tag_of_single_command(type_id), cot, ca, cmd)
}

/// The types of the double command, and how they are tagged.
pub open spec fn double_command_tag(t: TypeID) -> Option<TagKind> {
    match t {
        TypeID::C_DC_NA_1 => Some(TagKind::Plain),
        TypeID::C_DC_TA_1 => Some(TagKind::Cp56),
        _ => None,
    }
}

fn tag_of_double_command(t: TypeID) -> (r: Option<TagKind>)
    ensures
        r == double_command_tag(t),
{
    match t {
        TypeID::C_DC_NA_1 => Some(TagKind::Plain),
        TypeID::C_DC_TA_1 => Some(TagKind::Cp56),
        _ => None,
    }
}

/// Send a double command (`C_DC_NA_1` or `C_DC_TA_1`).
pub fn double_cmd(
    type_id: TypeID,
    cot: CauseOfTransmission,
    ca: CommonAddr,
    cmd: DoubleCommandInfo,
) -> (r: Result<Asdu, Error>)
    requires
        time_wf(cmd.time),
    ensures
        command_outcome(r, cmd, type_id, double_command_tag(type_id), cot, ca),
{
    send_command(type_id, tag_of_double_command(type_id), cot, ca, cmd)
}

/// The types of the regulating step command, and how they are tagged.
pub open spec fn step_command_tag(t: TypeID) -> Option<TagKind> {
    match t {
        TypeID::C_RC_NA_1 => Some(TagKind::Plain),
        TypeID::C_RC_TA_1 => Some(TagKind::Cp56),
        _ => None,
    }
}

fn tag_of_step_command(t: TypeID) -> (r: Option<TagKind>)
    ensures
        r == step_command_tag(t),
{
    match t {
        TypeID::C_RC_NA_1 => Some(TagKind::Plain),
        TypeID::C_RC_TA_1 => Some(TagKind::Cp56),
        _ => None,
    }
}

/// Send a regulating step command (`C_RC_NA_1` or `C_RC_TA_1`).
pub fn step_cmd(
    type_id: TypeID,
    cot: CauseOfTransmission,
    ca: CommonAddr,
    cmd: StepCommandInfo,
) -> (r: Result<Asdu, Error>)
    requires
        time_wf(cmd.time),
    ensures
        command_outcome(r, cmd, type_id, step_command_tag(type_id), cot, ca),
{
    send_command(type_id, tag_of_step_command(type_id), cot, ca, cmd)
}

/// The types of the set-point command with a normalized value, and how they are tagged.
pub open spec fn normal_command_tag(t: TypeID) -> Option<TagKind> {
    match t {
        TypeID::C_SE_NA_1 => Some(TagKind::Plain),
        TypeID::C_SE_TA_1 => Some(TagKind::Cp56),
        _ => None,
    }
}

fn tag_of_normal_command(t: TypeID) -> (r: Option<TagKind>)
    ensures
        r == normal_command_tag(t),
{
    match t {
        TypeID::C_SE_NA_1 => Some(TagKind::Plain),
        TypeID::C_SE_TA_1 => Some(TagKind::Cp56),
        _ => None,
    }
}

/// Send a set-point command with a normalized value (`C_SE_NA_1` or `C_SE_TA_1`).
pub fn set_point_cmd_normal(
    type_id: TypeID,
    cot: CauseOfTransmission,
    ca: CommonAddr,
    cmd: SetPointCommandNormalInfo,
) -> (r: Result<Asdu, Error>)
    requires
        time_wf(cmd.time),
    ensures
        command_outcome(r, cmd, type_id, normal_command_tag(type_id), cot, ca),
{
    send_command(type_id, tag_of_normal_command(type_id), cot, ca, cmd)
}

/// The types of the set-point command with a scaled value, and how they are tagged.
pub open spec fn scaled_command_tag(t: TypeID) -> Option<TagKind> {
    match t {
        TypeID::C_SE_NB_1 => Some(TagKind::Plain),
        TypeID::C_SE_TB_1 => Some(TagKind::Cp56),
        _ => None,
    }
}

fn tag_of_scaled_command(t: TypeID) -> (r: Option<TagKind>)
    ensures
        r == scaled_command_tag(t),
{
    match t {
        TypeID::C_SE_NB_1 => Some(TagKind::Plain),
        TypeID::C_SE_TB_1 => Some(TagKind::Cp56),
        _ => None,
    }
}

/// Send a set-point command with a scaled value (`C_SE_NB_1` or `C_SE_TB_1`).
pub fn set_point_cmd_scaled(
    type_id: TypeID,
    cot: CauseOfTransmission,
    ca: CommonAddr,
    cmd: SetPointCommandScaledInfo,
) -> (r: Result<Asdu, Error>)
    requires
        time_wf(cmd.time),
    ensures
        command_outcome(r, cmd, type_id, scaled_command_tag(type_id), cot, ca),
{
    send_command(type_id, tag_of_scaled_command(type_id), cot, ca, cmd)
}

/// The types of the set-point command with a floating-point value, and how they are tagged.
pub open spec fn float_command_tag(t: TypeID) -> Option<TagKind> {
    match t {
        TypeID::C_SE_NC_1 => Some(TagKind::Plain),
        TypeID::C_SE_TC_1 => Some(TagKind::Cp56),
        _ => None,
    }
}

fn tag_of_float_command(t: TypeID) -> (r: Option<TagKind>)
    ensures
        r == float_command_tag(t),
{
    match t {
        TypeID::C_SE_NC_1 => Some(TagKind::Plain),
        TypeID::C_SE_TC_1 => Some(TagKind::Cp56),
        _ => None,
    }
}

/// Send a set-point command with a floating-point value (`C_SE_NC_1` or `C_SE_TC_1`).
pub fn set_point_cmd_float(
    type_id: TypeID,
    cot: CauseOfTransmission,
    ca: CommonAddr,
    cmd: SetPointCommandFloatInfo,
) -> (r: Result<Asdu, Error>)
    requires
        time_wf(cmd.time),
    ensures
        command_outcome(r, cmd, type_id, float_command_tag(type_id), cot, ca),
{
    send_command(type_id, tag_of_float_command(type_id), cot, ca, cmd)
}

/// The types of the bit string command, and how they are tagged.
pub open spec fn bits_command_tag(t: TypeID) -> Option<TagKind> {
    match t {
        TypeID::C_BO_NA_1 => Some(TagKind::Plain),
        TypeID::C_BO_TA_1 => Some(TagKind::Cp56),
        _ => None,
    }
}

fn tag_of_bits_command(t: TypeID) -> (r: Option<TagKind>)
    ensures
        r == bits_command_tag(t),
{
    match t {
        TypeID::C_BO_NA_1 => Some(TagKind::Plain),
        TypeID::C_BO_TA_1 => Some(TagKind::Cp56),
        _ => None,
    }
}

/// Send a bit string command (`C_BO_NA_1` or `C_BO_TA_1`).
pub fn bits_string32_cmd(
    type_id: TypeID,
    cot: CauseOfTransmission,
    ca: CommonAddr,
    cmd: BitsString32CommandInfo,
) -> (r: Result<Asdu, Error>)
    requires
        time_wf(cmd.time),
    ensures
        command_outcome(r, cmd, type_id, bits_command_tag(type_id), cot, ca),
{
    send_command(type_id, tag_of_bits_command(type_id), cot, ca, cmd)
}

impl Asdu {
    /// The single command of the ASDU.
    pub fn get_single_cmd(&self) -> (r: Result<SingleCommandInfo, Error>)
        requires
            single_command_tag(self.identifier.type_id) is Some && self@.raw.len() >= 3
                + SingleCommandInfo::width_spec(self.identifier.type_id) ==> self@.command_defined(),
        ensures
            command_read::<SingleCommandInfo>(self@, single_command_tag(self.identifier.type_id), r),
    {
        proof {
            reveal_with_fuel(scan, 2);
        }
        read_command::<SingleCommandInfo>(self, tag_of_single_command(self.identifier.type_id))
    }

    /// The double command of the ASDU.
    pub fn get_double_cmd(&self) -> (r: Result<DoubleCommandInfo, Error>)
        requires
            double_command_tag(self.identifier.type_id) is Some && self@.raw.len() >= 3
                + DoubleCommandInfo::width_spec(self.identifier.type_id) ==> self@.command_defined(),
        ensures
            command_read::<DoubleCommandInfo>(self@, double_command_tag(self.identifier.type_id), r),
    {
        proof {
            reveal_with_fuel(scan, 2);
        }
        read_command::<DoubleCommandInfo>(self, tag_of_double_command(self.identifier.type_id))
    }

    /// The set-point command with a normalized value of the ASDU.
    pub fn get_set_point_normal_cmd(&self) -> (r: Result<SetPointCommandNormalInfo, Error>)
        requires
            normal_command_tag(self.identifier.type_id) is Some && self@.raw.len() >= 3
                + SetPointCommandNormalInfo::width_spec(self.identifier.type_id) ==> self@.command_defined(),
        ensures
            command_read::<SetPointCommandNormalInfo>(self@, normal_command_tag(self.identifier.type_id), r),
    {
        proof {
            reveal_with_fuel(scan, 2);
        }
        read_command::<SetPointCommandNormalInfo>(self, tag_of_normal_command(self.identifier.type_id))
    }

    /// The set-point command with a scaled value of the ASDU.
    pub fn get_set_point_scaled_cmd(&self) -> (r: Result<SetPointCommandScaledInfo, Error>)
        requires
            scaled_command_tag(self.identifier.type_id) is Some && self@.raw.len() >= 3
                + SetPointCommandScaledInfo::width_spec(self.identifier.type_id) ==> self@.command_defined(),
        ensures
            command_read::<SetPointCommandScaledInfo>(self@, scaled_command_tag(self.identifier.type_id), r),
    {
        proof {
            reveal_with_fuel(scan, 2);
        }
        read_command::<SetPointCommandScaledInfo>(self, tag_of_scaled_command(self.identifier.type_id))
    }

    /// The set-point command with a floating-point value of the ASDU.
    pub fn get_set_point_float_cmd(&self) -> (r: Result<SetPointCommandFloatInfo, Error>)
        requires
            float_command_tag(self.identifier.type_id) is Some && self@.raw.len() >= 3
                + SetPointCommandFloatInfo::width_spec(self.identifier.type_id) ==> self@.command_defined(),
        ensures
            command_read::<SetPointCommandFloatInfo>(self@, float_command_tag(self.identifier.type_id), r),
    {
        proof {
            reveal_with_fuel(scan, 2);
        }
        read_command::<SetPointCommandFloatInfo>(self, tag_of_float_command(self.identifier.type_id))
    }

    /// The bit string command of the ASDU.
    pub fn get_bits_string32_cmd(&self) -> (r: Result<BitsString32CommandInfo, Error>)
        requires
            bits_command_tag(self.identifier.type_id) is Some && self@.raw.len() >= 3
                + BitsString32CommandInfo::width_spec(self.identifier.type_id) ==> self@.command_defined(),
        ensures
            command_read::<BitsString32CommandInfo>(self@, bits_command_tag(self.identifier.type_id), r),
    {
        proof {
            reveal_with_fuel(scan, 2);
        }
        read_command::<BitsString32CommandInfo>(self, tag_of_bits_command(self.identifier.type_id))
    }
}

/// A command that is sent is read back, with its time to the second. A time
/// tag needs a time that it holds.
pub proof fn sent_command_is_read_back<T: InfoObject>(
    a: AsduData,
    cmd: T,
    t: TypeID,
    kind: TagKind,
    cot: CauseOfTransmission,
    ca: CommonAddr,
    time: CivilTime,
    r: Result<T, Error>,
)
    requires
        !(kind is Cp24),
        sends(a, seq![cmd], t, kind, false, cot, ca),
        cmd.carried(t),
        kind is Cp56 ==> cmd.time_spec() == Some(time) && taggable(time),
        command_read::<T>(a, Some(kind), r),
    ensures
        r matches Ok(x) && x == cmd.with_time(x.time_spec()) && x.time_spec() == if kind is Cp56 {
            Some(CivilTime { milli: 0, ..time })
        } else {
            None::<CivilTime>
        },
{
    let infos = seq![cmd];
    let objs = choose|objs: Seq<ObjectBytes>|
        #![trigger encodes(infos, t, kind, objs)]
        encodes(infos, t, kind, objs) && super::mproc::carries(a, t, false, cot, ca, objs);
    let w = T::width_spec(t);
    let times = seq![time];
    cmd.read_back(t);
    assert(objs[0].ioa == infos[0].addr_spec());
    assert(is_stamp(kind, infos[0].time_spec(), objs[0].tag));
    assert(object_regular(objs[0], w, kind, times[0]));
    assert(regular(objs, false, w, kind, times));
    written_objects_are_read_back(a, objs, w, kind, times);
    let ds = all_read_as(objs, kind, times);
    assert(command_of(a, w, Some(kind)) == Scan::Objects(ds));
    let x = r->Ok_0;
    assert(reads(seq![x], t, ds));
    assert(seq![x][0] == x);
    assert(ds[0].value == infos[0].value_spec(t));
    assert(time_fits(x.time_spec(), ds[0].tag));
    let base = T::of_value(cmd.addr_spec(), cmd.value_spec(t), t);
    base.time_laws(cmd.time_spec(), x.time_spec());
}

} // verus!
