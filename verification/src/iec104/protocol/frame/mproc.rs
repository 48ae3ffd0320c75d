//! Process information in monitor direction.

use super::super::error::{is_end_of_data, Error};
use super::asdu::{
    Asdu, AsduData, Cause, CauseOfTransmission, CommonAddr, Identifier, InfoObjAddr, TypeID,
    VariableStruct,
};
use super::objects::{
    all_read_as, body, encode_objects, lemma_mismatch_is_defined, object_fits, object_regular,
    object_views, objects_fit, read_as, regular, stamp, take_objects, time_wf, is_stamp,
    written_objects_are_read_back, EncodedObject, ObjectBytes, ObjectData, Scan,
};
use super::quality::{
    counter_reading_is_read_back, weight, ObjectBCR, ObjectDIQ, ObjectOCI, ObjectQDP, ObjectQDS,
    ObjectSEP, ObjectSIQ, ObjectStartEP, ObjectVTI,
};
use super::time::{taggable, time_fits, TagKind};
use crate::clock::CivilTime;
use crate::wire::{
    bytes_as_slice, bytes_from_vec, le16, le32, le_bytes, le_vec, lemma_le2, lemma_le_bytes_len,
    lemma_le_read, lemma_signed_read, signed, to_i16, to_i32, twos, twos_of, Reader,
};
use vstd::prelude::*;

verus! {

/// An information object of a certain content.
pub trait InfoObject: Sized {
    /// Address of the object.
    spec fn addr_spec(self) -> InfoObjAddr;

    /// Time of the object.
    spec fn time_spec(self) -> Option<CivilTime>;

    /// The object with another time.
    spec fn with_time(self, time: Option<CivilTime>) -> Self;

    /// The value on the wire, in an ASDU of this type.
    spec fn value_spec(self, t: TypeID) -> Seq<u8>;

    /// The value is one that the wire can carry in full.
    spec fn carried(self, t: TypeID) -> bool;

    /// Number of bytes of a value.
    spec fn width_spec(t: TypeID) -> nat;

    /// The object that bytes hold, without its time.
    spec fn of_value(ioa: InfoObjAddr, value: Seq<u8>, t: TypeID) -> Self;

    fn addr(&self) -> (r: InfoObjAddr)
        ensures
            r == self.addr_spec(),
    ;

    fn time_of(&self) -> (r: Option<CivilTime>)
        ensures
            r == self.time_spec(),
    ;

    fn value(&self, t: TypeID) -> (r: Vec<u8>)
        ensures
            r@ == self.value_spec(t),
    ;

    fn width(t: TypeID) -> (r: usize)
        ensures
            r == Self::width_spec(t),
            r <= 5,
    ;

    /// Read the value that starts at the reader's place.
    fn read(rdr: &mut Reader, ioa: InfoObjAddr, time: Option<CivilTime>, t: TypeID) -> (r: Self)
        requires
            old(rdr).pos + Self::width_spec(t) <= old(rdr).data@.len(),
        ensures
            r == Self::of_value(
                ioa,
                old(rdr).data@.subrange(
                    old(rdr).pos as int,
                    old(rdr).pos + Self::width_spec(t),
                ),
                t,
            ).with_time(time),
    ;

    /// A value that the wire carries in full is read from what it is written
    /// as.
    proof fn read_back(self, t: TypeID)
        requires
            self.carried(t),
        ensures
            self.value_spec(t).len() == Self::width_spec(t),
            Self::of_value(self.addr_spec(), self.value_spec(t), t).with_time(self.time_spec())
                == self,
    ;

    /// The time that was set last counts.
    proof fn time_laws(self, a: Option<CivilTime>, b: Option<CivilTime>)
        ensures
            self.with_time(a).with_time(b) == self.with_time(b),
            self.with_time(a).time_spec() == a,
    ;
}

/// Single-point information.
#[derive(Debug, Clone, Copy, PartialEq, Eq, Structural)]
pub struct SinglePointInfo {
    pub ioa: InfoObjAddr,
    pub siq: ObjectSIQ,
    pub time: Option<CivilTime>,
}

impl InfoObject for SinglePointInfo {
    open spec fn addr_spec(self) -> InfoObjAddr {
        self.ioa
    }

    open spec fn time_spec(self) -> Option<CivilTime> {
        self.time
    }

    open spec fn with_time(self, time: Option<CivilTime>) -> Self {
        SinglePointInfo { time, ..self }
    }

    open spec fn value_spec(self, t: TypeID) -> Seq<u8> {
        seq![self.siq.raw]
    }

    open spec fn carried(self, t: TypeID) -> bool {
        true
    }

    open spec fn width_spec(t: TypeID) -> nat {
        1
    }

    open spec fn of_value(ioa: InfoObjAddr, value: Seq<u8>, t: TypeID) -> Self {
        SinglePointInfo { ioa, siq: ObjectSIQ { raw: value[0] }, time: None }
    }

    fn addr(&self) -> (r: InfoObjAddr) {
        self.ioa
    }

    fn time_of(&self) -> (r: Option<CivilTime>) {
        self.time
    }

    fn value(&self, t: TypeID) -> (r: Vec<u8>) {
        let mut v: Vec<u8> = Vec::new();
        v.push(self.siq.raw);
        assert(v@ =~= seq![self.siq.raw]);
        v
    }

    fn width(t: TypeID) -> (r: usize) {
        1
    }

    fn read(rdr: &mut Reader, ioa: InfoObjAddr, time: Option<CivilTime>, t: TypeID) -> (r: Self) {
        SinglePointInfo { ioa, siq: ObjectSIQ { raw: rdr.take_u8() }, time }
    }

    proof fn read_back(self, t: TypeID) {
        
    }

    proof fn time_laws(self, a: Option<CivilTime>, b: Option<CivilTime>) {
    }
}

impl SinglePointInfo {
    pub fn new(ioa: InfoObjAddr, siq: ObjectSIQ, time: Option<CivilTime>) -> (r: Self)
        ensures
            r == (SinglePointInfo { ioa, siq, time }),
    {
        SinglePointInfo { ioa, siq, time }
    }

    /// A state without quality flags and time.
    pub fn new_single(addr: u16, v: bool) -> (r: Self)
        ensures
            r.ioa == (InfoObjAddr { res: 0, addr }),
            r.siq.raw == weight(v, 1),
            r.time is None,
    {
        SinglePointInfo {
            ioa: InfoObjAddr::new(0, addr),
            siq: ObjectSIQ::new(false, false, false, false, 0, v),
            time: None,
        }
    }
}

/// Double-point information.
#[derive(Debug, Clone, Copy, PartialEq, Eq, Structural)]
pub struct DoublePointInfo {
    pub ioa: InfoObjAddr,
    pub diq: ObjectDIQ,
    pub time: Option<CivilTime>,
}

impl InfoObject for DoublePointInfo {
    open spec fn addr_spec(self) -> InfoObjAddr {
        self.ioa
    }

    open spec fn time_spec(self) -> Option<CivilTime> {
        self.time
    }

    open spec fn with_time(self, time: Option<CivilTime>) -> Self {
        DoublePointInfo { time, ..self }
    }

    open spec fn value_spec(self, t: TypeID) -> Seq<u8> {
        seq![self.diq.raw]
    }

    open spec fn carried(self, t: TypeID) -> bool {
        true
    }

    open spec fn width_spec(t: TypeID) -> nat {
        1
    }

    open spec fn of_value(ioa: InfoObjAddr, value: Seq<u8>, t: TypeID) -> Self {
        DoublePointInfo { ioa, diq: ObjectDIQ { raw: value[0] }, time: None }
    }

    fn addr(&self) -> (r: InfoObjAddr) {
        self.ioa
    }

    fn time_of(&self) -> (r: Option<CivilTime>) {
        self.time
    }

    fn value(&self, t: TypeID) -> (r: Vec<u8>) {
        let mut v: Vec<u8> = Vec::new();
        v.push(self.diq.raw);
        assert(v@ =~= seq![self.diq.raw]);
        v
    }

    fn width(t: TypeID) -> (r: usize) {
        1
    }

    fn read(rdr: &mut Reader, ioa: InfoObjAddr, time: Option<CivilTime>, t: TypeID) -> (r: Self) {
        DoublePointInfo { ioa, diq: ObjectDIQ { raw: rdr.take_u8() }, time }
    }

    proof fn read_back(self, t: TypeID) {
        
    }

    proof fn time_laws(self, a: Option<CivilTime>, b: Option<CivilTime>) {
    }
}

impl DoublePointInfo {
    /// A state without quality flags and time; its low two bits count.
    pub fn new_double(addr: u16, v: u8) -> (r: Self)
        ensures
            r.ioa == (InfoObjAddr { res: 0, addr }),
            r.diq.raw == v % 4,
            r.time is None,
    {
        DoublePointInfo {
            ioa: InfoObjAddr::new(0, addr),
            diq: ObjectDIQ::new(false, false, false, false, 0, v % 4),
            time: None,
        }
    }
}

/// Step position information.
#[derive(Debug, Clone, Copy, PartialEq, Eq, Structural)]
pub struct StepPositionInfo {
    pub ioa: InfoObjAddr,
    pub vti: ObjectVTI,
    pub qds: ObjectQDS,
    pub time: Option<CivilTime>,
}

impl InfoObject for StepPositionInfo {
    open spec fn addr_spec(self) -> InfoObjAddr {
        self.ioa
    }

    open spec fn time_spec(self) -> Option<CivilTime> {
        self.time
    }

    open spec fn with_time(self, time: Option<CivilTime>) -> Self {
        StepPositionInfo { time, ..self }
    }

    open spec fn value_spec(self, t: TypeID) -> Seq<u8> {
        seq![self.vti.raw, self.qds.raw]
    }

    open spec fn carried(self, t: TypeID) -> bool {
        true
    }

    open spec fn width_spec(t: TypeID) -> nat {
        2
    }

    open spec fn of_value(ioa: InfoObjAddr, value: Seq<u8>, t: TypeID) -> Self {
        StepPositionInfo {
            ioa,
            vti: ObjectVTI { raw: value[0] },
            qds: ObjectQDS { raw: value[1] },
            time: None,
        }
    }

    fn addr(&self) -> (r: InfoObjAddr) {
        self.ioa
    }

    fn time_of(&self) -> (r: Option<CivilTime>) {
        self.time
    }

    fn value(&self, t: TypeID) -> (r: Vec<u8>) {
        let mut v: Vec<u8> = Vec::new();
        v.push(self.vti.raw);
        v.push(self.qds.raw);
        assert(v@ =~= seq![self.vti.raw, self.qds.raw]);
        v
    }

    fn width(t: TypeID) -> (r: usize) {
        2
    }

    fn read(rdr: &mut Reader, ioa: InfoObjAddr, time: Option<CivilTime>, t: TypeID) -> (r: Self) {
        let vti = ObjectVTI { raw: rdr.take_u8() };
        let qds = ObjectQDS { raw: rdr.take_u8() };
        StepPositionInfo { ioa, vti, qds, time }
    }

    proof fn read_back(self, t: TypeID) {
        
    }

    proof fn time_laws(self, a: Option<CivilTime>, b: Option<CivilTime>) {
    }
}

/// Types of normalized values that carry a quality descriptor.
pub open spec fn has_quality(t: TypeID) -> bool {
    t is M_ME_NA_1 || t is M_ME_TA_1 || t is M_ME_TD_1
}

fn carries_quality(t: TypeID) -> (r: bool)
    ensures
        r == has_quality(t),
{
    matches!(t, TypeID::M_ME_NA_1 | TypeID::M_ME_TA_1 | TypeID::M_ME_TD_1)
}

/// Measured value, normalized.
#[derive(Debug, Clone, Copy, PartialEq, Eq, Structural)]
pub struct MeasuredValueNormalInfo {
    pub ioa: InfoObjAddr,
    pub nva: i16,
    /// Quality; none where the type has none.
    pub qds: Option<ObjectQDS>,
    pub time: Option<CivilTime>,
}

impl InfoObject for MeasuredValueNormalInfo {
    open spec fn addr_spec(self) -> InfoObjAddr {
        self.ioa
    }

    open spec fn time_spec(self) -> Option<CivilTime> {
        self.time
    }

    open spec fn with_time(self, time: Option<CivilTime>) -> Self {
        MeasuredValueNormalInfo { time, ..self }
    }

    open spec fn value_spec(self, t: TypeID) -> Seq<u8> {
        le_bytes(twos(self.nva as int), 2) + (if has_quality(t) {
            seq![
                match self.qds {
                    Some(q) => q.raw,
                    None => 0,
                },
            ]
        } else {
            Seq::empty()
        })
    }

    open spec fn carried(self, t: TypeID) -> bool {
        has_quality(t) == self.qds is Some
    }

    open spec fn width_spec(t: TypeID) -> nat {
        if has_quality(t) {
            3
        } else {
            2
        }
    }

    open spec fn of_value(ioa: InfoObjAddr, value: Seq<u8>, t: TypeID) -> Self {
        MeasuredValueNormalInfo {
            ioa,
            nva: signed(le16(value, 0) as int, 16) as i16,
            qds: if has_quality(t) {
                Some(ObjectQDS { raw: value[2] })
            } else {
                None
            },
            time: None,
        }
    }

    fn addr(&self) -> (r: InfoObjAddr) {
        self.ioa
    }

    fn time_of(&self) -> (r: Option<CivilTime>) {
        self.time
    }

    fn value(&self, t: TypeID) -> (r: Vec<u8>) {
        let mut v = le_vec(twos_of(self.nva as i64), 2);
        let ghost v0 = v@;
        if carries_quality(t) {
            let q: u8 = match self.qds {
                Some(q) => q.raw,
                None => 0,
            };
            v.push(q);
            assert(v@ =~= v0 + seq![q]);
        } else {
            assert(v@ =~= v0 + Seq::<u8>::empty());
        }
        v
    }

    fn width(t: TypeID) -> (r: usize) {
        if carries_quality(t) {
            3
        } else {
            2
        }
    }

    fn read(rdr: &mut Reader, ioa: InfoObjAddr, time: Option<CivilTime>, t: TypeID) -> (r: Self) {
        let ghost value = rdr.data@.subrange(rdr.pos as int, rdr.pos + Self::width_spec(t));
        let nva: i16 = to_i16(rdr.take_u16());
        let qds: Option<ObjectQDS> = if carries_quality(t) {
            Some(ObjectQDS { raw: rdr.take_u8() })
        } else {
            None
        };
        MeasuredValueNormalInfo { ioa, nva, qds, time }
    }

    proof fn read_back(self, t: TypeID) {
        let v = self.value_spec(t);
        lemma_le_bytes_len(twos(self.nva as int), 2);
        if has_quality(t) {
            lemma_signed_read(self.nva as int, 2, seq![self.qds->0.raw]);
        } else {
            lemma_signed_read(self.nva as int, 2, Seq::empty());
        }
    }

    proof fn time_laws(self, a: Option<CivilTime>, b: Option<CivilTime>) {
    }
}

/// Measured value, scaled.
#[derive(Debug, Clone, Copy, PartialEq, Eq, Structural)]
pub struct MeasuredValueScaledInfo {
    pub ioa: InfoObjAddr,
    pub sva: i16,
    pub qds: ObjectQDS,
    pub time: Option<CivilTime>,
}

impl InfoObject for MeasuredValueScaledInfo {
    open spec fn addr_spec(self) -> InfoObjAddr {
        self.ioa
    }

    open spec fn time_spec(self) -> Option<CivilTime> {
        self.time
    }

    open spec fn with_time(self, time: Option<CivilTime>) -> Self {
        MeasuredValueScaledInfo { time, ..self }
    }

    open spec fn value_spec(self, t: TypeID) -> Seq<u8> {
        le_bytes(twos(self.sva as int), 2) + seq![self.qds.raw]
    }

    open spec fn carried(self, t: TypeID) -> bool {
        true
    }

    open spec fn width_spec(t: TypeID) -> nat {
        3
    }

    open spec fn of_value(ioa: InfoObjAddr, value: Seq<u8>, t: TypeID) -> Self {
        MeasuredValueScaledInfo {
            ioa,
            sva: signed(le16(value, 0) as int, 16) as i16,
            qds: ObjectQDS { raw: value[2] },
            time: None,
        }
    }

    fn addr(&self) -> (r: InfoObjAddr) {
        self.ioa
    }

    fn time_of(&self) -> (r: Option<CivilTime>) {
        self.time
    }

    fn value(&self, t: TypeID) -> (r: Vec<u8>) {
        let mut v = le_vec(twos_of(self.sva as i64), 2);
        let ghost v0 = v@;
        v.push(self.qds.raw);
        assert(v@ =~= v0 + seq![self.qds.raw]);
        v
    }

    fn width(t: TypeID) -> (r: usize) {
        3
    }

    fn read(rdr: &mut Reader, ioa: InfoObjAddr, time: Option<CivilTime>, t: TypeID) -> (r: Self) {
        let sva: i16 = to_i16(rdr.take_u16());
        let qds = ObjectQDS { raw: rdr.take_u8() };
        MeasuredValueScaledInfo { ioa, sva, qds, time }
    }

    proof fn read_back(self, t: TypeID) {
        lemma_le_bytes_len(twos(self.sva as int), 2);
        lemma_signed_read(self.sva as int, 2, seq![self.qds.raw]);
    }

    proof fn time_laws(self, a: Option<CivilTime>, b: Option<CivilTime>) {
    }
}

/// Measured value, short floating point.
#[derive(Debug, Clone, Copy, PartialEq, Eq, Structural)]
pub struct MeasuredValueFloatInfo {
    pub ioa: InfoObjAddr,
    /// The number, by its bit pattern.
    pub r: u32,
    pub qds: ObjectQDS,
    pub time: Option<CivilTime>,
}

impl InfoObject for MeasuredValueFloatInfo {
    open spec fn addr_spec(self) -> InfoObjAddr {
        self.ioa
    }

    open spec fn time_spec(self) -> Option<CivilTime> {
        self.time
    }

    open spec fn with_time(self, time: Option<CivilTime>) -> Self {
        MeasuredValueFloatInfo { time, ..self }
    }

    open spec fn value_spec(self, t: TypeID) -> Seq<u8> {
        le_bytes(self.r as nat, 4) + seq![self.qds.raw]
    }

    open spec fn carried(self, t: TypeID) -> bool {
        true
    }

    open spec fn width_spec(t: TypeID) -> nat {
        5
    }

    open spec fn of_value(ioa: InfoObjAddr, value: Seq<u8>, t: TypeID) -> Self {
        MeasuredValueFloatInfo {
            ioa,
            r: le32(value, 0),
            qds: ObjectQDS { raw: value[4] },
            time: None,
        }
    }

    fn addr(&self) -> (r: InfoObjAddr) {
        self.ioa
    }

    fn time_of(&self) -> (r: Option<CivilTime>) {
        self.time
    }

    fn value(&self, t: TypeID) -> (r: Vec<u8>) {
        let mut v = le_vec(self.r as u64, 4);
        let ghost v0 = v@;
        v.push(self.qds.raw);
        assert(v@ =~= v0 + seq![self.qds.raw]);
        v
    }

    fn width(t: TypeID) -> (r: usize) {
        5
    }

    fn read(rdr: &mut Reader, ioa: InfoObjAddr, time: Option<CivilTime>, t: TypeID) -> (r: Self) {
        let r: u32 = rdr.take_u32();
        let qds = ObjectQDS { raw: rdr.take_u8() };
        MeasuredValueFloatInfo { ioa, r, qds, time }
    }

    proof fn read_back(self, t: TypeID) {
        lemma_le_bytes_len(self.r as nat, 4);
        lemma_le_read(self.r as nat, 4, seq![self.qds.raw]);
    }

    proof fn time_laws(self, a: Option<CivilTime>, b: Option<CivilTime>) {
    }
}

/// Integrated totals.
#[derive(Debug, Clone, Copy, PartialEq, Eq, Structural)]
pub struct BinaryCounterReadingInfo {
    pub ioa: InfoObjAddr,
    pub bcr: ObjectBCR,
    pub time: Option<CivilTime>,
}

impl InfoObject for BinaryCounterReadingInfo {
    open spec fn addr_spec(self) -> InfoObjAddr {
        self.ioa
    }

    open spec fn time_spec(self) -> Option<CivilTime> {
        self.time
    }

    open spec fn with_time(self, time: Option<CivilTime>) -> Self {
        BinaryCounterReadingInfo { time, ..self }
    }

    open spec fn value_spec(self, t: TypeID) -> Seq<u8> {
        le_bytes(twos(self.bcr.value as int), 4) + seq![self.bcr.flags_spec()]
    }

    open spec fn carried(self, t: TypeID) -> bool {
        self.bcr.seq < 32
    }

    open spec fn width_spec(t: TypeID) -> nat {
        5
    }

    open spec fn of_value(ioa: InfoObjAddr, value: Seq<u8>, t: TypeID) -> Self {
        BinaryCounterReadingInfo {
            ioa,
            bcr: ObjectBCR::of(signed(le32(value, 0) as int, 32) as i32, value[4]),
            time: None,
        }
    }

    fn addr(&self) -> (r: InfoObjAddr) {
        self.ioa
    }

    fn time_of(&self) -> (r: Option<CivilTime>) {
        self.time
    }

    fn value(&self, t: TypeID) -> (r: Vec<u8>) {
        let mut v = le_vec(twos_of(self.bcr.value as i64), 4);
        let ghost v0 = v@;
        v.push(self.bcr.flags());
        assert(v@ =~= v0 + seq![self.bcr.flags_spec()]);
        v
    }

    fn width(t: TypeID) -> (r: usize) {
        5
    }

    fn read(rdr: &mut Reader, ioa: InfoObjAddr, time: Option<CivilTime>, t: TypeID) -> (r: Self) {
        let value: i32 = to_i32(rdr.take_u32());
        let flags: u8 = rdr.take_u8();
        BinaryCounterReadingInfo { ioa, bcr: ObjectBCR::from_parts(value, flags), time }
    }

    proof fn read_back(self, t: TypeID) {
        lemma_le_bytes_len(twos(self.bcr.value as int), 4);
        lemma_signed_read(self.bcr.value as int, 4, seq![self.bcr.flags_spec()]);
        counter_reading_is_read_back(self.bcr);
    }

    proof fn time_laws(self, a: Option<CivilTime>, b: Option<CivilTime>) {
    }
}

/// Bit string of 32 bits.
#[derive(Debug, Clone, Copy, PartialEq, Eq, Structural)]
pub struct BitStringInfo {
    pub ioa: InfoObjAddr,
    pub bsi: u32,
    pub qds: ObjectQDS,
    pub time: Option<CivilTime>,
}

impl InfoObject for BitStringInfo {
    open spec fn addr_spec(self) -> InfoObjAddr {
        self.ioa
    }

    open spec fn time_spec(self) -> Option<CivilTime> {
        self.time
    }

    open spec fn with_time(self, time: Option<CivilTime>) -> Self {
        BitStringInfo { time, ..self }
    }

    open spec fn value_spec(self, t: TypeID) -> Seq<u8> {
        le_bytes(self.bsi as nat, 4) + seq![self.qds.raw]
    }

    open spec fn carried(self, t: TypeID) -> bool {
        true
    }

    open spec fn width_spec(t: TypeID) -> nat {
        5
    }

    open spec fn of_value(ioa: InfoObjAddr, value: Seq<u8>, t: TypeID) -> Self {
        BitStringInfo { ioa, bsi: le32(value, 0), qds: ObjectQDS { raw: value[4] }, time: None }
    }

    fn addr(&self) -> (r: InfoObjAddr) {
        self.ioa
    }

    fn time_of(&self) -> (r: Option<CivilTime>) {
        self.time
    }

    fn value(&self, t: TypeID) -> (r: Vec<u8>) {
        let mut v = le_vec(self.bsi as u64, 4);
        let ghost v0 = v@;
        v.push(self.qds.raw);
        assert(v@ =~= v0 + seq![self.qds.raw]);
        v
    }

    fn width(t: TypeID) -> (r: usize) {
        5
    }

    fn read(rdr: &mut Reader, ioa: InfoObjAddr, time: Option<CivilTime>, t: TypeID) -> (r: Self) {
        let bsi: u32 = rdr.take_u32();
        let qds = ObjectQDS { raw: rdr.take_u8() };
        BitStringInfo { ioa, bsi, qds, time }
    }

    proof fn read_back(self, t: TypeID) {
        lemma_le_bytes_len(self.bsi as nat, 4);
        lemma_le_read(self.bsi as nat, 4, seq![self.qds.raw]);
    }

    proof fn time_laws(self, a: Option<CivilTime>, b: Option<CivilTime>) {
    }
}

/// Event of protection equipment.
#[derive(Debug, Clone, Copy, PartialEq, Eq, Structural)]
pub struct ProtectionEventTdInfo {
    pub ioa: InfoObjAddr,
    pub sep: ObjectSEP,
    pub elapsed_msec: u16,
    pub time: Option<CivilTime>,
}

impl InfoObject for ProtectionEventTdInfo {
    open spec fn addr_spec(self) -> InfoObjAddr {
        self.ioa
    }

    open spec fn time_spec(self) -> Option<CivilTime> {
        self.time
    }

    open spec fn with_time(self, time: Option<CivilTime>) -> Self {
        ProtectionEventTdInfo { time, ..self }
    }

    open spec fn value_spec(self, t: TypeID) -> Seq<u8> {
        seq![self.sep.raw] + le_bytes(self.elapsed_msec as nat, 2)
    }

    open spec fn carried(self, t: TypeID) -> bool {
        true
    }

    open spec fn width_spec(t: TypeID) -> nat {
        3
    }

    open spec fn of_value(ioa: InfoObjAddr, value: Seq<u8>, t: TypeID) -> Self {
        ProtectionEventTdInfo {
            ioa,
            sep: ObjectSEP { raw: value[0] },
            elapsed_msec: le16(value, 1),
            time: None,
        }
    }

    fn addr(&self) -> (r: InfoObjAddr) {
        self.ioa
    }

    fn time_of(&self) -> (r: Option<CivilTime>) {
        self.time
    }

    fn value(&self, t: TypeID) -> (r: Vec<u8>) {
        let mut v: Vec<u8> = Vec::new();
        v.push(self.sep.raw);
        let mut e = le_vec(self.elapsed_msec as u64, 2);
        v.append(&mut e);
        assert(v@ =~= seq![self.sep.raw] + le_bytes(self.elapsed_msec as nat, 2));
        v
    }

    fn width(t: TypeID) -> (r: usize) {
        3
    }

    fn read(rdr: &mut Reader, ioa: InfoObjAddr, time: Option<CivilTime>, t: TypeID) -> (r: Self) {
        let sep = ObjectSEP { raw: rdr.take_u8() };
        let elapsed_msec: u16 = rdr.take_u16();
        ProtectionEventTdInfo { ioa, sep, elapsed_msec, time }
    }

    proof fn read_back(self, t: TypeID) {
        lemma_le2(self.elapsed_msec as nat);
    }

    proof fn time_laws(self, a: Option<CivilTime>, b: Option<CivilTime>) {
    }
}

/// Packed start events of protection equipment.
#[derive(Debug, Clone, Copy, PartialEq, Eq, Structural)]
pub struct ProtectionEventTeInfo {
    pub ioa: InfoObjAddr,
    pub start_ep: ObjectStartEP,
    pub qdp: ObjectQDP,
    pub relay_duration_msec: u16,
    pub time: Option<CivilTime>,
}

impl InfoObject for ProtectionEventTeInfo {
    open spec fn addr_spec(self) -> InfoObjAddr {
        self.ioa
    }

    open spec fn time_spec(self) -> Option<CivilTime> {
        self.time
    }

    open spec fn with_time(self, time: Option<CivilTime>) -> Self {
        ProtectionEventTeInfo { time, ..self }
    }

    open spec fn value_spec(self, t: TypeID) -> Seq<u8> {
        seq![self.start_ep.raw, self.qdp.raw] + le_bytes(self.relay_duration_msec as nat, 2)
    }

    open spec fn carried(self, t: TypeID) -> bool {
        true
    }

    open spec fn width_spec(t: TypeID) -> nat {
        4
    }

    open spec fn of_value(ioa: InfoObjAddr, value: Seq<u8>, t: TypeID) -> Self {
        ProtectionEventTeInfo {
            ioa,
            start_ep: ObjectStartEP { raw: value[0] },
            qdp: ObjectQDP { raw: value[1] },
            relay_duration_msec: le16(value, 2),
            time: None,
        }
    }

    fn addr(&self) -> (r: InfoObjAddr) {
        self.ioa
    }

    fn time_of(&self) -> (r: Option<CivilTime>) {
        self.time
    }

    fn value(&self, t: TypeID) -> (r: Vec<u8>) {
        let mut v: Vec<u8> = Vec::new();
        v.push(self.start_ep.raw);
        v.push(self.qdp.raw);
        let mut e = le_vec(self.relay_duration_msec as u64, 2);
        v.append(&mut e);
        assert(v@ =~= seq![self.start_ep.raw, self.qdp.raw] + le_bytes(self.relay_duration_msec as nat, 2));
        v
    }

    fn width(t: TypeID) -> (r: usize) {
        4
    }

    fn read(rdr: &mut Reader, ioa: InfoObjAddr, time: Option<CivilTime>, t: TypeID) -> (r: Self) {
        let start_ep = ObjectStartEP { raw: rdr.take_u8() };
        let qdp = ObjectQDP { raw: rdr.take_u8() };
        let relay_duration_msec: u16 = rdr.take_u16();
        ProtectionEventTeInfo { ioa, start_ep, qdp, relay_duration_msec, time }
    }

    proof fn read_back(self, t: TypeID) {
        lemma_le2(self.relay_duration_msec as nat);
    }

    proof fn time_laws(self, a: Option<CivilTime>, b: Option<CivilTime>) {
    }
}

/// Packed output circuit information of protection equipment.
#[derive(Debug, Clone, Copy, PartialEq, Eq, Structural)]
pub struct ProtectionEventTfInfo {
    pub ioa: InfoObjAddr,
    pub oci: ObjectOCI,
    pub qdp: ObjectQDP,
    pub relay_op_time_msec: u16,
    pub time: Option<CivilTime>,
}

impl InfoObject for ProtectionEventTfInfo {
    open spec fn addr_spec(self) -> InfoObjAddr {
        self.ioa
    }

    open spec fn time_spec(self) -> Option<CivilTime> {
        self.time
    }

    open spec fn with_time(self, time: Option<CivilTime>) -> Self {
        ProtectionEventTfInfo { time, ..self }
    }

    open spec fn value_spec(self, t: TypeID) -> Seq<u8> {
        seq![self.oci.raw, self.qdp.raw] + le_bytes(self.relay_op_time_msec as nat, 2)
    }

    open spec fn carried(self, t: TypeID) -> bool {
        true
    }

    open spec fn width_spec(t: TypeID) -> nat {
        4
    }

    open spec fn of_value(ioa: InfoObjAddr, value: Seq<u8>, t: TypeID) -> Self {
        ProtectionEventTfInfo {
            ioa,
            oci: ObjectOCI { raw: value[0] },
            qdp: ObjectQDP { raw: value[1] },
            relay_op_time_msec: le16(value, 2),
            time: None,
        }
    }

    fn addr(&self) -> (r: InfoObjAddr) {
        self.ioa
    }

    fn time_of(&self) -> (r: Option<CivilTime>) {
        self.time
    }

    fn value(&self, t: TypeID) -> (r: Vec<u8>) {
        let mut v: Vec<u8> = Vec::new();
        v.push(self.oci.raw);
        v.push(self.qdp.raw);
        let mut e = le_vec(self.relay_op_time_msec as u64, 2);
        v.append(&mut e);
        assert(v@ =~= seq![self.oci.raw, self.qdp.raw] + le_bytes(self.relay_op_time_msec as nat, 2));
        v
    }

    fn width(t: TypeID) -> (r: usize) {
        4
    }

    fn read(rdr: &mut Reader, ioa: InfoObjAddr, time: Option<CivilTime>, t: TypeID) -> (r: Self) {
        let oci = ObjectOCI { raw: rdr.take_u8() };
        let qdp = ObjectQDP { raw: rdr.take_u8() };
        let relay_op_time_msec: u16 = rdr.take_u16();
        ProtectionEventTfInfo { ioa, oci, qdp, relay_op_time_msec, time }
    }

    proof fn read_back(self, t: TypeID) {
        lemma_le2(self.relay_op_time_msec as nat);
    }

    proof fn time_laws(self, a: Option<CivilTime>, b: Option<CivilTime>) {
    }
}

/// The objects on the wire are those of the list, each with its value and its
/// time tag.
pub open spec fn encodes<T: InfoObject>(
    infos: Seq<T>,
    t: TypeID,
    kind: TagKind,
    objs: Seq<ObjectBytes>,
) -> bool {
    &&& objs.len() == infos.len()
    &&& forall|i: int|
        0 <= i < infos.len() ==> {
            &&& (#[trigger] objs[i]).ioa == infos[i].addr_spec()
            &&& objs[i].value == infos[i].value_spec(t)
            &&& is_stamp(kind, infos[i].time_spec(), objs[i].tag)
        }
}

/// The ASDU is of this type and carries these objects.
pub open spec fn carries(
    a: AsduData,
    t: TypeID,
    sequence: bool,
    cot: CauseOfTransmission,
    ca: CommonAddr,
    objs: Seq<ObjectBytes>,
) -> bool {
    &&& a.identifier.type_id == t
    &&& a.identifier.variable_struct.is_sequence_spec() == sequence
    &&& a.identifier.variable_struct.number_spec() == objs.len() % 256
    &&& a.identifier.cot == cot
    &&& a.identifier.orig_addr == 0
    &&& a.identifier.common_addr == ca
    &&& a.raw == body(objs, sequence, true)
}

/// The ASDU sends the list: one object per entry, in their order.
pub open spec fn sends<T: InfoObject>(
    a: AsduData,
    infos: Seq<T>,
    t: TypeID,
    kind: TagKind,
    sequence: bool,
    cot: CauseOfTransmission,
    ca: CommonAddr,
) -> bool {
    exists|objs: Seq<ObjectBytes>|
        #![trigger encodes(infos, t, kind, objs)]
        encodes(infos, t, kind, objs) && carries(a, t, sequence, cot, ca, objs)
}

/// The list can be sent: its length, as far as a byte holds it, fits seven
/// bits, and every time that is given is a moment.
pub open spec fn sendable<T: InfoObject>(infos: Seq<T>) -> bool {
    &&& infos.len() % 256 < 128
    &&& forall|i: int| 0 <= i < infos.len() ==> time_wf((#[trigger] infos[i]).time_spec())
}

pub(crate) fn send_infos<T: InfoObject>(
    type_id: TypeID,
    kind: TagKind,
    is_sequence: bool,
    cot: CauseOfTransmission,
    ca: CommonAddr,
    infos: Vec<T>,
) -> (r: Asdu)
    requires
        sendable(infos@),
    ensures
        sends(r@, infos@, type_id, kind, is_sequence, cot, ca),
{
    let variable_struct = VariableStruct::new(is_sequence, (infos.len() % 256) as u8);
    let mut objs: Vec<EncodedObject> = Vec::new();
    for i in 0..infos.len()
        invariant
            sendable(infos@),
            objs@.len() == i,
            forall|j: int|
                0 <= j < i ==> {
                    &&& (#[trigger] objs@[j]).ioa == infos@[j].addr_spec()
                    &&& objs@[j].value@ == infos@[j].value_spec(type_id)
                    &&& is_stamp(kind, infos@[j].time_spec(), objs@[j].tag@)
                },
    {
        let ioa = infos[i].addr();
        let value = infos[i].value(type_id);
        let tag = stamp(kind, infos[i].time_of());
        objs.push(EncodedObject { ioa, value, tag });
    }
    let raw = encode_objects(&objs, is_sequence);
    let asdu = Asdu {
        identifier: Identifier { type_id, variable_struct, cot, orig_addr: 0, common_addr: ca },
        raw: bytes_from_vec(raw),
    };
    proof {
        let views = object_views(objs@);
        assert forall|i: int| 0 <= i < infos@.len() implies {
            &&& (#[trigger] views[i]).ioa == infos@[i].addr_spec()
            &&& views[i].value == infos@[i].value_spec(type_id)
            &&& is_stamp(kind, infos@[i].time_spec(), views[i].tag)
        } by {
            assert(views[i] == objs@[i]@);
        }
        assert(encodes(infos@, type_id, kind, views));
        assert(carries(asdu@, type_id, is_sequence, cot, ca, views));
    }
    asdu
}

/// The objects that were read, one for one.
pub open spec fn reads<T: InfoObject>(v: Seq<T>, t: TypeID, ds: Seq<ObjectData>) -> bool {
    &&& v.len() == ds.len()
    &&& forall|i: int|
        0 <= i < ds.len() ==> {
            &&& time_fits((#[trigger] v[i]).time_spec(), ds[i].tag)
            &&& v[i] == T::of_value(ds[i].ioa, ds[i].value, t).with_time(v[i].time_spec())
        }
}

/// The outcome of reading the objects of an ASDU.
pub open spec fn read_outcome<T: InfoObject>(
    a: AsduData,
    tag: Option<TagKind>,
    r: Result<Vec<T>, Error>,
) -> bool {
    match a.objects_as(T::width_spec(a.identifier.type_id), tag) {
        Scan::Objects(ds) => r matches Ok(v) && reads(v@, a.identifier.type_id, ds),
        Scan::Short => r matches Err(e) && is_end_of_data(e),
        Scan::Mismatch => r == Err::<Vec<T>, Error>(
            Error::ErrTypeIDNotMatch(a.identifier.type_id),
        ),
        Scan::Undefined => false,
    }
}

fn read_infos<T: InfoObject>(asdu: &Asdu, tag: Option<TagKind>) -> (r: Result<Vec<T>, Error>)
    requires
        !(asdu@.objects_as(T::width_spec(asdu.identifier.type_id), tag) is Undefined),
    ensures
        read_outcome::<T>(asdu@, tag, r),
{
    let t = asdu.identifier.type_id;
    let width: usize = T::width(t);
    let objs = match take_objects(asdu, width, tag) {
        Ok(objs) => objs,
        Err(e) => {
            return Err(e);
        },
    };
    let data = bytes_as_slice(&asdu.raw);
    let ghost ds = asdu@.objects_as(width as nat, tag)->Objects_0;
    let mut out: Vec<T> = Vec::new();
    for i in 0..objs.len()
        invariant
            t == asdu.identifier.type_id,
            data@ == asdu@.raw,
            width == T::width_spec(t),
            objects_fit(objs@, data@, width as nat, ds),
            out@.len() == i,
            forall|j: int|
                0 <= j < i ==> {
                    &&& time_fits((#[trigger] out@[j]).time_spec(), ds[j].tag)
                    &&& out@[j] == T::of_value(ds[j].ioa, ds[j].value, t).with_time(
                        out@[j].time_spec(),
                    )
                },
    {
        assert(object_fits(objs@[i as int], data@, width as nat, ds[i as int]));
        let mut rdr = Reader { data, pos: objs[i].at };
        let x = T::read(&mut rdr, objs[i].ioa, objs[i].time, t);
        proof {
            T::of_value(ds[i as int].ioa, ds[i as int].value, t).time_laws(
                objs@[i as int].time,
                objs@[i as int].time,
            );
        }
        out.push(x);
    }
    Ok(out)
}

/// Single-point types, and how they are tagged.
pub open spec fn single_tag(t: TypeID) -> Option<TagKind> {
    match t {
        TypeID::M_SP_NA_1 => Some(TagKind::Plain),
        TypeID::M_SP_TA_1 => Some(TagKind::Cp24),
        TypeID::M_SP_TB_1 => Some(TagKind::Cp56),
        _ => None,
    }
}

fn tag_of_single(t: TypeID) -> (r: Option<TagKind>)
    ensures
        r == single_tag(t),
{
    match t {
        TypeID::M_SP_NA_1 => Some(TagKind::Plain),
        TypeID::M_SP_TA_1 => Some(TagKind::Cp24),
        TypeID::M_SP_TB_1 => Some(TagKind::Cp56),
        _ => None,
    }
}

/// Double-point types, and how they are tagged.
pub open spec fn double_tag(t: TypeID) -> Option<TagKind> {
    match t {
        TypeID::M_DP_NA_1 => Some(TagKind::Plain),
        TypeID::M_DP_TA_1 => Some(TagKind::Cp24),
        TypeID::M_DP_TB_1 => Some(TagKind::Cp56),
        _ => None,
    }
}

fn tag_of_double(t: TypeID) -> (r: Option<TagKind>)
    ensures
        r == double_tag(t),
{
    match t {
        TypeID::M_DP_NA_1 => Some(TagKind::Plain),
        TypeID::M_DP_TA_1 => Some(TagKind::Cp24),
        TypeID::M_DP_TB_1 => Some(TagKind::Cp56),
        _ => None,
    }
}

/// Step position types, and how they are tagged.
pub open spec fn step_tag(t: TypeID) -> Option<TagKind> {
    match t {
        TypeID::M_ST_NA_1 => Some(TagKind::Plain),
        TypeID::M_ST_TA_1 => Some(TagKind::Cp24),
        TypeID::M_ST_TB_1 => Some(TagKind::Cp56),
        _ => None,
    }
}

fn tag_of_step(t: TypeID) -> (r: Option<TagKind>)
    ensures
        r == step_tag(t),
{
    match t {
        TypeID::M_ST_NA_1 => Some(TagKind::Plain),
        TypeID::M_ST_TA_1 => Some(TagKind::Cp24),
        TypeID::M_ST_TB_1 => Some(TagKind::Cp56),
        _ => None,
    }
}

/// Scaled value types, and how they are tagged.
pub open spec fn scaled_tag(t: TypeID) -> Option<TagKind> {
    match t {
        TypeID::M_ME_NB_1 => Some(TagKind::Plain),
        TypeID::M_ME_TB_1 => Some(TagKind::Cp24),
        TypeID::M_ME_TE_1 => Some(TagKind::Cp56),
        _ => None,
    }
}

fn tag_of_scaled(t: TypeID) -> (r: Option<TagKind>)
    ensures
        r == scaled_tag(t),
{
    match t {
        TypeID::M_ME_NB_1 => Some(TagKind::Plain),
        TypeID::M_ME_TB_1 => Some(TagKind::Cp24),
        TypeID::M_ME_TE_1 => Some(TagKind::Cp56),
        _ => None,
    }
}

/// Floating-point types, and how they are tagged.
pub open spec fn float_tag(t: TypeID) -> Option<TagKind> {
    match t {
        TypeID::M_ME_NC_1 => Some(TagKind::Plain),
        TypeID::M_ME_TC_1 => Some(TagKind::Cp24),
        TypeID::M_ME_TF_1 => Some(TagKind::Cp56),
        _ => None,
    }
}

fn tag_of_float(t: TypeID) -> (r: Option<TagKind>)
    ensures
        r == float_tag(t),
{
    match t {
        TypeID::M_ME_NC_1 => Some(TagKind::Plain),
        TypeID::M_ME_TC_1 => Some(TagKind::Cp24),
        TypeID::M_ME_TF_1 => Some(TagKind::Cp56),
        _ => None,
    }
}

/// Integrated total types, and how they are tagged.
pub open spec fn totals_tag(t: TypeID) -> Option<TagKind> {
    match t {
        TypeID::M_IT_NA_1 => Some(TagKind::Plain),
        TypeID::M_IT_TA_1 => Some(TagKind::Cp24),
        TypeID::M_IT_TB_1 => Some(TagKind::Cp56),
        _ => None,
    }
}

fn tag_of_totals(t: TypeID) -> (r: Option<TagKind>)
    ensures
        r == totals_tag(t),
{
    match t {
        TypeID::M_IT_NA_1 => Some(TagKind::Plain),
        TypeID::M_IT_TA_1 => Some(TagKind::Cp24),
        TypeID::M_IT_TB_1 => Some(TagKind::Cp56),
        _ => None,
    }
}

/// Bit string types, and how they are tagged.
pub open spec fn bits_tag(t: TypeID) -> Option<TagKind> {
    match t {
        TypeID::M_BO_NA_1 => Some(TagKind::Plain),
        TypeID::M_BO_TA_1 => Some(TagKind::Cp24),
        TypeID::M_BO_TB_1 => Some(TagKind::Cp56),
        _ => None,
    }
}

fn tag_of_bits(t: TypeID) -> (r: Option<TagKind>)
    ensures
        r == bits_tag(t),
{
    match t {
        TypeID::M_BO_NA_1 => Some(TagKind::Plain),
        TypeID::M_BO_TA_1 => Some(TagKind::Cp24),
        TypeID::M_BO_TB_1 => Some(TagKind::Cp56),
        _ => None,
    }
}

/// Normalized value types, and how they are tagged.
pub open spec fn normal_tag(t: TypeID) -> Option<TagKind> {
    match t {
        TypeID::M_ME_NA_1 => Some(TagKind::Plain),
        TypeID::M_ME_TA_1 => Some(TagKind::Cp24),
        TypeID::M_ME_TD_1 => Some(TagKind::Cp56),
        TypeID::M_ME_ND_1 => Some(TagKind::Plain),
        _ => None,
    }
}

fn tag_of_normal(t: TypeID) -> (r: Option<TagKind>)
    ensures
        r == normal_tag(t),
{
    match t {
        TypeID::M_ME_NA_1 => Some(TagKind::Plain),
        TypeID::M_ME_TA_1 => Some(TagKind::Cp24),
        TypeID::M_ME_TD_1 => Some(TagKind::Cp56),
        TypeID::M_ME_ND_1 => Some(TagKind::Plain),
        _ => None,
    }
}

/// The type of packed states, and how they are tagged.
pub open spec fn packed_tag(t: TypeID) -> Option<TagKind> {
    match t {
        TypeID::M_PS_NA_1 => Some(TagKind::Plain),
        _ => None,
    }
}

fn tag_of_packed(t: TypeID) -> (r: Option<TagKind>)
    ensures
        r == packed_tag(t),
{
    match t {
        TypeID::M_PS_NA_1 => Some(TagKind::Plain),
        _ => None,
    }
}

/// The type of protection events, and how they are tagged.
pub open spec fn event_tag(t: TypeID) -> Option<TagKind> {
    match t {
        TypeID::M_EP_TD_1 => Some(TagKind::Cp56),
        _ => None,
    }
}

fn tag_of_event(t: TypeID) -> (r: Option<TagKind>)
    ensures
        r == event_tag(t),
{
    match t {
        TypeID::M_EP_TD_1 => Some(TagKind::Cp56),
        _ => None,
    }
}

/// The type of packed start events, and how they are tagged.
pub open spec fn start_tag(t: TypeID) -> Option<TagKind> {
    match t {
        TypeID::M_EP_TE_1 => Some(TagKind::Cp56),
        _ => None,
    }
}

fn tag_of_start(t: TypeID) -> (r: Option<TagKind>)
    ensures
        r == start_tag(t),
{
    match t {
        TypeID::M_EP_TE_1 => Some(TagKind::Cp56),
        _ => None,
    }
}

/// The type of packed output circuit information, and how they are tagged.
pub open spec fn circuit_tag(t: TypeID) -> Option<TagKind> {
    match t {
        TypeID::M_EP_TF_1 => Some(TagKind::Cp56),
        _ => None,
    }
}

fn tag_of_circuit(t: TypeID) -> (r: Option<TagKind>)
    ensures
        r == circuit_tag(t),
{
    match t {
        TypeID::M_EP_TF_1 => Some(TagKind::Cp56),
        _ => None,
    }
}

impl Asdu {
    /// The single-point information of the ASDU.
    pub fn get_single_point(&self) -> (r: Result<Vec<SinglePointInfo>, Error>)
        requires
            single_tag(self.identifier.type_id) is Some ==> self@.objects_defined(),
        ensures
            read_outcome::<SinglePointInfo>(self@, single_tag(self.identifier.type_id), r),
    {
        proof {
            lemma_mismatch_is_defined(
                self@,
                SinglePointInfo::width_spec(self.identifier.type_id),
            );
        }
        read_infos::<SinglePointInfo>(self, tag_of_single(self.identifier.type_id))
    }

    /// The double-point information of the ASDU.
    pub fn get_double_point(&self) -> (r: Result<Vec<DoublePointInfo>, Error>)
        requires
            double_tag(self.identifier.type_id) is Some ==> self@.objects_defined(),
        ensures
            read_outcome::<DoublePointInfo>(self@, double_tag(self.identifier.type_id), r),
    {
        proof {
            lemma_mismatch_is_defined(
                self@,
                DoublePointInfo::width_spec(self.identifier.type_id),
            );
        }
        read_infos::<DoublePointInfo>(self, tag_of_double(self.identifier.type_id))
    }

    /// The step positions of the ASDU.
    pub fn get_step_position(&self) -> (r: Result<Vec<StepPositionInfo>, Error>)
        requires
            step_tag(self.identifier.type_id) is Some ==> self@.objects_defined(),
        ensures
            read_outcome::<StepPositionInfo>(self@, step_tag(self.identifier.type_id), r),
    {
        proof {
            lemma_mismatch_is_defined(
                self@,
                StepPositionInfo::width_spec(self.identifier.type_id),
            );
        }
        read_infos::<StepPositionInfo>(self, tag_of_step(self.identifier.type_id))
    }

    /// The normalized measured values of the ASDU.
    pub fn get_measured_value_normal(&self) -> (r: Result<Vec<MeasuredValueNormalInfo>, Error>)
        requires
            normal_tag(self.identifier.type_id) is Some ==> self@.objects_defined(),
        ensures
            read_outcome::<MeasuredValueNormalInfo>(self@, normal_tag(self.identifier.type_id), r),
    {
        proof {
            lemma_mismatch_is_defined(
                self@,
                MeasuredValueNormalInfo::width_spec(self.identifier.type_id),
            );
        }
        read_infos::<MeasuredValueNormalInfo>(self, tag_of_normal(self.identifier.type_id))
    }

    /// The scaled measured values of the ASDU.
    pub fn get_measured_value_scaled(&self) -> (r: Result<Vec<MeasuredValueScaledInfo>, Error>)
        requires
            scaled_tag(self.identifier.type_id) is Some ==> self@.objects_defined(),
        ensures
            read_outcome::<MeasuredValueScaledInfo>(self@, scaled_tag(self.identifier.type_id), r),
    {
        proof {
            lemma_mismatch_is_defined(
                self@,
                MeasuredValueScaledInfo::width_spec(self.identifier.type_id),
            );
        }
        read_infos::<MeasuredValueScaledInfo>(self, tag_of_scaled(self.identifier.type_id))
    }

    /// The floating-point measured values of the ASDU.
    pub fn get_measured_value_float(&self) -> (r: Result<Vec<MeasuredValueFloatInfo>, Error>)
        requires
            float_tag(self.identifier.type_id) is Some ==> self@.objects_defined(),
        ensures
            read_outcome::<MeasuredValueFloatInfo>(self@, float_tag(self.identifier.type_id), r),
    {
        proof {
            lemma_mismatch_is_defined(
                self@,
                MeasuredValueFloatInfo::width_spec(self.identifier.type_id),
            );
        }
        read_infos::<MeasuredValueFloatInfo>(self, tag_of_float(self.identifier.type_id))
    }

    /// The integrated totals of the ASDU.
    pub fn get_integrated_totals(&self) -> (r: Result<Vec<BinaryCounterReadingInfo>, Error>)
        requires
            totals_tag(self.identifier.type_id) is Some ==> self@.objects_defined(),
        ensures
            read_outcome::<BinaryCounterReadingInfo>(self@, totals_tag(self.identifier.type_id), r),
    {
        proof {
            lemma_mismatch_is_defined(
                self@,
                BinaryCounterReadingInfo::width_spec(self.identifier.type_id),
            );
        }
        read_infos::<BinaryCounterReadingInfo>(self, tag_of_totals(self.identifier.type_id))
    }

    /// The bit strings of the ASDU.
    pub fn get_bit_string(&self) -> (r: Result<Vec<BitStringInfo>, Error>)
        requires
            bits_tag(self.identifier.type_id) is Some ==> self@.objects_defined(),
        ensures
            read_outcome::<BitStringInfo>(self@, bits_tag(self.identifier.type_id), r),
    {
        proof {
            lemma_mismatch_is_defined(
                self@,
                BitStringInfo::width_spec(self.identifier.type_id),
            );
        }
        read_infos::<BitStringInfo>(self, tag_of_bits(self.identifier.type_id))
    }

    /// The packed states with change detection of the ASDU.
    pub fn get_packed_status_change(&self) -> (r: Result<Vec<BitStringInfo>, Error>)
        requires
            packed_tag(self.identifier.type_id) is Some ==> self@.objects_defined(),
        ensures
            read_outcome::<BitStringInfo>(self@, packed_tag(self.identifier.type_id), r),
    {
        proof {
            lemma_mismatch_is_defined(
                self@,
                BitStringInfo::width_spec(self.identifier.type_id),
            );
        }
        read_infos::<BitStringInfo>(self, tag_of_packed(self.identifier.type_id))
    }

    /// The events of protection equipment of the ASDU.
    pub fn get_protection_event_td(&self) -> (r: Result<Vec<ProtectionEventTdInfo>, Error>)
        requires
            event_tag(self.identifier.type_id) is Some ==> self@.objects_defined(),
        ensures
            read_outcome::<ProtectionEventTdInfo>(self@, event_tag(self.identifier.type_id), r),
    {
        proof {
            lemma_mismatch_is_defined(
                self@,
                ProtectionEventTdInfo::width_spec(self.identifier.type_id),
            );
        }
        read_infos::<ProtectionEventTdInfo>(self, tag_of_event(self.identifier.type_id))
    }

    /// The packed start events of protection equipment of the ASDU.
    pub fn get_protection_event_te(&self) -> (r: Result<Vec<ProtectionEventTeInfo>, Error>)
        requires
            start_tag(self.identifier.type_id) is Some ==> self@.objects_defined(),
        ensures
            read_outcome::<ProtectionEventTeInfo>(self@, start_tag(self.identifier.type_id), r),
    {
        proof {
            lemma_mismatch_is_defined(
                self@,
                ProtectionEventTeInfo::width_spec(self.identifier.type_id),
            );
        }
        read_infos::<ProtectionEventTeInfo>(self, tag_of_start(self.identifier.type_id))
    }

    /// The packed output circuit information of the ASDU.
    pub fn get_protection_event_tf(&self) -> (r: Result<Vec<ProtectionEventTfInfo>, Error>)
        requires
            circuit_tag(self.identifier.type_id) is Some ==> self@.objects_defined(),
        ensures
            read_outcome::<ProtectionEventTfInfo>(self@, circuit_tag(self.identifier.type_id), r),
    {
        proof {
            lemma_mismatch_is_defined(
                self@,
                ProtectionEventTfInfo::width_spec(self.identifier.type_id),
            );
        }
        read_infos::<ProtectionEventTfInfo>(self, tag_of_circuit(self.identifier.type_id))
    }
}

/// Causes of interrogated stations and groups.
pub open spec fn is_interrogated(c: Cause) -> bool {
    20 <= c.code_spec() <= 36
}

/// Causes of changes and requests.
pub open spec fn is_reported(c: Cause) -> bool {
    c is Spontaneous || c is Request
}

/// Causes of changes, requests and returned information.
pub open spec fn is_returned(c: Cause) -> bool {
    is_reported(c) || c is ReturnInfoRemote || c is ReturnInfoLocal
}

/// Causes of returned information and background scans.
pub open spec fn is_scanned(c: Cause) -> bool {
    is_returned(c) || c is Background
}

/// Causes of monitored information without time tag.
pub open spec fn is_monitored(c: Cause) -> bool {
    is_scanned(c) || is_interrogated(c)
}

/// Causes of measured values without time tag.
pub open spec fn is_measured(c: Cause) -> bool {
    c is Periodic || c is Background || is_reported(c) || is_interrogated(c)
}

/// Causes of counted totals.
pub open spec fn is_counted(c: Cause) -> bool {
    c is Spontaneous || 37 <= c.code_spec() <= 41
}

fn reported(c: Cause) -> (r: bool)
    ensures
        r == is_reported(c),
{
    matches!(c, Cause::Spontaneous | Cause::Request)
}

fn returned(c: Cause) -> (r: bool)
    ensures
        r == is_returned(c),
{
    reported(c) || matches!(c, Cause::ReturnInfoRemote | Cause::ReturnInfoLocal)
}

fn scanned(c: Cause) -> (r: bool)
    ensures
        r == is_scanned(c),
{
    returned(c) || matches!(c, Cause::Background)
}

fn monitored(c: Cause) -> (r: bool)
    ensures
        r == is_monitored(c),
{
    let n: u8 = c.code();
    scanned(c) || (20 <= n && n <= 36)
}

fn measured(c: Cause) -> (r: bool)
    ensures
        r == is_measured(c),
{
    let n: u8 = c.code();
    matches!(c, Cause::Periodic | Cause::Background) || reported(c) || (20 <= n && n <= 36)
}

fn counted(c: Cause) -> (r: bool)
    ensures
        r == is_counted(c),
{
    let n: u8 = c.code();
    matches!(c, Cause::Spontaneous) || (37 <= n && n <= 41)
}

fn spontaneous(c: Cause) -> (r: bool)
    ensures
        r == (c is Spontaneous),
{
    matches!(c, Cause::Spontaneous)
}

/// The outcome of sending a list: refused for its cause, or sent.
pub open spec fn send_outcome<T: InfoObject>(
    accepted: bool,
    r: Result<Asdu, Error>,
    infos: Seq<T>,
    t: TypeID,
    kind: TagKind,
    sequence: bool,
    cot: CauseOfTransmission,
    ca: CommonAddr,
) -> bool {
    if accepted {
        r matches Ok(a) && sends(a@, infos, t, kind, sequence, cot, ca)
    } else {
        r == Err::<Asdu, Error>(Error::ErrCmdCause(cot))
    }
}

fn send_if<T: InfoObject>(
    accepted: bool,
    type_id: TypeID,
    kind: TagKind,
    is_sequence: bool,
    cot: CauseOfTransmission,
    ca: CommonAddr,
    infos: Vec<T>,
) -> (r: Result<Asdu, Error>)
    requires
        accepted ==> sendable(infos@),
    ensures
        send_outcome(accepted, r, infos@, type_id, kind, is_sequence, cot, ca),
{
    if accepted {
        Ok(send_infos(type_id, kind, is_sequence, cot, ca, infos))
    } else {
        Err(Error::ErrCmdCause(cot))
    }
}

/// Send single-point information (`M_SP_NA_1`).
pub fn single(
    is_sequence: bool,
    cot: CauseOfTransmission,
    ca: CommonAddr,
    infos: Vec<SinglePointInfo>,
) -> (r: Result<Asdu, Error>)
    requires
        is_monitored(cot.cause) ==> sendable(infos@),
    ensures
        send_outcome(
            is_monitored(cot.cause),
            r,
            infos@,
            TypeID::M_SP_NA_1,
            TagKind::Plain,
            is_sequence,
            cot,
            ca,
        ),
{
    send_if(monitored(cot.cause), TypeID::M_SP_NA_1, TagKind::Plain, is_sequence, cot, ca, infos)
}

/// Send single-point information with a time tag of three bytes (`M_SP_TA_1`).
pub fn single_cp24time2a(
    cot: CauseOfTransmission,
    ca: CommonAddr,
    infos: Vec<SinglePointInfo>,
) -> (r: Result<Asdu, Error>)
    requires
        is_returned(cot.cause) ==> sendable(infos@),
    ensures
        send_outcome(
            is_returned(cot.cause),
            r,
            infos@,
            TypeID::M_SP_TA_1,
            TagKind::Cp24,
            false,
            cot,
            ca,
        ),
{
    send_if(returned(cot.cause), TypeID::M_SP_TA_1, TagKind::Cp24, false, cot, ca, infos)
}

/// Send single-point information with a time tag of seven bytes (`M_SP_TB_1`).
pub fn single_cp56time2a(
    cot: CauseOfTransmission,
    ca: CommonAddr,
    infos: Vec<SinglePointInfo>,
) -> (r: Result<Asdu, Error>)
    requires
        is_returned(cot.cause) ==> sendable(infos@),
    ensures
        send_outcome(
            is_returned(cot.cause),
            r,
            infos@,
            TypeID::M_SP_TB_1,
            TagKind::Cp56,
            false,
            cot,
            ca,
        ),
{
    send_if(returned(cot.cause), TypeID::M_SP_TB_1, TagKind::Cp56, false, cot, ca, infos)
}

/// Send double-point information (`M_DP_NA_1`).
pub fn double(
    is_sequence: bool,
    cot: CauseOfTransmission,
    ca: CommonAddr,
    infos: Vec<DoublePointInfo>,
) -> (r: Result<Asdu, Error>)
    requires
        is_monitored(cot.cause) ==> sendable(infos@),
    ensures
        send_outcome(
            is_monitored(cot.cause),
            r,
            infos@,
            TypeID::M_DP_NA_1,
            TagKind::Plain,
            is_sequence,
            cot,
            ca,
        ),
{
    send_if(monitored(cot.cause), TypeID::M_DP_NA_1, TagKind::Plain, is_sequence, cot, ca, infos)
}

/// Send double-point information with a time tag of three bytes (`M_DP_TA_1`).
/// The type has no sequence form: every object carries its own address,
/// whatever is asked for.
pub fn double_cp24time2a(
    _is_sequence: bool,
    cot: CauseOfTransmission,
    ca: CommonAddr,
    infos: Vec<DoublePointInfo>,
) -> (r: Result<Asdu, Error>)
    requires
        is_returned(cot.cause) ==> sendable(infos@),
    ensures
        send_outcome(
            is_returned(cot.cause),
            r,
            infos@,
            TypeID::M_DP_TA_1,
            TagKind::Cp24,
            false,
            cot,
            ca,
        ),
{
    send_if(returned(cot.cause), TypeID::M_DP_TA_1, TagKind::Cp24, false, cot, ca, infos)
}

/// Send double-point information with a time tag of seven bytes (`M_DP_TB_1`).
/// The type has no sequence form: every object carries its own address,
/// whatever is asked for.
pub fn double_cp56time2a(
    _is_sequence: bool,
    cot: CauseOfTransmission,
    ca: CommonAddr,
    infos: Vec<DoublePointInfo>,
) -> (r: Result<Asdu, Error>)
    requires
        is_returned(cot.cause) ==> sendable(infos@),
    ensures
        send_outcome(
            is_returned(cot.cause),
            r,
            infos@,
            TypeID::M_DP_TB_1,
            TagKind::Cp56,
            false,
            cot,
            ca,
        ),
{
    send_if(returned(cot.cause), TypeID::M_DP_TB_1, TagKind::Cp56, false, cot, ca, infos)
}

/// Send step positions (`M_ST_NA_1`).
pub fn step(
    is_sequence: bool,
    cot: CauseOfTransmission,
    ca: CommonAddr,
    infos: Vec<StepPositionInfo>,
) -> (r: Result<Asdu, Error>)
    requires
        is_monitored(cot.cause) ==> sendable(infos@),
    ensures
        send_outcome(
            is_monitored(cot.cause),
            r,
            infos@,
            TypeID::M_ST_NA_1,
            TagKind::Plain,
            is_sequence,
            cot,
            ca,
        ),
{
    send_if(monitored(cot.cause), TypeID::M_ST_NA_1, TagKind::Plain, is_sequence, cot, ca, infos)
}

/// Send step positions with a time tag of three bytes (`M_ST_TA_1`).
pub fn step_cp24time2a(
    cot: CauseOfTransmission,
    ca: CommonAddr,
    infos: Vec<StepPositionInfo>,
) -> (r: Result<Asdu, Error>)
    requires
        is_scanned(cot.cause) ==> sendable(infos@),
    ensures
        send_outcome(
            is_scanned(cot.cause),
            r,
            infos@,
            TypeID::M_ST_TA_1,
            TagKind::Cp24,
            false,
            cot,
            ca,
        ),
{
    send_if(scanned(cot.cause), TypeID::M_ST_TA_1, TagKind::Cp24, false, cot, ca, infos)
}

/// Send step positions with a time tag of seven bytes (`M_ST_TB_1`).
pub fn step_cp56time2a(
    cot: CauseOfTransmission,
    ca: CommonAddr,
    infos: Vec<StepPositionInfo>,
) -> (r: Result<Asdu, Error>)
    requires
        is_scanned(cot.cause) ==> sendable(infos@),
    ensures
        send_outcome(
            is_scanned(cot.cause),
            r,
            infos@,
            TypeID::M_ST_TB_1,
            TagKind::Cp56,
            false,
            cot,
            ca,
        ),
{
    send_if(scanned(cot.cause), TypeID::M_ST_TB_1, TagKind::Cp56, false, cot, ca, infos)
}

/// Send normalized measured values (`M_ME_NA_1`).
pub fn measured_value_normal(
    is_sequence: bool,
    cot: CauseOfTransmission,
    ca: CommonAddr,
    infos: Vec<MeasuredValueNormalInfo>,
) -> (r: Result<Asdu, Error>)
    requires
        is_measured(cot.cause) ==> sendable(infos@),
    ensures
        send_outcome(
            is_measured(cot.cause),
            r,
            infos@,
            TypeID::M_ME_NA_1,
            TagKind::Plain,
            is_sequence,
            cot,
            ca,
        ),
{
    send_if(measured(cot.cause), TypeID::M_ME_NA_1, TagKind::Plain, is_sequence, cot, ca, infos)
}

/// Send normalized measured values with a time tag of three bytes (`M_ME_TA_1`).
pub fn measured_value_normal_cp24time2a(
    cot: CauseOfTransmission,
    ca: CommonAddr,
    infos: Vec<MeasuredValueNormalInfo>,
) -> (r: Result<Asdu, Error>)
    requires
        is_reported(cot.cause) ==> sendable(infos@),
    ensures
        send_outcome(
            is_reported(cot.cause),
            r,
            infos@,
            TypeID::M_ME_TA_1,
            TagKind::Cp24,
            false,
            cot,
            ca,
        ),
{
    send_if(reported(cot.cause), TypeID::M_ME_TA_1, TagKind::Cp24, false, cot, ca, infos)
}

/// Send normalized measured values with a time tag of seven bytes (`M_ME_TD_1`).
pub fn measured_value_normal_cp56time2a(
    cot: CauseOfTransmission,
    ca: CommonAddr,
    infos: Vec<MeasuredValueNormalInfo>,
) -> (r: Result<Asdu, Error>)
    requires
        is_reported(cot.cause) ==> sendable(infos@),
    ensures
        send_outcome(
            is_reported(cot.cause),
            r,
            infos@,
            TypeID::M_ME_TD_1,
            TagKind::Cp56,
            false,
            cot,
            ca,
        ),
{
    send_if(reported(cot.cause), TypeID::M_ME_TD_1, TagKind::Cp56, false, cot, ca, infos)
}

/// Send normalized measured values without quality (`M_ME_ND_1`).
pub fn measured_value_normal_noquality(
    cot: CauseOfTransmission,
    ca: CommonAddr,
    infos: Vec<MeasuredValueNormalInfo>,
) -> (r: Result<Asdu, Error>)
    requires
        is_measured(cot.cause) ==> sendable(infos@),
    ensures
        send_outcome(
            is_measured(cot.cause),
            r,
            infos@,
            TypeID::M_ME_ND_1,
            TagKind::Plain,
            false,
            cot,
            ca,
        ),
{
    send_if(measured(cot.cause), TypeID::M_ME_ND_1, TagKind::Plain, false, cot, ca, infos)
}

/// Send scaled measured values (`M_ME_NB_1`).
pub fn measured_value_scaled(
    cot: CauseOfTransmission,
    ca: CommonAddr,
    infos: Vec<MeasuredValueScaledInfo>,
) -> (r: Result<Asdu, Error>)
    requires
        is_measured(cot.cause) ==> sendable(infos@),
    ensures
        send_outcome(
            is_measured(cot.cause),
            r,
            infos@,
            TypeID::M_ME_NB_1,
            TagKind::Plain,
            false,
            cot,
            ca,
        ),
{
    send_if(measured(cot.cause), TypeID::M_ME_NB_1, TagKind::Plain, false, cot, ca, infos)
}

/// Send scaled measured values with a time tag of three bytes (`M_ME_TB_1`).
pub fn measured_value_scaled_cp24time2a(
    cot: CauseOfTransmission,
    ca: CommonAddr,
    infos: Vec<MeasuredValueScaledInfo>,
) -> (r: Result<Asdu, Error>)
    requires
        is_reported(cot.cause) ==> sendable(infos@),
    ensures
        send_outcome(
            is_reported(cot.cause),
            r,
            infos@,
            TypeID::M_ME_TB_1,
            TagKind::Cp24,
            false,
            cot,
            ca,
        ),
{
    send_if(reported(cot.cause), TypeID::M_ME_TB_1, TagKind::Cp24, false, cot, ca, infos)
}

/// Send scaled measured values with a time tag of seven bytes (`M_ME_TE_1`).
pub fn measured_value_scaled_cp56time2a(
    cot: CauseOfTransmission,
    ca: CommonAddr,
    infos: Vec<MeasuredValueScaledInfo>,
) -> (r: Result<Asdu, Error>)
    requires
        is_reported(cot.cause) ==> sendable(infos@),
    ensures
        send_outcome(
            is_reported(cot.cause),
            r,
            infos@,
            TypeID::M_ME_TE_1,
            TagKind::Cp56,
            false,
            cot,
            ca,
        ),
{
    send_if(reported(cot.cause), TypeID::M_ME_TE_1, TagKind::Cp56, false, cot, ca, infos)
}

/// Send floating-point measured values (`M_ME_NC_1`).
pub fn measured_value_float(
    is_sequence: bool,
    cot: CauseOfTransmission,
    ca: CommonAddr,
    infos: Vec<MeasuredValueFloatInfo>,
) -> (r: Result<Asdu, Error>)
    requires
        is_measured(cot.cause) ==> sendable(infos@),
    ensures
        send_outcome(
            is_measured(cot.cause),
            r,
            infos@,
            TypeID::M_ME_NC_1,
            TagKind::Plain,
            is_sequence,
            cot,
            ca,
        ),
{
    send_if(measured(cot.cause), TypeID::M_ME_NC_1, TagKind::Plain, is_sequence, cot, ca, infos)
}

/// Send floating-point measured values with a time tag of three bytes (`M_ME_TC_1`).
pub fn measured_value_float_cp24time2a(
    cot: CauseOfTransmission,
    ca: CommonAddr,
    infos: Vec<MeasuredValueFloatInfo>,
) -> (r: Result<Asdu, Error>)
    requires
        is_reported(cot.cause) ==> sendable(infos@),
    ensures
        send_outcome(
            is_reported(cot.cause),
            r,
            infos@,
            TypeID::M_ME_TC_1,
            TagKind::Cp24,
            false,
            cot,
            ca,
        ),
{
    send_if(reported(cot.cause), TypeID::M_ME_TC_1, TagKind::Cp24, false, cot, ca, infos)
}

/// Send floating-point measured values with a time tag of seven bytes (`M_ME_TF_1`).
pub fn measured_value_float_cp56time2a(
    cot: CauseOfTransmission,
    ca: CommonAddr,
    infos: Vec<MeasuredValueFloatInfo>,
) -> (r: Result<Asdu, Error>)
    requires
        is_reported(cot.cause) ==> sendable(infos@),
    ensures
        send_outcome(
            is_reported(cot.cause),
            r,
            infos@,
            TypeID::M_ME_TF_1,
            TagKind::Cp56,
            false,
            cot,
            ca,
        ),
{
    send_if(reported(cot.cause), TypeID::M_ME_TF_1, TagKind::Cp56, false, cot, ca, infos)
}

/// Send integrated totals (`M_IT_NA_1`).
pub fn integrated_totals(
    cot: CauseOfTransmission,
    ca: CommonAddr,
    infos: Vec<BinaryCounterReadingInfo>,
) -> (r: Result<Asdu, Error>)
    requires
        is_counted(cot.cause) ==> sendable(infos@),
    ensures
        send_outcome(
            is_counted(cot.cause),
            r,
            infos@,
            TypeID::M_IT_NA_1,
            TagKind::Plain,
            false,
            cot,
            ca,
        ),
{
    send_if(counted(cot.cause), TypeID::M_IT_NA_1, TagKind::Plain, false, cot, ca, infos)
}

/// Send integrated totals with a time tag of three bytes (`M_IT_TA_1`).
pub fn integrated_totals_cp24time2a(
    cot: CauseOfTransmission,
    ca: CommonAddr,
    infos: Vec<BinaryCounterReadingInfo>,
) -> (r: Result<Asdu, Error>)
    requires
        is_counted(cot.cause) ==> sendable(infos@),
    ensures
        send_outcome(
            is_counted(cot.cause),
            r,
            infos@,
            TypeID::M_IT_TA_1,
            TagKind::Cp24,
            false,
            cot,
            ca,
        ),
{
    send_if(counted(cot.cause), TypeID::M_IT_TA_1, TagKind::Cp24, false, cot, ca, infos)
}

/// Send integrated totals with a time tag of seven bytes (`M_IT_TB_1`).
pub fn integrated_totals_cp56time2a(
    cot: CauseOfTransmission,
    ca: CommonAddr,
    infos: Vec<BinaryCounterReadingInfo>,
) -> (r: Result<Asdu, Error>)
    requires
        is_counted(cot.cause) ==> sendable(infos@),
    ensures
        send_outcome(
            is_counted(cot.cause),
            r,
            infos@,
            TypeID::M_IT_TB_1,
            TagKind::Cp56,
            false,
            cot,
            ca,
        ),
{
    send_if(counted(cot.cause), TypeID::M_IT_TB_1, TagKind::Cp56, false, cot, ca, infos)
}

/// Send bit strings (`M_BO_NA_1`).
pub fn bitstring(
    is_sequence: bool,
    cot: CauseOfTransmission,
    ca: CommonAddr,
    infos: Vec<BitStringInfo>,
) -> (r: Result<Asdu, Error>)
    requires
        is_monitored(cot.cause) ==> sendable(infos@),
    ensures
        send_outcome(
            is_monitored(cot.cause),
            r,
            infos@,
            TypeID::M_BO_NA_1,
            TagKind::Plain,
            is_sequence,
            cot,
            ca,
        ),
{
    send_if(monitored(cot.cause), TypeID::M_BO_NA_1, TagKind::Plain, is_sequence, cot, ca, infos)
}

/// Send bit strings with a time tag of three bytes (`M_BO_TA_1`).
pub fn bitstring_cp24time2a(
    cot: CauseOfTransmission,
    ca: CommonAddr,
    infos: Vec<BitStringInfo>,
) -> (r: Result<Asdu, Error>)
    requires
        is_reported(cot.cause) ==> sendable(infos@),
    ensures
        send_outcome(
            is_reported(cot.cause),
            r,
            infos@,
            TypeID::M_BO_TA_1,
            TagKind::Cp24,
            false,
            cot,
            ca,
        ),
{
    send_if(reported(cot.cause), TypeID::M_BO_TA_1, TagKind::Cp24, false, cot, ca, infos)
}

/// Send bit strings with a time tag of seven bytes (`M_BO_TB_1`).
pub fn bitstring_cp56time2a(
    cot: CauseOfTransmission,
    ca: CommonAddr,
    infos: Vec<BitStringInfo>,
) -> (r: Result<Asdu, Error>)
    requires
        is_reported(cot.cause) ==> sendable(infos@),
    ensures
        send_outcome(
            is_reported(cot.cause),
            r,
            infos@,
            TypeID::M_BO_TB_1,
            TagKind::Cp56,
            false,
            cot,
            ca,
        ),
{
    send_if(reported(cot.cause), TypeID::M_BO_TB_1, TagKind::Cp56, false, cot, ca, infos)
}

/// Send packed states with change detection (`M_PS_NA_1`).
pub fn packed_status_change(
    cot: CauseOfTransmission,
    ca: CommonAddr,
    infos: Vec<BitStringInfo>,
) -> (r: Result<Asdu, Error>)
    requires
        is_monitored(cot.cause) ==> sendable(infos@),
    ensures
        send_outcome(
            is_monitored(cot.cause),
            r,
            infos@,
            TypeID::M_PS_NA_1,
            TagKind::Plain,
            false,
            cot,
            ca,
        ),
{
    send_if(monitored(cot.cause), TypeID::M_PS_NA_1, TagKind::Plain, false, cot, ca, infos)
}

/// Send events of protection equipment with a time tag of seven bytes (`M_EP_TD_1`).
pub fn protection_event_td(
    cot: CauseOfTransmission,
    ca: CommonAddr,
    infos: Vec<ProtectionEventTdInfo>,
) -> (r: Result<Asdu, Error>)
    requires
        is_reported(cot.cause) ==> sendable(infos@),
    ensures
        send_outcome(
            is_reported(cot.cause),
            r,
            infos@,
            TypeID::M_EP_TD_1,
            TagKind::Cp56,
            false,
            cot,
            ca,
        ),
{
    send_if(reported(cot.cause), TypeID::M_EP_TD_1, TagKind::Cp56, false, cot, ca, infos)
}

/// Send events of protection equipment with a time tag of three bytes (`M_EP_TA_1`).
pub fn protection_event_ta(
    cot: CauseOfTransmission,
    ca: CommonAddr,
    infos: Vec<ProtectionEventTdInfo>,
) -> (r: Result<Asdu, Error>)
    requires
        is_reported(cot.cause) ==> sendable(infos@),
    ensures
        send_outcome(
            is_reported(cot.cause),
            r,
            infos@,
            TypeID::M_EP_TA_1,
            TagKind::Cp24,
            false,
            cot,
            ca,
        ),
{
    send_if(reported(cot.cause), TypeID::M_EP_TA_1, TagKind::Cp24, false, cot, ca, infos)
}

/// Send packed start events of protection equipment with a time tag of seven bytes (`M_EP_TE_1`).
pub fn protection_event_te(
    cot: CauseOfTransmission,
    ca: CommonAddr,
    infos: Vec<ProtectionEventTeInfo>,
) -> (r: Result<Asdu, Error>)
    requires
        cot.cause is Spontaneous ==> sendable(infos@),
    ensures
        send_outcome(
            cot.cause is Spontaneous,
            r,
            infos@,
            TypeID::M_EP_TE_1,
            TagKind::Cp56,
            false,
            cot,
            ca,
        ),
{
    send_if(spontaneous(cot.cause), TypeID::M_EP_TE_1, TagKind::Cp56, false, cot, ca, infos)
}

/// Send packed start events of protection equipment with a time tag of three bytes (`M_EP_TB_1`).
pub fn protection_event_tb(
    cot: CauseOfTransmission,
    ca: CommonAddr,
    infos: Vec<ProtectionEventTeInfo>,
) -> (r: Result<Asdu, Error>)
    requires
        cot.cause is Spontaneous ==> sendable(infos@),
    ensures
        send_outcome(
            cot.cause is Spontaneous,
            r,
            infos@,
            TypeID::M_EP_TB_1,
            TagKind::Cp24,
            false,
            cot,
            ca,
        ),
{
    send_if(spontaneous(cot.cause), TypeID::M_EP_TB_1, TagKind::Cp24, false, cot, ca, infos)
}

/// Send packed output circuit information with a time tag of seven bytes (`M_EP_TF_1`).
pub fn protection_event_tf(
    cot: CauseOfTransmission,
    ca: CommonAddr,
    infos: Vec<ProtectionEventTfInfo>,
) -> (r: Result<Asdu, Error>)
    requires
        cot.cause is Spontaneous ==> sendable(infos@),
    ensures
        send_outcome(
            cot.cause is Spontaneous,
            r,
            infos@,
            TypeID::M_EP_TF_1,
            TagKind::Cp56,
            false,
            cot,
            ca,
        ),
{
    send_if(spontaneous(cot.cause), TypeID::M_EP_TF_1, TagKind::Cp56, false, cot, ca, infos)
}

/// Send packed output circuit information with a time tag of three bytes (`M_EP_TC_1`).
pub fn protection_event_tc(
    cot: CauseOfTransmission,
    ca: CommonAddr,
    infos: Vec<ProtectionEventTfInfo>,
) -> (r: Result<Asdu, Error>)
    requires
        cot.cause is Spontaneous ==> sendable(infos@),
    ensures
        send_outcome(
            cot.cause is Spontaneous,
            r,
            infos@,
            TypeID::M_EP_TC_1,
            TagKind::Cp24,
            false,
            cot,
            ca,
        ),
{
    send_if(spontaneous(cot.cause), TypeID::M_EP_TC_1, TagKind::Cp24, false, cot, ca, infos)
}

/// The times of the list, for tags of this kind: every object has one that a
/// tag holds.
pub open spec fn tagged_at<T: InfoObject>(
    infos: Seq<T>,
    kind: TagKind,
    times: Seq<CivilTime>,
) -> bool {
    &&& times.len() == infos.len()
    &&& !(kind is Plain) ==> forall|i: int|
        0 <= i < infos.len() ==> (#[trigger] infos[i]).time_spec() == Some(times[i]) && taggable(
            times[i],
        )
}

/// In a sequence the addresses count on.
pub open spec fn counts_on<T: InfoObject>(infos: Seq<T>) -> bool {
    forall|i: int|
        0 < i < infos.len() ==> (#[trigger] infos[i]).addr_spec().res == infos[i - 1].addr_spec().res
            && infos[i].addr_spec().addr == infos[i - 1].addr_spec().addr + 1
}

/// The objects of a sent ASDU are those of the list: addresses and values are
/// as sent, and the tags hold the times.
pub proof fn lemma_sent_objects<T: InfoObject>(
    a: AsduData,
    infos: Seq<T>,
    t: TypeID,
    kind: TagKind,
    sequence: bool,
    cot: CauseOfTransmission,
    ca: CommonAddr,
    times: Seq<CivilTime>,
) -> (r: (Seq<ObjectBytes>, Seq<ObjectData>))
    requires
        sends(a, infos, t, kind, sequence, cot, ca),
        infos.len() < 128,
        sequence ==> counts_on(infos),
        forall|i: int| 0 <= i < infos.len() ==> (#[trigger] infos[i]).carried(t),
        tagged_at(infos, kind, times),
    ensures
        encodes(infos, t, kind, r.0),
        a.identifier.type_id == t,
        r.1 == all_read_as(r.0, kind, times),
        a.objects_as(T::width_spec(t), Some(kind)) == Scan::Objects(r.1),
        r.1.len() == infos.len(),
        forall|i: int|
            0 <= i < infos.len() ==> (#[trigger] r.1[i]).ioa == infos[i].addr_spec()
                && r.1[i].value == infos[i].value_spec(t),
{
    let objs = choose|objs: Seq<ObjectBytes>|
        #![trigger encodes(infos, t, kind, objs)]
        encodes(infos, t, kind, objs) && carries(a, t, sequence, cot, ca, objs);
    let w = T::width_spec(t);
    assert(regular(objs, sequence, w, kind, times)) by {
        assert forall|i: int| 0 <= i < objs.len() implies object_regular(
            #[trigger] objs[i],
            w,
            kind,
            times[i],
        ) by {
            infos[i].read_back(t);
            assert(is_stamp(kind, infos[i].time_spec(), objs[i].tag));
        }
        if sequence {
            assert forall|i: int| 0 < i < objs.len() implies (#[trigger] objs[i]).ioa.res
                == objs[i - 1].ioa.res && objs[i].ioa.addr == objs[i - 1].ioa.addr + 1 by {
                assert(infos[i].addr_spec() == objs[i].ioa);
                assert(infos[i - 1].addr_spec() == objs[i - 1].ioa);
            }
        }
    }
    written_objects_are_read_back(a, objs, w, kind, times);
    let ds = all_read_as(objs, kind, times);
    assert forall|i: int| 0 <= i < infos.len() implies (#[trigger] ds[i]).ioa
        == infos[i].addr_spec() && ds[i].value == infos[i].value_spec(t) by {
        assert(ds[i] == read_as(objs[i], kind, times[i]));
        assert(infos[i].addr_spec() == objs[i].ioa);
    }
    (objs, ds)
}

/// What is sent is what is read: the objects of a sent ASDU are those of the
/// list, with their times as far as the tags hold them. The list fits the
/// ASDU, in a sequence its addresses count on, and with time tags every
/// object has a time.
pub proof fn sent_infos_are_read_back<T: InfoObject>(
    a: AsduData,
    infos: Seq<T>,
    t: TypeID,
    kind: TagKind,
    sequence: bool,
    cot: CauseOfTransmission,
    ca: CommonAddr,
    times: Seq<CivilTime>,
    r: Result<Vec<T>, Error>,
)
    requires
        sends(a, infos, t, kind, sequence, cot, ca),
        infos.len() < 128,
        sequence ==> counts_on(infos),
        forall|i: int| 0 <= i < infos.len() ==> (#[trigger] infos[i]).carried(t),
        tagged_at(infos, kind, times),
        read_outcome::<T>(a, Some(kind), r),
    ensures
        r matches Ok(v) && v@.len() == infos.len() && forall|i: int|
            0 <= i < infos.len() ==> (#[trigger] v@[i]) == infos[i].with_time(v@[i].time_spec())
                && match kind {
                TagKind::Plain => v@[i].time_spec() is None,
                TagKind::Cp24 => v@[i].time_spec() matches Some(x) && x.minute == times[i].minute
                    && x.second == times[i].second,
                TagKind::Cp56 => v@[i].time_spec() == Some(
                    CivilTime { milli: 0, ..times[i] },
                ),
            },
{
    let (objs, ds) = lemma_sent_objects(a, infos, t, kind, sequence, cot, ca, times);
    let v = r->Ok_0@;
    assert(reads(v, t, ds));
    assert forall|i: int| 0 <= i < infos.len() implies (#[trigger] v[i]) == infos[i].with_time(
        v[i].time_spec(),
    ) && match kind {
        TagKind::Plain => v[i].time_spec() is None,
        TagKind::Cp24 => v[i].time_spec() matches Some(x) && x.minute == times[i].minute
            && x.second == times[i].second,
        TagKind::Cp56 => v[i].time_spec() == Some(CivilTime { milli: 0, ..times[i] }),
    } by {
        assert(ds[i] == read_as(objs[i], kind, times[i]));
        assert(objs[i].value == infos[i].value_spec(t));
        infos[i].read_back(t);
        let base = T::of_value(infos[i].addr_spec(), infos[i].value_spec(t), t);
        base.time_laws(infos[i].time_spec(), v[i].time_spec());
        assert(time_fits(v[i].time_spec(), ds[i].tag));
    }
}

} // verus!
