//! Information objects of an ASDU: taking them apart and putting them
//! together, whatever they hold.

use super::super::error::{end_of_data_error, is_end_of_data, Error};
use super::asdu::{Asdu, AsduData, InfoObjAddr, TypeID};
use super::time::{
    check_tag, cp24, cp24time2a, cp56, cp56time2a, decode_cp24time2a, decode_cp56time2a,
    long_tag_is_read_back, short_tag_is_read_back, tag_at, taggable, time_fits, TagKind, TagValue,
};
use crate::clock::{civil_now, CivilTime};
use crate::wire::{bytes_as_slice, le24, le_bytes, le_vec, lemma_le3, lemma_le_bytes_len, Reader};
use vstd::prelude::*;
use vstd::slice::slice_to_vec;

verus! {

/// An information object as mathematical data.
pub struct ObjectData {
    pub ioa: InfoObjAddr,
    pub value: Seq<u8>,
    pub tag: TagValue,
}

/// What the objects of an ASDU are.
pub enum Scan {
    /// These objects.
    Objects(Seq<ObjectData>),
    /// They end too early.
    Short,
    /// They are of another type.
    Mismatch,
    /// A time tag names no existing moment, or the addresses of a sequence
    /// run over.
    Undefined,
}

/// Objects ahead of others.
pub open spec fn prepend(front: Seq<ObjectData>, rest: Scan) -> Scan {
    match rest {
        Scan::Objects(v) => Scan::Objects(front + v),
        _ => rest,
    }
}

/// The address behind another one.
pub open spec fn next_addr(ioa: InfoObjAddr) -> InfoObjAddr {
    InfoObjAddr { res: ioa.res, addr: (ioa.addr + 1) as u16 }
}

/// The objects from `at` on: `left` of them, each with a value of `width`
/// bytes and a time tag. In a sequence only the first has an address, and the
/// others count on from it. `tag` is how objects of the type are tagged, if
/// the type is one that is asked for.
pub open spec fn scan(
    s: Seq<u8>,
    at: int,
    left: nat,
    sequence: bool,
    prev: Option<InfoObjAddr>,
    width: nat,
    tag: Option<TagKind>,
) -> Scan
    decreases left,
{
    if left == 0 {
        Scan::Objects(Seq::empty())
    } else {
        let counted = sequence && prev is Some;
        if !counted && s.len() < at + 3 {
            Scan::Short
        } else if counted && prev->0.addr == 65535 {
            Scan::Undefined
        } else {
            let ioa = if counted {
                next_addr(prev->0)
            } else {
                InfoObjAddr::of_raw(le24(s, at))
            };
            let v = if counted {
                at
            } else {
                at + 3
            };
            if s.len() < v + width {
                Scan::Short
            } else {
                match tag {
                    None => Scan::Mismatch,
                    Some(kind) => {
                        let t = tag_at(s, v + width, kind);
                        if t.0 is Undefined {
                            Scan::Undefined
                        } else {
                            prepend(
                                seq![
                                    ObjectData {
                                        ioa,
                                        value: s.subrange(v, v + width),
                                        tag: t.0,
                                    },
                                ],
                                scan(
                                    s,
                                    t.1,
                                    (left - 1) as nat,
                                    sequence,
                                    Some(ioa),
                                    width,
                                    tag,
                                ),
                            )
                        }
                    },
                }
            }
        }
    }
}

impl AsduData {
    /// The objects of the ASDU, taken as values of `width` bytes with such tags.
    pub open spec fn objects_as(self, width: nat, tag: Option<TagKind>) -> Scan {
        scan(
            self.raw,
            0,
            self.identifier.variable_struct.number_spec(),
            self.identifier.variable_struct.is_sequence_spec(),
            None,
            width,
            tag,
        )
    }

    /// The objects can be read as what their type says: every time tag names
    /// an existing moment, and no address runs over.
    pub open spec fn objects_defined(self) -> bool {
        match layout_of(self.identifier.type_id) {
            None => true,
            Some(l) => !(self.objects_as(l.0, Some(l.1)) is Undefined),
        }
    }
}

/// Width of the value and kind of the tag of monitored objects, by type.
pub open spec fn layout_of(t: TypeID) -> Option<(nat, TagKind)> {
    match t {
        TypeID::M_SP_NA_1 | TypeID::M_DP_NA_1 => Some((1, TagKind::Plain)),
        TypeID::M_SP_TA_1 | TypeID::M_DP_TA_1 => Some((1, TagKind::Cp24)),
        TypeID::M_SP_TB_1 | TypeID::M_DP_TB_1 => Some((1, TagKind::Cp56)),
        TypeID::M_ST_NA_1 | TypeID::M_ME_ND_1 => Some((2, TagKind::Plain)),
        TypeID::M_ST_TA_1 => Some((2, TagKind::Cp24)),
        TypeID::M_ST_TB_1 => Some((2, TagKind::Cp56)),
        TypeID::M_ME_NA_1 | TypeID::M_ME_NB_1 => Some((3, TagKind::Plain)),
        TypeID::M_ME_TA_1 | TypeID::M_ME_TB_1 => Some((3, TagKind::Cp24)),
        TypeID::M_ME_TD_1 | TypeID::M_ME_TE_1 | TypeID::M_EP_TD_1 => Some((3, TagKind::Cp56)),
        TypeID::M_EP_TE_1 | TypeID::M_EP_TF_1 => Some((4, TagKind::Cp56)),
        TypeID::M_ME_NC_1 | TypeID::M_IT_NA_1 | TypeID::M_BO_NA_1 | TypeID::M_PS_NA_1 => Some(
            (5, TagKind::Plain),
        ),
        TypeID::M_ME_TC_1 | TypeID::M_IT_TA_1 | TypeID::M_BO_TA_1 => Some((5, TagKind::Cp24)),
        TypeID::M_ME_TF_1 | TypeID::M_IT_TB_1 | TypeID::M_BO_TB_1 => Some((5, TagKind::Cp56)),
        _ => None,
    }
}

fn layout(t: TypeID) -> (r: Option<(usize, TagKind)>)
    ensures
        match layout_of(t) {
            None => r is None,
            Some(l) => r matches Some(x) && x.0 == l.0 && x.1 == l.1,
        },
{
    match t {
        TypeID::M_SP_NA_1 | TypeID::M_DP_NA_1 => Some((1, TagKind::Plain)),
        TypeID::M_SP_TA_1 | TypeID::M_DP_TA_1 => Some((1, TagKind::Cp24)),
        TypeID::M_SP_TB_1 | TypeID::M_DP_TB_1 => Some((1, TagKind::Cp56)),
        TypeID::M_ST_NA_1 | TypeID::M_ME_ND_1 => Some((2, TagKind::Plain)),
        TypeID::M_ST_TA_1 => Some((2, TagKind::Cp24)),
        TypeID::M_ST_TB_1 => Some((2, TagKind::Cp56)),
        TypeID::M_ME_NA_1 | TypeID::M_ME_NB_1 => Some((3, TagKind::Plain)),
        TypeID::M_ME_TA_1 | TypeID::M_ME_TB_1 => Some((3, TagKind::Cp24)),
        TypeID::M_ME_TD_1 | TypeID::M_ME_TE_1 | TypeID::M_EP_TD_1 => Some((3, TagKind::Cp56)),
        TypeID::M_EP_TE_1 | TypeID::M_EP_TF_1 => Some((4, TagKind::Cp56)),
        TypeID::M_ME_NC_1 | TypeID::M_IT_NA_1 | TypeID::M_BO_NA_1 | TypeID::M_PS_NA_1 => Some(
            (5, TagKind::Plain),
        ),
        TypeID::M_ME_TC_1 | TypeID::M_IT_TA_1 | TypeID::M_BO_TA_1 => Some((5, TagKind::Cp24)),
        TypeID::M_ME_TF_1 | TypeID::M_IT_TB_1 | TypeID::M_BO_TB_1 => Some((5, TagKind::Cp56)),
        _ => None,
    }
}

/// Objects of another type are never undefined: the first one already shows
/// that the type is not asked for.
pub proof fn lemma_mismatch_is_defined(a: AsduData, width: nat)
    ensures
        !(a.objects_as(width, None) is Undefined),
{
}

/// An information object that was taken off: where its value starts, and its
/// time.
pub struct RawObject {
    pub ioa: InfoObjAddr,
    pub at: usize,
    pub time: Option<CivilTime>,
}

/// The object is the one that the bytes hold.
pub open spec fn object_fits(o: RawObject, s: Seq<u8>, width: nat, d: ObjectData) -> bool {
    &&& o.ioa == d.ioa
    &&& o.at + width <= s.len()
    &&& d.value == s.subrange(o.at as int, o.at + width)
    &&& time_fits(o.time, d.tag)
}

/// The objects are those that the bytes hold.
pub open spec fn objects_fit(
    v: Seq<RawObject>,
    s: Seq<u8>,
    width: nat,
    ds: Seq<ObjectData>,
) -> bool {
    &&& v.len() == ds.len()
    &&& forall|i: int| 0 <= i < ds.len() ==> object_fits(v[i], s, width, #[trigger] ds[i])
}

/// Take the objects of an ASDU off.
pub(crate) fn take_objects(asdu: &Asdu, width: usize, tag: Option<TagKind>) -> (r: Result<
    Vec<RawObject>,
    Error,
>)
    requires
        width <= 8,
        !(asdu@.objects_as(width as nat, tag) is Undefined),
    ensures
        match asdu@.objects_as(width as nat, tag) {
            Scan::Objects(ds) => r matches Ok(v) && objects_fit(
                v@,
                asdu@.raw,
                width as nat,
                ds,
            ),
            Scan::Short => r matches Err(e) && is_end_of_data(e),
            Scan::Mismatch => r == Err::<Vec<RawObject>, Error>(
                Error::ErrTypeIDNotMatch(asdu.identifier.type_id),
            ),
            Scan::Undefined => false,
        },
{
    let n: u8 = asdu.identifier.variable_struct.number();
    let sequence: bool = asdu.identifier.variable_struct.is_sequence();
    let data = bytes_as_slice(&asdu.raw);
    let have: usize = data.len();
    let mut rdr = Reader { data, pos: 0 };
    let mut out: Vec<RawObject> = Vec::new();
    let mut prev: Option<InfoObjAddr> = None;
    let ghost s = asdu@.raw;
    let ghost w = width as nat;
    let ghost whole = asdu@.objects_as(w, tag);
    let ghost mut done: Seq<ObjectData> = Seq::empty();
    proof {
        let first = scan(s, 0, n as nat, sequence, None, w, tag);
        assert(prepend(Seq::empty(), first) == first) by {
            match first {
                Scan::Objects(v) => {
                    assert(Seq::<ObjectData>::empty() + v =~= v);
                },
                _ => {},
            }
        }
    }
    for i in 0..n
        invariant
            s == data@,
            have == data@.len(),
            s == asdu@.raw,
            w == width,
            width <= 8,
            whole == asdu@.objects_as(w, tag),
            !(whole is Undefined),
            rdr.data == data,
            rdr.wf(),
            whole == prepend(
                done,
                scan(s, rdr.pos as int, (n - i) as nat, sequence, prev, w, tag),
            ),
            objects_fit(out@, s, w, done),
    {
        let counted: bool = sequence && prev.is_some();
        let ioa: InfoObjAddr = match prev {
            Some(p) if sequence => {
                InfoObjAddr { res: p.res, addr: p.addr + 1 }
            },
            _ => {
                if rdr.remaining() < 3 {
                    return Err(end_of_data_error());
                }
                InfoObjAddr::from_raw(rdr.take_u24())
            },
        };
        let at: usize = rdr.pos;
        if rdr.remaining() < width {
            return Err(end_of_data_error());
        }
        match tag {
            None => {
                return Err(Error::ErrTypeIDNotMatch(asdu.identifier.type_id));
            },
            Some(kind) => {
                rdr.pos = at + width;
                let ghost t = tag_at(s, at + w, kind);
                let time = match kind {
                    TagKind::Plain => None,
                    TagKind::Cp24 => decode_cp24time2a(&mut rdr),
                    TagKind::Cp56 => decode_cp56time2a(&mut rdr),
                };
                proof {
                    let d = ObjectData {
                        ioa,
                        value: s.subrange(at as int, at + w),
                        tag: t.0,
                    };
                    let rest = scan(
                        s,
                        t.1,
                        (n - i - 1) as nat,
                        sequence,
                        Some(ioa),
                        w,
                        tag,
                    );
                    assert(prepend(done, prepend(seq![d], rest)) == prepend(done.push(d), rest))
                        by {
                        match rest {
                            Scan::Objects(v) => {
                                assert(done + (seq![d] + v) =~= done.push(d) + v);
                            },
                            _ => {},
                        }
                    }
                    done = done.push(d);
                }
                out.push(RawObject { ioa, at, time });
                prev = Some(ioa);
            },
        }
    }
    assert(done + Seq::<ObjectData>::empty() =~= done);
    Ok(out)
}

impl Asdu {
    /// Whether the objects can be read as what their type says.
    pub fn has_defined_objects(&self) -> (r: bool)
        ensures
            r == self@.objects_defined(),
    {
        let (width, kind): (usize, TagKind) = match layout(self.identifier.type_id) {
            None => {
                return true;
            },
            Some(l) => l,
        };
        let n: u8 = self.identifier.variable_struct.number();
        let sequence: bool = self.identifier.variable_struct.is_sequence();
        let data = bytes_as_slice(&self.raw);
        let have: usize = data.len();
        let mut pos: usize = 0;
        let mut prev: Option<InfoObjAddr> = None;
        let ghost s = self@.raw;
        let ghost w = width as nat;
        for i in 0..n
            invariant
                s == data@,
                have == data@.len(),
                s == self@.raw,
                w == width,
                width <= 5,
                pos <= have,
                self@.objects_as(w, Some(kind)) is Undefined <==> scan(
                    s,
                    pos as int,
                    (n - i) as nat,
                    sequence,
                    prev,
                    w,
                    Some(kind),
                ) is Undefined,
                layout_of(self.identifier.type_id) == Some((w, kind)),
        {
            let ioa: InfoObjAddr = match prev {
                Some(p) if sequence => {
                    if p.addr == 65535 {
                        return false;
                    }
                    InfoObjAddr { res: p.res, addr: p.addr + 1 }
                },
                _ => {
                    if have - pos < 3 {
                        return true;
                    }
                    let mut rdr = Reader { data, pos };
                    let a = InfoObjAddr::from_raw(rdr.take_u24());
                    pos = pos + 3;
                    a
                },
            };
            if have - pos < width {
                return true;
            }
            match check_tag(data, pos + width, kind) {
                None => {
                    return false;
                },
                Some(next) => {
                    pos = next;
                    prev = Some(ioa);
                },
            }
        }
        true
    }
}

/// An information object ready to be sent: address, value and time tag.
pub struct EncodedObject {
    pub ioa: InfoObjAddr,
    pub value: Vec<u8>,
    pub tag: Vec<u8>,
}

/// An information object as bytes.
pub struct ObjectBytes {
    pub ioa: InfoObjAddr,
    pub value: Seq<u8>,
    pub tag: Seq<u8>,
}

impl View for EncodedObject {
    type V = ObjectBytes;

    open spec fn view(&self) -> ObjectBytes {
        ObjectBytes { ioa: self.ioa, value: self.value@, tag: self.tag@ }
    }
}

/// The objects as mathematical data.
pub open spec fn object_views(v: Seq<EncodedObject>) -> Seq<ObjectBytes> {
    Seq::new(v.len(), |i: int| v[i]@)
}

/// Objects on the wire. In a sequence only the first has its address.
pub open spec fn body(objs: Seq<ObjectBytes>, sequence: bool, first: bool) -> Seq<u8>
    decreases objs.len(),
{
    if objs.len() == 0 {
        Seq::empty()
    } else {
        let o = objs[0];
        let addr = if !sequence || first {
            le_bytes(o.ioa.raw_spec() as nat, 3)
        } else {
            Seq::empty()
        };
        addr + o.value + o.tag + body(objs.skip(1), sequence, false)
    }
}

/// Put objects on the wire.
pub(crate) fn encode_objects(objs: &Vec<EncodedObject>, sequence: bool) -> (r: Vec<u8>)
    ensures
        r@ == body(object_views(objs@), sequence, true),
{
    let mut out: Vec<u8> = Vec::new();
    let ghost all = object_views(objs@);
    proof {
        assert(all.skip(0) =~= all);
        assert(Seq::<u8>::empty() + body(all, sequence, true) =~= body(all, sequence, true));
    }
    for i in 0..objs.len()
        invariant
            all == object_views(objs@),
            out@ + body(all.skip(i as int), sequence, i == 0) == body(all, sequence, true),
    {
        let ghost before = out@;
        let ghost rest = all.skip(i as int);
        let ghost addr = if !sequence || i == 0 {
            le_bytes(rest[0].ioa.raw_spec() as nat, 3)
        } else {
            Seq::empty()
        };
        let ghost tail = body(all.skip(i + 1), sequence, false);
        proof {
            assert(rest[0] == all[i as int]);
            assert(rest.skip(1) =~= all.skip(i + 1));
        }
        if !sequence || i == 0 {
            let mut a = le_vec(objs[i].ioa.raw() as u64, 3);
            out.append(&mut a);
        }
        assert(out@ =~= before + addr);
        out.extend_from_slice(objs[i].value.as_slice());
        out.extend_from_slice(objs[i].tag.as_slice());
        proof {
            assert(out@ =~= before + addr + all[i as int].value + all[i as int].tag);
            assert(before + (addr + rest[0].value + rest[0].tag + tail) =~= out@ + tail);
        }
    }
    proof {
        assert(all.skip(objs@.len() as int) =~= Seq::empty());
        assert(out@ + Seq::<u8>::empty() =~= out@);
    }
    out
}

/// The tag is the time of the object, or any moment where it has none.
pub open spec fn is_stamp(kind: TagKind, time: Option<CivilTime>, tag: Seq<u8>) -> bool {
    match kind {
        TagKind::Plain => tag == Seq::<u8>::empty(),
        TagKind::Cp24 => match time {
            Some(t) => tag == cp24(t),
            None => exists|t: CivilTime| t.wf() && tag == #[trigger] cp24(t),
        },
        TagKind::Cp56 => match time {
            Some(t) => tag == cp56(t),
            None => exists|t: CivilTime| t.wf() && tag == #[trigger] cp56(t),
        },
    }
}

/// The time is none or a moment.
pub open spec fn time_wf(time: Option<CivilTime>) -> bool {
    time matches Some(t) ==> t.wf()
}

/// The time tag of an object: its time, or the current moment where it has
/// none.
pub(crate) fn stamp(kind: TagKind, time: Option<CivilTime>) -> (r: Vec<u8>)
    requires
        time_wf(time),
    ensures
        is_stamp(kind, time, r@),
{
    match kind {
        TagKind::Plain => Vec::new(),
        TagKind::Cp24 => {
            let t = match time {
                Some(t) => t,
                None => civil_now(),
            };
            slice_to_vec(bytes_as_slice(&cp24time2a(t)))
        },
        TagKind::Cp56 => {
            let t = match time {
                Some(t) => t,
                None => civil_now(),
            };
            slice_to_vec(bytes_as_slice(&cp56time2a(t)))
        },
    }
}

/// Objects that read back as written: values of one width, tags of one kind
/// with these times, and in a sequence addresses that count on.
pub open spec fn regular(
    objs: Seq<ObjectBytes>,
    sequence: bool,
    width: nat,
    kind: TagKind,
    times: Seq<CivilTime>,
) -> bool {
    &&& times.len() == objs.len()
    &&& forall|i: int|
        0 <= i < objs.len() ==> object_regular(#[trigger] objs[i], width, kind, times[i])
    &&& sequence ==> forall|i: int|
        0 < i < objs.len() ==> (#[trigger] objs[i]).ioa.res == objs[i - 1].ioa.res && objs[i].ioa.addr
            == objs[i - 1].ioa.addr + 1
}

/// What an object that was written with a time is read as.
pub open spec fn read_as(o: ObjectBytes, kind: TagKind, t: CivilTime) -> ObjectData {
    ObjectData {
        ioa: o.ioa,
        value: o.value,
        tag: match kind {
            TagKind::Plain => TagValue::Absent,
            TagKind::Cp24 => TagValue::OfHour(t.minute, t.second),
            TagKind::Cp56 => TagValue::Moment(CivilTime { milli: 0, ..t }),
        },
    }
}

/// The objects that are read.
pub open spec fn all_read_as(
    objs: Seq<ObjectBytes>,
    kind: TagKind,
    times: Seq<CivilTime>,
) -> Seq<ObjectData> {
    Seq::new(objs.len(), |i: int| read_as(objs[i], kind, times[i]))
}

/// One object is regular.
pub open spec fn object_regular(
    o: ObjectBytes,
    width: nat,
    kind: TagKind,
    t: CivilTime,
) -> bool {
    &&& o.value.len() == width
    &&& match kind {
        TagKind::Plain => o.tag == Seq::<u8>::empty(),
        TagKind::Cp24 => t.wf() && t.milli < 1000 && o.tag == cp24(t),
        TagKind::Cp56 => taggable(t) && o.tag == cp56(t),
    }
}

proof fn lemma_tag_read_back(
    front: Seq<u8>,
    o: ObjectBytes,
    tail: Seq<u8>,
    width: nat,
    kind: TagKind,
    t: CivilTime,
)
    requires
        object_regular(o, width, kind, t),
    ensures
        tag_at(front + o.tag + tail, front.len() as int, kind) == (
            read_as(o, kind, t).tag,
            (front + o.tag).len() as int,
        ),
{
    match kind {
        TagKind::Plain => {},
        TagKind::Cp24 => {
            short_tag_is_read_back(front, t, tail);
            lemma_le_bytes_len(super::time::minute_millis(t), 2);
        },
        TagKind::Cp56 => {
            long_tag_is_read_back(front, t, tail);
            lemma_le_bytes_len(super::time::minute_millis(t), 2);
        },
    }
}

proof fn lemma_addr_read_back(before: Seq<u8>, ioa: InfoObjAddr, behind: Seq<u8>)
    ensures
        InfoObjAddr::of_raw(
            le24(before + le_bytes(ioa.raw_spec() as nat, 3) + behind, before.len() as int),
        ) == ioa,
        le_bytes(ioa.raw_spec() as nat, 3).len() == 3,
{
    let addr = le_bytes(ioa.raw_spec() as nat, 3);
    let s = before + addr + behind;
    let at = before.len() as int;
    lemma_le3(ioa.raw_spec() as nat);
    assert(s[at] == addr[0] && s[at + 1] == addr[1] && s[at + 2] == addr[2]);
    assert(le24(s, at) == ioa.raw_spec());
}

proof fn lemma_first_object(
    before: Seq<u8>,
    addr: Seq<u8>,
    o: ObjectBytes,
    tail: Seq<u8>,
    left: nat,
    sequence: bool,
    prev: Option<InfoObjAddr>,
    width: nat,
    kind: TagKind,
    t: CivilTime,
)
    requires
        left > 0,
        object_regular(o, width, kind, t),
        addr == if sequence && prev is Some {
            Seq::<u8>::empty()
        } else {
            le_bytes(o.ioa.raw_spec() as nat, 3)
        },
        sequence && prev is Some ==> o.ioa.res == prev->0.res && o.ioa.addr == prev->0.addr + 1,
    ensures
        scan(
            before + addr + o.value + o.tag + tail,
            before.len() as int,
            left,
            sequence,
            prev,
            width,
            Some(kind),
        ) == prepend(
            seq![read_as(o, kind, t)],
            scan(
                before + addr + o.value + o.tag + tail,
                (before + addr + o.value + o.tag).len() as int,
                (left - 1) as nat,
                sequence,
                Some(o.ioa),
                width,
                Some(kind),
            ),
        ),
{
    let s = before + addr + o.value + o.tag + tail;
    let at = before.len() as int;
    let v = at + addr.len();
    let front = before + addr + o.value;
    lemma_addr_read_back(before, o.ioa, o.value + o.tag + tail);
    lemma_tag_read_back(front, o, tail, width, kind, t);
    assert(s.subrange(v, v + width) =~= o.value);
    if !(sequence && prev is Some) {
        assert(s =~= before + addr + (o.value + o.tag + tail));
    }
}

proof fn lemma_rest_regular(
    objs: Seq<ObjectBytes>,
    sequence: bool,
    width: nat,
    kind: TagKind,
    times: Seq<CivilTime>,
)
    requires
        objs.len() > 0,
        regular(objs, sequence, width, kind, times),
    ensures
        regular(objs.skip(1), sequence, width, kind, times.skip(1)),
        object_regular(objs[0], width, kind, times[0]),
        sequence && objs.len() > 1 ==> objs.skip(1)[0].ioa.res == objs[0].ioa.res && objs.skip(
            1,
        )[0].ioa.addr == objs[0].ioa.addr + 1,
{
    let rest = objs.skip(1);
    let rest_times = times.skip(1);
    assert forall|i: int| 0 <= i < rest.len() implies object_regular(
        #[trigger] rest[i],
        width,
        kind,
        rest_times[i],
    ) by {
        assert(object_regular(objs[i + 1], width, kind, times[i + 1]));
    }
    if sequence {
        assert forall|i: int| 0 < i < rest.len() implies (#[trigger] rest[i]).ioa.res
            == rest[i - 1].ioa.res && rest[i].ioa.addr == rest[i - 1].ioa.addr + 1 by {
            assert(rest[i] == objs[i + 1]);
            assert(rest[i - 1] == objs[i]);
        }
        if rest.len() > 0 {
            assert(rest[0] == objs[1]);
        }
    }
}

/// The address of an object, where it is written.
pub open spec fn addr_bytes(o: ObjectBytes, counted: bool) -> Seq<u8> {
    if counted {
        Seq::empty()
    } else {
        le_bytes(o.ioa.raw_spec() as nat, 3)
    }
}

proof fn lemma_body_unfold(before: Seq<u8>, objs: Seq<ObjectBytes>, sequence: bool, first: bool)
    requires
        objs.len() > 0,
    ensures
        before + body(objs, sequence, first) == before + addr_bytes(objs[0], sequence && !first)
            + objs[0].value + objs[0].tag + body(objs.skip(1), sequence, false),
{
    let o = objs[0];
    let addr = addr_bytes(o, sequence && !first);
    let tail = body(objs.skip(1), sequence, false);
    assert(body(objs, sequence, first) == addr + o.value + o.tag + tail);
    assert(before + (addr + o.value + o.tag + tail) =~= before + addr + o.value + o.tag + tail);
}

proof fn lemma_no_objects(s: Seq<u8>, at: int, sequence: bool, prev: Option<InfoObjAddr>, width: nat, kind: TagKind)
    ensures
        scan(s, at, 0, sequence, prev, width, Some(kind)) == Scan::Objects(
            Seq::<ObjectData>::empty(),
        ),
{
}

proof fn lemma_objects_read_back(
    before: Seq<u8>,
    objs: Seq<ObjectBytes>,
    sequence: bool,
    prev: Option<InfoObjAddr>,
    width: nat,
    kind: TagKind,
    times: Seq<CivilTime>,
)
    requires
        regular(objs, sequence, width, kind, times),
        sequence && prev is Some && objs.len() > 0 ==> objs[0].ioa.res == prev->0.res
            && objs[0].ioa.addr == prev->0.addr + 1,
    ensures
        scan(
            before + body(objs, sequence, prev is None),
            before.len() as int,
            objs.len(),
            sequence,
            prev,
            width,
            Some(kind),
        ) == Scan::Objects(all_read_as(objs, kind, times)),
    decreases objs.len(),
{
    if objs.len() == 0 {
        lemma_no_objects(
            before + body(objs, sequence, prev is None),
            before.len() as int,
            sequence,
            prev,
            width,
            kind,
        );
        assert(all_read_as(objs, kind, times) =~= Seq::empty());
    } else {
        let o = objs[0];
        let rest = objs.skip(1);
        let rest_times = times.skip(1);
        let tail = body(rest, sequence, false);
        let addr = addr_bytes(o, sequence && prev is Some);
        let next = before + addr + o.value + o.tag;
        let s = before + body(objs, sequence, prev is None);
        lemma_body_unfold(before, objs, sequence, prev is None);
        assert(s == next + tail);
        lemma_rest_regular(objs, sequence, width, kind, times);
        lemma_first_object(
            before,
            addr,
            o,
            tail,
            objs.len(),
            sequence,
            prev,
            width,
            kind,
            times[0],
        );
        lemma_objects_read_back(next, rest, sequence, Some(o.ioa), width, kind, rest_times);
        let d = read_as(o, kind, times[0]);
        assert(seq![d] + all_read_as(rest, kind, rest_times) =~= all_read_as(objs, kind, times));
    }
}

/// What is written is read: an ASDU that carries regular objects gives them
/// back, with the times to what their tags hold.
pub proof fn written_objects_are_read_back(
    a: AsduData,
    objs: Seq<ObjectBytes>,
    width: nat,
    kind: TagKind,
    times: Seq<CivilTime>,
)
    requires
        a.identifier.variable_struct.number_spec() == objs.len(),
        a.raw == body(objs, a.identifier.variable_struct.is_sequence_spec(), true),
        regular(objs, a.identifier.variable_struct.is_sequence_spec(), width, kind, times),
    ensures
        a.objects_as(width, Some(kind)) == Scan::Objects(all_read_as(objs, kind, times)),
{
    let sequence = a.identifier.variable_struct.is_sequence_spec();
    lemma_objects_read_back(Seq::empty(), objs, sequence, None, width, kind, times);
    assert(Seq::<u8>::empty() + a.raw =~= a.raw);
}

} // verus!
