//! Collected values in terms of the bytes of an ASDU: where the objects stand,
//! and what their bytes say.

use super::extract::{
    extracted, infos_of, matched, matched_objects, RawValue, ReportedInfo,
};
use super::points::{packed, MetaData, Snapshot};
use super::protocol::frame::asdu::{AsduData, InfoObjAddr};
use super::protocol::frame::mproc::{
    BinaryCounterReadingInfo, BitStringInfo, DoublePointInfo, InfoObject, MeasuredValueFloatInfo,
    MeasuredValueNormalInfo, MeasuredValueScaledInfo, SinglePointInfo, StepPositionInfo,
};
use super::protocol::frame::objects::{layout_of, next_addr, scan, ObjectData, Scan};
use super::protocol::frame::time::{tag_at, TagKind};
use crate::wire::le24;
use vstd::prelude::*;

verus! {

/// Types of which values are collected, by code: points, steps, bit strings,
/// measured values and totals, without tag (1 to 15 odd, 21), with a short tag
/// (2 to 16 even) and with a long tag (30 to 37).
pub open spec fn is_collected(code: int) -> bool {
    1 <= code <= 16 || code == 21 || 30 <= code <= 37
}

/// Bytes of the value of an object: single and double points 1, steps 2,
/// normalized and scaled values 3 (2 for those without quality), bit strings,
/// floats and totals 5.
pub open spec fn value_width(code: int) -> int {
    if 1 <= code <= 4 || code == 30 || code == 31 {
        1
    } else if code == 5 || code == 6 || code == 32 || code == 21 {
        2
    } else if 9 <= code <= 12 || code == 34 || code == 35 {
        3
    } else {
        5
    }
}

/// Bytes of the time tag of an object.
pub open spec fn tag_width(code: int) -> int {
    if code >= 30 {
        7
    } else if code <= 16 && code % 2 == 0 {
        3
    } else {
        0
    }
}

/// The unsigned number in two bytes, low byte first.
pub open spec fn number16(b: Seq<u8>, i: int) -> int {
    b[i] + 256 * b[i + 1]
}

/// The unsigned number in four bytes, low byte first.
pub open spec fn number32(b: Seq<u8>, i: int) -> int {
    b[i] + 256 * b[i + 1] + 65536 * b[i + 2] + 16777216 * b[i + 3]
}

/// The signed number in two bytes, low byte first.
pub open spec fn signed16(b: Seq<u8>, i: int) -> int {
    if b[i + 1] < 128 {
        number16(b, i)
    } else {
        number16(b, i) - 65536
    }
}

/// The signed number in four bytes, low byte first.
pub open spec fn signed32(b: Seq<u8>, i: int) -> int {
    if b[i + 3] < 128 {
        number32(b, i)
    } else {
        number32(b, i) - 4294967296
    }
}

/// What the value bytes from `i` on report, by the code of the type.
pub open spec fn reported_by(code: int, b: Seq<u8>, i: int) -> RawValue {
    if code == 1 || code == 2 || code == 30 {
        RawValue::Boolean(b[i] % 2 == 1)
    } else if code == 3 || code == 4 || code == 31 {
        RawValue::Unsigned((b[i] % 4) as u64)
    } else if code == 5 || code == 6 || code == 32 {
        RawValue::Signed((b[i] % 128) as i64)
    } else if code == 7 || code == 8 || code == 33 {
        RawValue::Unsigned(number32(b, i) as u64)
    } else if code == 9 || code == 10 || code == 34 || code == 21 {
        RawValue::Normalized(signed16(b, i) as i16)
    } else if code == 11 || code == 12 || code == 35 {
        RawValue::Scaled(signed16(b, i) as i16)
    } else if code == 13 || code == 14 || code == 36 {
        RawValue::Float(number32(b, i) as u32)
    } else {
        RawValue::Signed(signed32(b, i) as i64)
    }
}

/// The code of the type of an ASDU.
pub open spec fn code_of(a: AsduData) -> int {
    a.identifier.type_id.code_spec() as int
}

/// Number of objects of an ASDU.
pub open spec fn count_of(a: AsduData) -> int {
    a.identifier.variable_struct.raw_spec() as int % 128
}

/// Only the first object has an address, the others count on from it.
pub open spec fn counts_on_from_first(a: AsduData) -> bool {
    a.identifier.variable_struct.raw_spec() >= 128
}

/// Bytes from one object to the next.
pub open spec fn stride_of(a: AsduData) -> int {
    value_width(code_of(a)) + tag_width(code_of(a)) + if counts_on_from_first(a) {
        0int
    } else {
        3
    }
}

/// Where the value of an object starts: behind its three address bytes, or in
/// a sequence behind the address of the first object.
pub open spec fn value_place(a: AsduData, i: int) -> int {
    3 + i * stride_of(a)
}

/// The address of an object: the low two of its three address bytes, or in a
/// sequence the address of the first object and its place.
pub open spec fn address_of(a: AsduData, i: int) -> int {
    if counts_on_from_first(a) {
        number16(a.raw, 0) + i
    } else {
        number16(a.raw, i * stride_of(a))
    }
}

/// All objects are there in full.
pub open spec fn is_complete(a: AsduData) -> bool {
    a.raw.len() >= if counts_on_from_first(a) {
        3 + count_of(a) * stride_of(a)
    } else {
        count_of(a) * stride_of(a)
    }
}

/// The values of the first `n` objects that are points of the channel.
pub open spec fn collected(points: Snapshot, a: AsduData, n: int) -> Seq<(MetaData, RawValue)>
    decreases n,
{
    if n <= 0 {
        Seq::empty()
    } else {
        let before = collected(points, a, n - 1);
        let key = packed(address_of(a, n - 1) as u16, code_of(a) as u8);
        if points.points.contains_key(key) {
            before.push(
                (points.points[key], reported_by(code_of(a), a.raw, value_place(a, n - 1))),
            )
        } else {
            before
        }
    }
}

spec fn kind_with(g: int) -> TagKind {
    if g == 7 {
        TagKind::Cp56
    } else if g == 3 {
        TagKind::Cp24
    } else {
        TagKind::Plain
    }
}

proof fn lemma_step(i: int, stride: int)
    ensures
        (i + 1) * stride == i * stride + stride,
{
    assert((i + 1) * stride == i * stride + stride) by (nonlinear_arith);
}

proof fn lemma_below(i: int, n: int, stride: int)
    requires
        0 <= i < n,
        stride >= 0,
    ensures
        0 <= i * stride,
        i * stride + stride <= n * stride,
{
    assert(0 <= i * stride) by (nonlinear_arith)
        requires
            0 <= i,
            stride >= 0,
    ;
    assert((i + 1) * stride <= n * stride) by (nonlinear_arith)
        requires
            i + 1 <= n,
            stride >= 0,
    ;
    lemma_step(i, stride);
}

spec fn stands_plain(d: ObjectData, s: Seq<u8>, at: int, width: nat) -> bool {
    &&& d.ioa.addr == number16(s, at)
    &&& d.value == s.subrange(at + 3, at + 3 + width)
}

proof fn lemma_plain(
    s: Seq<u8>,
    at: int,
    left: nat,
    prev: Option<InfoObjAddr>,
    width: nat,
    g: int,
)
    requires
        at >= 0,
        g == 0 || g == 3 || g == 7,
        s.len() >= at + left * (3 + width + g),
        !(scan(s, at, left, false, prev, width, Some(kind_with(g))) is Undefined),
    ensures
        scan(s, at, left, false, prev, width, Some(kind_with(g))) matches Scan::Objects(ds)
            && ds.len() == left && forall|i: int|
            0 <= i < left ==> stands_plain(#[trigger] ds[i], s, at + i * (3 + width + g), width),
    decreases left,
{
    if left > 0 {
        let stride = 3 + width + g;
        let kind = kind_with(g);
        lemma_below(0, left as int, stride);
        lemma_step(left - 1, stride);
        let ioa = InfoObjAddr::of_raw(le24(s, at));
        let t = tag_at(s, at + 3 + width, kind);
        assert(t.1 == at + stride);
        let rest = scan(s, at + stride, (left - 1) as nat, false, Some(ioa), width, Some(kind));
        lemma_plain(s, at + stride, (left - 1) as nat, Some(ioa), width, g);
        let ds = scan(s, at, left, false, prev, width, Some(kind))->Objects_0;
        let tail = rest->Objects_0;
        assert(ioa.addr == number16(s, at));
        assert forall|i: int| 0 <= i < left implies stands_plain(
            #[trigger] ds[i],
            s,
            at + i * stride,
            width,
        ) by {
            if i > 0 {
                assert(ds[i] == tail[i - 1]);
                lemma_step(i - 1, stride);
            } else {
                assert(0 * stride == 0) by (nonlinear_arith);
            }
        }
    }
}

spec fn stands_counted(d: ObjectData, s: Seq<u8>, addr: int, at: int, width: nat) -> bool {
    &&& d.ioa.addr == addr
    &&& d.value == s.subrange(at, at + width)
}

proof fn lemma_counted(s: Seq<u8>, at: int, left: nat, prev: InfoObjAddr, width: nat, g: int)
    requires
        at >= 0,
        g == 0 || g == 3 || g == 7,
        s.len() >= at + left * (width + g),
        !(scan(s, at, left, true, Some(prev), width, Some(kind_with(g))) is Undefined),
    ensures
        scan(s, at, left, true, Some(prev), width, Some(kind_with(g))) matches Scan::Objects(ds)
            && ds.len() == left && forall|i: int|
            0 <= i < left ==> stands_counted(
                #[trigger] ds[i],
                s,
                prev.addr + 1 + i,
                at + i * (width + g),
                width,
            ),
    decreases left,
{
    if left > 0 {
        let stride = width + g;
        let kind = kind_with(g);
        lemma_below(0, left as int, stride);
        lemma_step(left - 1, stride);
        let ioa = next_addr(prev);
        let t = tag_at(s, at + width, kind);
        assert(t.1 == at + stride);
        let rest = scan(s, at + stride, (left - 1) as nat, true, Some(ioa), width, Some(kind));
        lemma_counted(s, at + stride, (left - 1) as nat, ioa, width, g);
        let ds = scan(s, at, left, true, Some(prev), width, Some(kind))->Objects_0;
        let tail = rest->Objects_0;
        assert forall|i: int| 0 <= i < left implies stands_counted(
            #[trigger] ds[i],
            s,
            prev.addr + 1 + i,
            at + i * stride,
            width,
        ) by {
            if i > 0 {
                assert(ds[i] == tail[i - 1]);
                lemma_step(i - 1, stride);
            } else {
                assert(0 * stride == 0) by (nonlinear_arith);
            }
        }
    }
}

proof fn lemma_sequence(s: Seq<u8>, n: nat, width: nat, g: int)
    requires
        g == 0 || g == 3 || g == 7,
        s.len() >= 3 + n * (width + g),
        !(scan(s, 0, n, true, None, width, Some(kind_with(g))) is Undefined),
    ensures
        scan(s, 0, n, true, None, width, Some(kind_with(g))) matches Scan::Objects(ds) && ds.len()
            == n && forall|i: int|
            0 <= i < n ==> stands_counted(
                #[trigger] ds[i],
                s,
                number16(s, 0) + i,
                3 + i * (width + g),
                width,
            ),
{
    if n > 0 {
        let stride = width + g;
        let kind = kind_with(g);
        lemma_below(0, n as int, stride);
        lemma_step(n - 1, stride);
        let ioa = InfoObjAddr::of_raw(le24(s, 0));
        assert(ioa.addr == number16(s, 0));
        let t = tag_at(s, 3 + width as int, kind);
        assert(t.1 == 3 + stride);
        let rest = scan(s, 3 + stride, (n - 1) as nat, true, Some(ioa), width, Some(kind));
        lemma_counted(s, 3 + stride, (n - 1) as nat, ioa, width, g);
        let ds = scan(s, 0, n, true, None, width, Some(kind))->Objects_0;
        let tail = rest->Objects_0;
        assert forall|i: int| 0 <= i < n implies stands_counted(
            #[trigger] ds[i],
            s,
            number16(s, 0) + i,
            3 + i * stride,
            width,
        ) by {
            if i > 0 {
                assert(ds[i] == tail[i - 1]);
                lemma_step(i - 1, stride);
            } else {
                assert(0 * stride == 0) by (nonlinear_arith);
            }
        }
    }
}

/// The objects of an ASDU stand one behind the other: three address bytes, low
/// byte first, the value and the time tag of each; in a sequence the address
/// of the first, then the values with their tags, and the addresses count on.
pub proof fn objects_stand_one_behind_the_other(a: AsduData, width: nat, tag: TagKind)
    requires
        is_collected(code_of(a)),
        width == value_width(code_of(a)),
        tag == if tag_width(code_of(a)) == 7 {
            TagKind::Cp56
        } else if tag_width(code_of(a)) == 3 {
            TagKind::Cp24
        } else {
            TagKind::Plain
        },
        is_complete(a),
        !(a.objects_as(width, Some(tag)) is Undefined),
    ensures
        a.objects_as(width, Some(tag)) matches Scan::Objects(ds) && ds.len() == count_of(a)
            && forall|i: int|
            0 <= i < count_of(a) ==> (#[trigger] ds[i]).ioa.addr == address_of(a, i) && ds[i].value
                == a.raw.subrange(value_place(a, i), value_place(a, i) + width),
{
    let n = count_of(a) as nat;
    let g = tag_width(code_of(a));
    let s = a.raw;
    assert(tag == kind_with(g));
    if counts_on_from_first(a) {
        lemma_sequence(s, n, width, g);
        let ds = a.objects_as(width, Some(tag))->Objects_0;
        assert forall|i: int| 0 <= i < n implies (#[trigger] ds[i]).ioa.addr == address_of(a, i)
            && ds[i].value == s.subrange(value_place(a, i), value_place(a, i) + width) by {
            assert(stands_counted(ds[i], s, number16(s, 0) + i, 3 + i * (width + g), width));
        }
    } else {
        lemma_plain(s, 0, n, None, width, g);
        let ds = a.objects_as(width, Some(tag))->Objects_0;
        assert forall|i: int| 0 <= i < n implies (#[trigger] ds[i]).ioa.addr == address_of(a, i)
            && ds[i].value == s.subrange(value_place(a, i), value_place(a, i) + width) by {
            assert(stands_plain(ds[i], s, 0 + i * (3 + width + g), width));
        }
    }
}

proof fn lemma_matched<T: ReportedInfo>(points: Snapshot, a: AsduData, infos: Seq<T>)
    requires
        infos.len() <= count_of(a),
        forall|i: int|
            0 <= i < infos.len() ==> (#[trigger] infos[i]).addr_spec().addr == address_of(a, i)
                && infos[i].reported() == reported_by(code_of(a), a.raw, value_place(a, i)),
    ensures
        matched(points, a.identifier.type_id, infos) == collected(points, a, infos.len() as int),
    decreases infos.len(),
{
    if infos.len() > 0 {
        let front = infos.drop_last();
        assert forall|i: int| 0 <= i < front.len() implies (#[trigger] front[i]).addr_spec().addr
            == address_of(a, i) && front[i].reported() == reported_by(
            code_of(a),
            a.raw,
            value_place(a, i),
        ) by {
            assert(front[i] == infos[i]);
        }
        lemma_matched(points, a, front);
        assert(infos.last() == infos[infos.len() - 1]);
    }
}

proof fn lemma_value_is_inside(a: AsduData, i: int)
    requires
        is_collected(code_of(a)),
        is_complete(a),
        0 <= i < count_of(a),
    ensures
        0 <= value_place(a, i),
        value_place(a, i) + value_width(code_of(a)) <= a.raw.len(),
{
    lemma_below(i, count_of(a), stride_of(a));
}

proof fn lemma_objects<T: ReportedInfo>(points: Snapshot, a: AsduData, tag: TagKind)
    requires
        is_collected(code_of(a)),
        T::width_spec(a.identifier.type_id) == value_width(code_of(a)),
        layout_of(a.identifier.type_id) == Some((value_width(code_of(a)) as nat, tag)),
        tag == kind_with(tag_width(code_of(a))),
        is_complete(a),
        a.objects_defined(),
        forall|ioa: InfoObjAddr, i: int|
            #![trigger T::of_value(ioa, a.raw.subrange(value_place(a, i), value_place(a, i) + value_width(code_of(a))), a.identifier.type_id)]
            0 <= i < count_of(a) ==> {
                let x = T::of_value(
                    ioa,
                    a.raw.subrange(
                        value_place(a, i),
                        value_place(a, i) + value_width(code_of(a)),
                    ),
                    a.identifier.type_id,
                );
                x.addr_spec() == ioa && x.reported() == reported_by(
                    code_of(a),
                    a.raw,
                    value_place(a, i),
                )
            },
    ensures
        matched_objects::<T>(points, a, Some(tag)) == collected(points, a, count_of(a)),
{
    let t = a.identifier.type_id;
    let w = value_width(code_of(a));
    objects_stand_one_behind_the_other(a, w as nat, tag);
    let ds = a.objects_as(w as nat, Some(tag))->Objects_0;
    let infos = infos_of::<T>(t, ds);
    assert forall|i: int| 0 <= i < infos.len() implies (#[trigger] infos[i]).addr_spec().addr
        == address_of(a, i) && infos[i].reported() == reported_by(
        code_of(a),
        a.raw,
        value_place(a, i),
    ) by {
        let v = a.raw.subrange(value_place(a, i), value_place(a, i) + w);
        assert(ds[i].value == v);
        assert(infos[i] == T::of_value(ds[i].ioa, v, t));
    }
    lemma_matched(points, a, infos);
}

proof fn lemma_points(points: Snapshot, a: AsduData)
    requires
        1 <= code_of(a) <= 4 || code_of(a) == 30 || code_of(a) == 31,
        is_complete(a),
        a.objects_defined(),
    ensures
        extracted(points, a) == collected(points, a, count_of(a)),
{
    assert forall|i: int| 0 <= i < count_of(a) implies 0 <= #[trigger] value_place(a, i)
        && value_place(a, i) + value_width(code_of(a)) <= a.raw.len() by {
        lemma_value_is_inside(a, i);
    }
    let tag = kind_with(tag_width(code_of(a)));
    if code_of(a) == 1 || code_of(a) == 2 || code_of(a) == 30 {
        lemma_objects::<SinglePointInfo>(points, a, tag);
    } else {
        lemma_objects::<DoublePointInfo>(points, a, tag);
    }
}

proof fn lemma_steps_and_bits(points: Snapshot, a: AsduData)
    requires
        5 <= code_of(a) <= 8 || code_of(a) == 32 || code_of(a) == 33,
        is_complete(a),
        a.objects_defined(),
    ensures
        extracted(points, a) == collected(points, a, count_of(a)),
{
    assert forall|i: int| 0 <= i < count_of(a) implies 0 <= #[trigger] value_place(a, i)
        && value_place(a, i) + value_width(code_of(a)) <= a.raw.len() by {
        lemma_value_is_inside(a, i);
    }
    let tag = kind_with(tag_width(code_of(a)));
    if code_of(a) == 5 || code_of(a) == 6 || code_of(a) == 32 {
        lemma_objects::<StepPositionInfo>(points, a, tag);
    } else {
        lemma_objects::<BitStringInfo>(points, a, tag);
    }
}

proof fn lemma_measured(points: Snapshot, a: AsduData)
    requires
        9 <= code_of(a) <= 12 || code_of(a) == 21 || code_of(a) == 34 || code_of(a) == 35,
        is_complete(a),
        a.objects_defined(),
    ensures
        extracted(points, a) == collected(points, a, count_of(a)),
{
    assert forall|i: int| 0 <= i < count_of(a) implies 0 <= #[trigger] value_place(a, i)
        && value_place(a, i) + value_width(code_of(a)) <= a.raw.len() by {
        lemma_value_is_inside(a, i);
    }
    let tag = kind_with(tag_width(code_of(a)));
    if code_of(a) == 11 || code_of(a) == 12 || code_of(a) == 35 {
        lemma_objects::<MeasuredValueScaledInfo>(points, a, tag);
    } else {
        lemma_objects::<MeasuredValueNormalInfo>(points, a, tag);
    }
}

proof fn lemma_floats_and_totals(points: Snapshot, a: AsduData)
    requires
        13 <= code_of(a) <= 16 || code_of(a) == 36 || code_of(a) == 37,
        is_complete(a),
        a.objects_defined(),
    ensures
        extracted(points, a) == collected(points, a, count_of(a)),
{
    assert forall|i: int| 0 <= i < count_of(a) implies 0 <= #[trigger] value_place(a, i)
        && value_place(a, i) + value_width(code_of(a)) <= a.raw.len() by {
        lemma_value_is_inside(a, i);
    }
    let tag = kind_with(tag_width(code_of(a)));
    if code_of(a) == 13 || code_of(a) == 14 || code_of(a) == 36 {
        lemma_objects::<MeasuredValueFloatInfo>(points, a, tag);
    } else {
        lemma_objects::<BinaryCounterReadingInfo>(points, a, tag);
    }
}

/// The values that are collected from an ASDU are those that its bytes report:
/// of every object whose address is a point of the channel, in order, the
/// value that stands in its bytes. A total reports the signed number in its
/// first four bytes, and so on for each type.
pub proof fn collected_values_are_what_the_bytes_report(points: Snapshot, a: AsduData)
    requires
        is_collected(code_of(a)),
        is_complete(a),
        a.objects_defined(),
    ensures
        extracted(points, a) == collected(points, a, count_of(a)),
{
    let c = code_of(a);
    if 1 <= c <= 4 || c == 30 || c == 31 {
        lemma_points(points, a);
    } else if 5 <= c <= 8 || c == 32 || c == 33 {
        lemma_steps_and_bits(points, a);
    } else if 9 <= c <= 12 || c == 21 || c == 34 || c == 35 {
        lemma_measured(points, a);
    } else {
        lemma_floats_and_totals(points, a);
    }
}

/// Of other types nothing is collected.
pub proof fn other_types_report_nothing(points: Snapshot, a: AsduData)
    requires
        !is_collected(code_of(a)),
    ensures
        extracted(points, a) == Seq::<(MetaData, RawValue)>::empty(),
{
}

/// The object with the total `n` of a point reports `n`: what the first four
/// value bytes hold as a signed number.
pub proof fn totals_report_their_count(points: Snapshot, a: AsduData, i: int)
    requires
        code_of(a) == 15 || code_of(a) == 16 || code_of(a) == 37,
        is_complete(a),
        a.objects_defined(),
        0 <= i < count_of(a),
        points.points.contains_key(packed(address_of(a, i) as u16, code_of(a) as u8)),
    ensures
        extracted(points, a).contains(
            (
                points.points[packed(address_of(a, i) as u16, code_of(a) as u8)],
                RawValue::Signed(signed32(a.raw, value_place(a, i)) as i64),
            ),
        ),
{
    collected_values_are_what_the_bytes_report(points, a);
    lemma_collected_contains(points, a, count_of(a), i);
}

proof fn lemma_collected_contains(points: Snapshot, a: AsduData, n: int, i: int)
    requires
        0 <= i < n,
        points.points.contains_key(packed(address_of(a, i) as u16, code_of(a) as u8)),
    ensures
        collected(points, a, n).contains(
            (
                points.points[packed(address_of(a, i) as u16, code_of(a) as u8)],
                reported_by(code_of(a), a.raw, value_place(a, i)),
            ),
        ),
    decreases n,
{
    let x = (
        points.points[packed(address_of(a, i) as u16, code_of(a) as u8)],
        reported_by(code_of(a), a.raw, value_place(a, i)),
    );
    let all = collected(points, a, n);
    if i < n - 1 {
        lemma_collected_contains(points, a, n - 1, i);
        let before = collected(points, a, n - 1);
        let j = choose|j: int| 0 <= j < before.len() && before[j] == x;
        assert(all[j] == x);
    } else {
        assert(all[all.len() - 1] == x);
    }
}

} // verus!
