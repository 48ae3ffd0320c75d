//! Values that a station reports, matched to the points of the channel.

use super::points::{packed, CaSnapshot, MetaData, PointMeta, Snapshot};
use super::protocol::error::Error;
use super::protocol::frame::asdu::{Asdu, AsduData, CauseOfTransmission, CommonAddr, InfoObjAddr, TypeID};
use super::protocol::frame::mproc::{
    bits_tag, counts_on, double_tag, float_tag, normal_tag, read_outcome, reads, scaled_tag,
    sends, lemma_sent_objects, single_tag, step_tag, tagged_at, totals_tag,
    BinaryCounterReadingInfo, BitStringInfo, DoublePointInfo, InfoObject, MeasuredValueFloatInfo,
    MeasuredValueNormalInfo, MeasuredValueScaledInfo, SinglePointInfo, StepPositionInfo,
};
use super::protocol::frame::objects::{ObjectData, Scan};
use super::protocol::frame::time::TagKind;
use crate::clock::CivilTime;
use crate::gateway::{
    fill_buffers, first_device, has_buffer, has_device, lemma_first_device, open_buffers,
    sorted_by_device, values_for, DataPointType, DeviceBuffers, NGValue, PointValue, RoutedValue,
};
use vstd::prelude::*;

verus! {

/// A value as a station reports it.
#[derive(Debug, Clone, Copy, PartialEq, Eq, Structural)]
pub enum RawValue {
    Boolean(bool),
    Unsigned(u64),
    Signed(i64),
    /// Short floating-point number, as its bit pattern.
    Float(u32),
    /// Normalized value, in units of 1/32768.
    Normalized(i16),
    /// Scaled value.
    Scaled(i16),
}

/// Information that the channel collects values from.
pub trait ReportedInfo: InfoObject {
    /// The value that is reported.
    spec fn reported(self) -> RawValue;

    fn report(&self) -> (r: RawValue)
        ensures
            r == self.reported(),
    ;

    /// Address and value do not depend on the time.
    proof fn time_aside(ioa: InfoObjAddr, value: Seq<u8>, t: TypeID, time: Option<CivilTime>)
        ensures
            Self::of_value(ioa, value, t).with_time(time).addr_spec() == ioa,
            Self::of_value(ioa, value, t).with_time(time).reported() == Self::of_value(
                ioa,
                value,
                t,
            ).reported(),
    ;

    /// Address and value do not depend on the time.
    proof fn time_set(self, time: Option<CivilTime>)
        ensures
            self.with_time(time).addr_spec() == self.addr_spec(),
            self.with_time(time).reported() == self.reported(),
    ;
}

impl ReportedInfo for BitStringInfo {
    open spec fn reported(self) -> RawValue {
        RawValue::Unsigned(self.bsi as u64)
    }

    fn report(&self) -> (r: RawValue) {
        RawValue::Unsigned(self.bsi as u64)
    }

    proof fn time_aside(ioa: InfoObjAddr, value: Seq<u8>, t: TypeID, time: Option<CivilTime>) {
    }

    proof fn time_set(self, time: Option<CivilTime>) {
    }
}

impl ReportedInfo for StepPositionInfo {
    open spec fn reported(self) -> RawValue {
        RawValue::Signed(self.vti.value_spec() as i64)
    }

    fn report(&self) -> (r: RawValue) {
        RawValue::Signed(self.vti.value() as i64)
    }

    proof fn time_aside(ioa: InfoObjAddr, value: Seq<u8>, t: TypeID, time: Option<CivilTime>) {
    }

    proof fn time_set(self, time: Option<CivilTime>) {
    }
}

impl ReportedInfo for SinglePointInfo {
    open spec fn reported(self) -> RawValue {
        RawValue::Boolean(self.siq.spi_spec())
    }

    fn report(&self) -> (r: RawValue) {
        RawValue::Boolean(self.siq.spi())
    }

    proof fn time_aside(ioa: InfoObjAddr, value: Seq<u8>, t: TypeID, time: Option<CivilTime>) {
    }

    proof fn time_set(self, time: Option<CivilTime>) {
    }
}

impl ReportedInfo for DoublePointInfo {
    open spec fn reported(self) -> RawValue {
        RawValue::Unsigned(self.diq.spi_spec() as u64)
    }

    fn report(&self) -> (r: RawValue) {
        RawValue::Unsigned(self.diq.spi() as u64)
    }

    proof fn time_aside(ioa: InfoObjAddr, value: Seq<u8>, t: TypeID, time: Option<CivilTime>) {
    }

    proof fn time_set(self, time: Option<CivilTime>) {
    }
}

impl ReportedInfo for MeasuredValueFloatInfo {
    open spec fn reported(self) -> RawValue {
        RawValue::Float(self.r)
    }

    fn report(&self) -> (r: RawValue) {
        RawValue::Float(self.r)
    }

    proof fn time_aside(ioa: InfoObjAddr, value: Seq<u8>, t: TypeID, time: Option<CivilTime>) {
    }

    proof fn time_set(self, time: Option<CivilTime>) {
    }
}

impl ReportedInfo for MeasuredValueNormalInfo {
    open spec fn reported(self) -> RawValue {
        RawValue::Normalized(self.nva)
    }

    fn report(&self) -> (r: RawValue) {
        RawValue::Normalized(self.nva)
    }

    proof fn time_aside(ioa: InfoObjAddr, value: Seq<u8>, t: TypeID, time: Option<CivilTime>) {
    }

    proof fn time_set(self, time: Option<CivilTime>) {
    }
}

impl ReportedInfo for MeasuredValueScaledInfo {
    open spec fn reported(self) -> RawValue {
        RawValue::Scaled(self.sva)
    }

    fn report(&self) -> (r: RawValue) {
        RawValue::Scaled(self.sva)
    }

    proof fn time_aside(ioa: InfoObjAddr, value: Seq<u8>, t: TypeID, time: Option<CivilTime>) {
    }

    proof fn time_set(self, time: Option<CivilTime>) {
    }
}

impl ReportedInfo for BinaryCounterReadingInfo {
    open spec fn reported(self) -> RawValue {
        RawValue::Signed(self.bcr.value as i64)
    }

    fn report(&self) -> (r: RawValue) {
        RawValue::Signed(self.bcr.value as i64)
    }

    proof fn time_aside(ioa: InfoObjAddr, value: Seq<u8>, t: TypeID, time: Option<CivilTime>) {
    }

    proof fn time_set(self, time: Option<CivilTime>) {
    }
}

/// A reported value with the point it belongs to.
pub struct MatchedValue {
    pub meta: PointMeta,
    pub raw: RawValue,
}

impl View for MatchedValue {
    type V = (MetaData, RawValue);

    open spec fn view(&self) -> (MetaData, RawValue) {
        (self.meta@, self.raw)
    }
}

/// The reported values of configured points, in the order of the objects.
pub open spec fn matched<T: ReportedInfo>(points: Snapshot, t: TypeID, infos: Seq<T>) -> Seq<
    (MetaData, RawValue),
>
    decreases infos.len(),
{
    if infos.len() == 0 {
        Seq::empty()
    } else {
        let before = matched(points, t, infos.drop_last());
        let key = packed(infos.last().addr_spec().addr, t.code_spec());
        if points.points.contains_key(key) {
            before.push((points.points[key], infos.last().reported()))
        } else {
            before
        }
    }
}

/// The information that objects hold, without times.
pub open spec fn infos_of<T: InfoObject>(t: TypeID, ds: Seq<ObjectData>) -> Seq<T> {
    Seq::new(ds.len(), |i: int| T::of_value(ds[i].ioa, ds[i].value, t))
}

/// The values of an ASDU with objects of a certain content; none where they
/// cannot be read.
pub open spec fn matched_objects<T: ReportedInfo>(
    points: Snapshot,
    a: AsduData,
    tag: Option<TagKind>,
) -> Seq<(MetaData, RawValue)> {
    let t = a.identifier.type_id;
    match a.objects_as(T::width_spec(t), tag) {
        Scan::Objects(ds) => matched(points, t, infos_of::<T>(t, ds)),
        _ => Seq::empty(),
    }
}

/// Types whose values are collected.
pub open spec fn is_extracted(t: TypeID) -> bool {
    ||| bits_tag(t) is Some
    ||| step_tag(t) is Some
    ||| single_tag(t) is Some
    ||| double_tag(t) is Some
    ||| float_tag(t) is Some
    ||| normal_tag(t) is Some
    ||| scaled_tag(t) is Some
    ||| totals_tag(t) is Some
}

/// The values that an ASDU reports for the points of its common address.
pub open spec fn extracted(points: Snapshot, a: AsduData) -> Seq<(MetaData, RawValue)> {
    let t = a.identifier.type_id;
    if bits_tag(t) is Some {
        matched_objects::<BitStringInfo>(points, a, bits_tag(t))
    } else if step_tag(t) is Some {
        matched_objects::<StepPositionInfo>(points, a, step_tag(t))
    } else if single_tag(t) is Some {
        matched_objects::<SinglePointInfo>(points, a, single_tag(t))
    } else if double_tag(t) is Some {
        matched_objects::<DoublePointInfo>(points, a, double_tag(t))
    } else if float_tag(t) is Some {
        matched_objects::<MeasuredValueFloatInfo>(points, a, float_tag(t))
    } else if normal_tag(t) is Some {
        matched_objects::<MeasuredValueNormalInfo>(points, a, normal_tag(t))
    } else if scaled_tag(t) is Some {
        matched_objects::<MeasuredValueScaledInfo>(points, a, scaled_tag(t))
    } else if totals_tag(t) is Some {
        matched_objects::<BinaryCounterReadingInfo>(points, a, totals_tag(t))
    } else {
        Seq::empty()
    }
}

/// Values as mathematical data.
pub open spec fn value_views(v: Seq<MatchedValue>) -> Seq<(MetaData, RawValue)> {
    v.map_values(|x: MatchedValue| x@)
}

fn match_infos<T: ReportedInfo>(points: &CaSnapshot, t: TypeID, infos: &Vec<T>) -> (r: Vec<
    MatchedValue,
>)
    ensures
        value_views(r@) == matched(points@, t, infos@),
{
    let type_id: u8 = t.code();
    let mut r: Vec<MatchedValue> = Vec::new();
    for i in 0..infos.len()
        invariant
            type_id == t.code_spec(),
            value_views(r@) == matched(points@, t, infos@.take(i as int)),
    {
        let ghost before = r@;
        assert(infos@.take(i + 1).drop_last() =~= infos@.take(i as int));
        let ioa = infos[i].addr();
        if let Some(meta) = points.find(ioa.addr, type_id) {
            let v = MatchedValue { meta: meta.copy(), raw: infos[i].report() };
            r.push(v);
            assert(value_views(r@) =~= value_views(before).push(v@));
        }
    }
    assert(infos@.take(infos@.len() as int) =~= infos@);
    r
}

/// Infos that were read match like the objects they were read from.
proof fn lemma_times_aside<T: ReportedInfo>(
    points: Snapshot,
    t: TypeID,
    v: Seq<T>,
    ds: Seq<ObjectData>,
)
    requires
        reads(v, t, ds),
    ensures
        matched(points, t, v) == matched(points, t, infos_of::<T>(t, ds)),
    decreases v.len(),
{
    let infos = infos_of::<T>(t, ds);
    if v.len() > 0 {
        let n = v.len() - 1;
        let front = ds.drop_last();
        assert forall|i: int| 0 <= i < front.len() implies {
            &&& super::protocol::frame::time::time_fits(
                (#[trigger] v.drop_last()[i]).time_spec(),
                front[i].tag,
            )
            &&& v.drop_last()[i] == T::of_value(front[i].ioa, front[i].value, t).with_time(
                v.drop_last()[i].time_spec(),
            )
        } by {
            assert(v.drop_last()[i] == v[i]);
            assert(front[i] == ds[i]);
        }
        lemma_times_aside(points, t, v.drop_last(), front);
        assert(infos.drop_last() =~= infos_of::<T>(t, front));
        assert(v[n] == T::of_value(ds[n].ioa, ds[n].value, t).with_time(v[n].time_spec()));
        T::time_aside(ds[n].ioa, ds[n].value, t, v[n].time_spec());
        infos[n].time_set(v[n].time_spec());
    }
}

fn match_read<T: ReportedInfo>(
    points: &CaSnapshot,
    asdu: &Asdu,
    infos: Result<Vec<T>, Error>,
    tag: Ghost<Option<TagKind>>,
) -> (r: Vec<MatchedValue>)
    requires
        read_outcome::<T>(asdu@, tag@, infos),
    ensures
        value_views(r@) == matched_objects::<T>(points@, asdu@, tag@),
{
    let t = asdu.identifier.type_id;
    match infos {
        Ok(v) => {
            proof {
                let ds = asdu@.objects_as(T::width_spec(t), tag@)->Objects_0;
                lemma_times_aside(points@, t, v@, ds);
            }
            match_infos(points, t, &v)
        },
        Err(_) => {
            let r: Vec<MatchedValue> = Vec::new();
            assert(value_views(r@) =~= Seq::empty());
            r
        },
    }
}

/// The values that an ASDU reports for the points of its common address, in
/// the order of its objects. An ASDU with a time tag that names no existing
/// moment, or with addresses that run over, is left out.
pub fn extract_values(points: &CaSnapshot, asdu: &Asdu) -> (r: Vec<MatchedValue>)
    requires
        asdu@.objects_defined(),
    ensures
        value_views(r@) == extracted(points@, asdu@),
{
    let ghost t = asdu.identifier.type_id;
    match asdu.identifier.type_id {
        TypeID::M_BO_NA_1 | TypeID::M_BO_TA_1 | TypeID::M_BO_TB_1 => match_read(
            points,
            asdu,
            asdu.get_bit_string(),
            Ghost(bits_tag(t)),
        ),
        TypeID::M_ST_NA_1 | TypeID::M_ST_TA_1 | TypeID::M_ST_TB_1 => match_read(
            points,
            asdu,
            asdu.get_step_position(),
            Ghost(step_tag(t)),
        ),
        TypeID::M_SP_NA_1 | TypeID::M_SP_TA_1 | TypeID::M_SP_TB_1 => match_read(
            points,
            asdu,
            asdu.get_single_point(),
            Ghost(single_tag(t)),
        ),
        TypeID::M_DP_NA_1 | TypeID::M_DP_TA_1 | TypeID::M_DP_TB_1 => match_read(
            points,
            asdu,
            asdu.get_double_point(),
            Ghost(double_tag(t)),
        ),
        TypeID::M_ME_NC_1 | TypeID::M_ME_TC_1 | TypeID::M_ME_TF_1 => match_read(
            points,
            asdu,
            asdu.get_measured_value_float(),
            Ghost(float_tag(t)),
        ),
        TypeID::M_ME_NA_1 | TypeID::M_ME_TA_1 | TypeID::M_ME_TD_1 | TypeID::M_ME_ND_1 => match_read(
            points,
            asdu,
            asdu.get_measured_value_normal(),
            Ghost(normal_tag(t)),
        ),
        TypeID::M_ME_NB_1 | TypeID::M_ME_TB_1 | TypeID::M_ME_TE_1 => match_read(
            points,
            asdu,
            asdu.get_measured_value_scaled(),
            Ghost(scaled_tag(t)),
        ),
        TypeID::M_IT_NA_1 | TypeID::M_IT_TA_1 | TypeID::M_IT_TB_1 => match_read(
            points,
            asdu,
            asdu.get_integrated_totals(),
            Ghost(totals_tag(t)),
        ),
        _ => {
            let r: Vec<MatchedValue> = Vec::new();
            assert(value_views(r@) =~= Seq::empty());
            r
        },
    }
}

/// Values that could be converted, each with the device and the channel it is
/// published on.
pub open spec fn routed(values: Seq<(MatchedValue, Option<NGValue>)>) -> Seq<RoutedValue>
    decreases values.len(),
{
    if values.len() == 0 {
        Seq::empty()
    } else {
        let before = routed(values.drop_last());
        let (m, v) = values.last();
        match v {
            Some(value) => before.push(
                RoutedValue {
                    device_id: m.meta.device_id,
                    kind: m.meta.kind,
                    value: PointValue {
                        point_id: m.meta.point_id,
                        point_key: m.meta.point_key,
                        value,
                    },
                },
            ),
            None => before,
        }
    }
}

/// Where the first converted value of a device is.
pub open spec fn first_value(
    values: Seq<(MatchedValue, Option<NGValue>)>,
    device_id: i32,
    i: int,
) -> bool {
    &&& 0 <= i < values.len()
    &&& is_value_of(values[i], device_id)
    &&& forall|k: int| 0 <= k < i ==> !is_value_of(#[trigger] values[k], device_id)
}

/// A converted value of the device.
pub open spec fn is_value_of(v: (MatchedValue, Option<NGValue>), device_id: i32) -> bool {
    v.1 is Some && v.0.meta.device_id == device_id
}

/// Sort values by device and channel, each channel in the order in which the
/// values came. `values` holds the reported values with what each converts
/// to; values that do not convert are dropped. Only devices with values are
/// listed, in the order of their identifiers, each under the name that its
/// first value has.
pub fn extract_values_by_kind(values: Vec<(MatchedValue, Option<NGValue>)>) -> (r: Vec<
    DeviceBuffers,
>)
    ensures
        sorted_by_device(r@),
        forall|d: i32|
            (exists|i: int| 0 <= i < values@.len() && is_value_of(#[trigger] values@[i], d))
                <==> #[trigger] has_buffer(r@, d),
        forall|j: int|
            0 <= j < r@.len() ==> {
                &&& (#[trigger] r@[j]).telemetry@ == values_for(
                    routed(values@),
                    r@[j].device_id,
                    DataPointType::Telemetry,
                )
                &&& r@[j].attributes@ == values_for(
                    routed(values@),
                    r@[j].device_id,
                    DataPointType::Attribute,
                )
                &&& exists|i: int| #[trigger]
                    first_value(values@, r@[j].device_id, i) && values@[i].0.meta.device_name@
                        == r@[j].device_name@
            },
{
    let ghost v0 = values@;
    let mut devices: Vec<(i32, String)> = Vec::new();
    let mut out: Vec<RoutedValue> = Vec::new();
    let ghost mut origin: Seq<int> = Seq::empty();
    for x in it: values
        invariant
            it.seq() == v0,
            out@ == routed(v0.take(it.index())),
            origin.len() == devices@.len(),
            forall|k: int|
                0 <= k < origin.len() ==> {
                    &&& 0 <= #[trigger] origin[k] < it.index()
                    &&& is_value_of(v0[origin[k]], devices@[k].0)
                    &&& v0[origin[k]].0.meta.device_name@ == devices@[k].1@
                },
            forall|k: int, l: int| 0 <= k < l < origin.len() ==> origin[k] < origin[l],
            forall|i: int|
                0 <= i < it.index() && (#[trigger] v0[i]).1 is Some ==> origin.contains(i),
    {
        let ghost n = it.index();
        let ghost o0 = origin;
        proof {
            assert(v0.take(n + 1).drop_last() =~= v0.take(n));
            assert(v0.take(n + 1).last() == x);
            assert(v0[n] == x);
        }
        let (m, v) = x;
        if let Some(value) = v {
            let name = m.meta.device_name;
            devices.push((m.meta.device_id, name));
            out.push(
                RoutedValue {
                    device_id: m.meta.device_id,
                    kind: m.meta.kind,
                    value: PointValue {
                        point_id: m.meta.point_id,
                        point_key: m.meta.point_key,
                        value,
                    },
                },
            );
            proof {
                origin = origin.push(n);
                assert forall|i: int| 0 <= i < n + 1 && (
                #[trigger] v0[i]).1 is Some implies origin.contains(i) by {
                    if i < n {
                        assert(o0.contains(i));
                        let k = choose|k: int| 0 <= k < o0.len() && o0[k] == i;
                        assert(origin[k] == i);
                    } else {
                        assert(origin[o0.len() as int] == n);
                    }
                }
            }
        }
    }
    assert(v0.take(v0.len() as int) =~= v0);
    let mut bufs = open_buffers(&devices);
    let ghost b0 = bufs@;
    fill_buffers(&mut bufs, out);
    proof {
        assert forall|d: i32|
            (exists|i: int| 0 <= i < v0.len() && is_value_of(#[trigger] v0[i], d))
                <==> #[trigger] has_buffer(bufs@, d) by {
            if has_buffer(bufs@, d) {
                let j = choose|j: int| 0 <= j < bufs@.len() && (#[trigger] bufs@[j]).device_id == d;
                assert(b0[j].device_id == d);
                assert(has_buffer(b0, d));
                assert(has_device(devices@, d));
                let k = choose|k: int| 0 <= k < devices@.len() && #[trigger] devices@[k].0 == d;
                assert(is_value_of(v0[origin[k]], d));
            }
            if exists|i: int| 0 <= i < v0.len() && is_value_of(#[trigger] v0[i], d) {
                let i = choose|i: int| 0 <= i < v0.len() && is_value_of(#[trigger] v0[i], d);
                assert(origin.contains(i));
                let k = choose|k: int| 0 <= k < origin.len() && origin[k] == i;
                assert(is_value_of(v0[origin[k]], devices@[k].0));
                assert(devices@[k].0 == d);
                assert(has_device(devices@, d));
                assert(has_buffer(b0, d));
                let j = choose|j: int| 0 <= j < b0.len() && (#[trigger] b0[j]).device_id == d;
                assert(bufs@[j].device_id == d);
            }
        }
        assert forall|j: int| 0 <= j < bufs@.len() implies exists|i: int| #[trigger]
            first_value(v0, (#[trigger] bufs@[j]).device_id, i) && v0[i].0.meta.device_name@
                == bufs@[j].device_name@ by {
            let d = bufs@[j].device_id;
            assert(b0[j].device_id == d);
            assert(has_buffer(b0, d));
            let f = first_device(devices@, d);
            lemma_first_device(devices@, d);
            let q = choose|q: int| 0 <= q < devices@.len() && #[trigger] devices@[q].0 == d;
            assert(f <= q);
            let i = origin[f];
            assert forall|k: int| 0 <= k < i implies !is_value_of(#[trigger] v0[k], d) by {
                if is_value_of(v0[k], d) {
                    assert(origin.contains(k));
                    let p = choose|p: int| 0 <= p < origin.len() && origin[p] == k;
                    assert(is_value_of(v0[origin[p]], devices@[p].0));
                    if p > f {
                        assert(origin[f] < origin[p]);
                    }
                    assert(devices@[p].0 == d);
                }
            }
            assert(first_value(v0, d, i));
        }
        assert forall|i: int, j: int| 0 <= i < j < bufs@.len() implies (
        #[trigger] bufs@[i]).device_id < (#[trigger] bufs@[j]).device_id by {
            assert(b0[i].device_id < b0[j].device_id);
        }
    }
    bufs
}

proof fn lemma_matched_alike<T: ReportedInfo>(points: Snapshot, t: TypeID, x: Seq<T>, y: Seq<T>)
    requires
        x.len() == y.len(),
        forall|i: int|
            0 <= i < x.len() ==> (#[trigger] x[i]).addr_spec() == y[i].addr_spec()
                && x[i].reported() == y[i].reported(),
    ensures
        matched(points, t, x) == matched(points, t, y),
    decreases x.len(),
{
    if x.len() > 0 {
        let xf = x.drop_last();
        let yf = y.drop_last();
        assert forall|i: int| 0 <= i < xf.len() implies (#[trigger] xf[i]).addr_spec()
            == yf[i].addr_spec() && xf[i].reported() == yf[i].reported() by {
            assert(xf[i] == x[i]);
            assert(yf[i] == y[i]);
        }
        lemma_matched_alike(points, t, xf, yf);
        let n = x.len() - 1;
        assert(x[n].addr_spec() == y[n].addr_spec());
    }
}

/// What a station sends is what the points of the channel get: the values of
/// the list are matched to the points of that type and of their addresses, in
/// order. The list fits the ASDU, in a sequence its addresses count on, and
/// with time tags every object has a time.
pub proof fn sent_values_reach_their_points<T: ReportedInfo>(
    points: Snapshot,
    a: AsduData,
    infos: Seq<T>,
    t: TypeID,
    kind: TagKind,
    sequence: bool,
    cot: CauseOfTransmission,
    ca: CommonAddr,
    times: Seq<CivilTime>,
)
    requires
        sends(a, infos, t, kind, sequence, cot, ca),
        infos.len() < 128,
        sequence ==> counts_on(infos),
        forall|i: int| 0 <= i < infos.len() ==> (#[trigger] infos[i]).carried(t),
        tagged_at(infos, kind, times),
    ensures
        matched_objects::<T>(points, a, Some(kind)) == matched(points, t, infos),
{
    let (_, ds) = lemma_sent_objects(a, infos, t, kind, sequence, cot, ca, times);
    let read = infos_of::<T>(t, ds);
    assert forall|i: int| 0 <= i < read.len() implies (#[trigger] read[i]).addr_spec()
        == infos[i].addr_spec() && read[i].reported() == infos[i].reported() by {
        assert(ds[i].ioa == infos[i].addr_spec());
        infos[i].read_back(t);
        read[i].time_set(infos[i].time_spec());
    }
    lemma_matched_alike(points, t, read, infos);
}

/// Every value that an ASDU reports belongs to a configured point of the
/// ASDU's type.
pub proof fn matched_values_are_configured<T: ReportedInfo>(
    points: Snapshot,
    t: TypeID,
    infos: Seq<T>,
    i: int,
)
    requires
        0 <= i < matched(points, t, infos).len(),
    ensures
        exists|n: int|
            0 <= n < infos.len() && points.points.contains_key(
                packed((#[trigger] infos[n]).addr_spec().addr, t.code_spec()),
            ) && matched(points, t, infos)[i] == (
                points.points[packed(infos[n].addr_spec().addr, t.code_spec())],
                infos[n].reported(),
            ),
    decreases infos.len(),
{
    let front = infos.drop_last();
    let before = matched(points, t, front);
    if i < before.len() {
        matched_values_are_configured(points, t, front, i);
        let n = choose|n: int|
            0 <= n < front.len() && points.points.contains_key(
                packed((#[trigger] front[n]).addr_spec().addr, t.code_spec()),
            ) && before[i] == (
                points.points[packed(front[n].addr_spec().addr, t.code_spec())],
                front[n].reported(),
            );
        assert(infos[n] == front[n]);
    } else {
        assert(infos[infos.len() - 1] == infos.last());
    }
}

/// Every value that converts is routed to the device and the channel of its
/// point, under the identifier and the key of the point, in order; the others
/// are left out.
pub proof fn converted_values_are_routed(values: Seq<(MatchedValue, Option<NGValue>)>)
    ensures
        routed(values) == values.filter(|x: (MatchedValue, Option<NGValue>)| x.1 is Some).map_values(
            |x: (MatchedValue, Option<NGValue>)|
                RoutedValue {
                    device_id: x.0.meta.device_id,
                    kind: x.0.meta.kind,
                    value: PointValue {
                        point_id: x.0.meta.point_id,
                        point_key: x.0.meta.point_key,
                        value: x.1->0,
                    },
                },
        ),
    decreases values.len(),
{
    reveal(Seq::filter);
    let ok = |x: (MatchedValue, Option<NGValue>)| x.1 is Some;
    let route = |x: (MatchedValue, Option<NGValue>)|
        RoutedValue {
            device_id: x.0.meta.device_id,
            kind: x.0.meta.kind,
            value: PointValue {
                point_id: x.0.meta.point_id,
                point_key: x.0.meta.point_key,
                value: x.1->0,
            },
        };
    if values.len() > 0 {
        converted_values_are_routed(values.drop_last());
        let front = values.drop_last().filter(ok);
        assert(front.push(values.last()).map_values(route) =~= front.map_values(route).push(
            route(values.last()),
        ));
    } else {
        assert(values.filter(ok).map_values(route) =~= Seq::empty());
    }
}

} // verus!
