//! Values on their way to the gateway: which device and channel each of them
//! reaches, and how requests are counted and timed.

use crate::gateway::{
    counted, moved_average, published, published_all, values_for, write_timeout_spec, AccessMode,
    DataPointType, DeviceBuffers, NGValue, PublicationData, RoutedValue,
};
use vstd::prelude::*;

verus! {

/// A device gets on each channel the values that are routed to it there: those
/// and no others, in the order in which they came.
pub proof fn devices_get_the_values_routed_to_them(
    values: Seq<RoutedValue>,
    device_id: i32,
    kind: DataPointType,
)
    ensures
        values_for(values, device_id, kind) == values.filter(
            |v: RoutedValue| v.device_id == device_id && v.kind == kind,
        ).map_values(|v: RoutedValue| v.value),
    decreases values.len(),
{
    reveal(Seq::filter);
    let mine = |v: RoutedValue| v.device_id == device_id && v.kind == kind;
    let value = |v: RoutedValue| v.value;
    if values.len() > 0 {
        devices_get_the_values_routed_to_them(values.drop_last(), device_id, kind);
        let front = values.drop_last().filter(mine);
        assert(values.filter(mine) == if mine(values.last()) {
            front.push(values.last())
        } else {
            front
        });
        assert(front.push(values.last()).map_values(value) =~= front.map_values(value).push(
            values.last().value,
        ));
    } else {
        assert(values.filter(mine).map_values(value) =~= Seq::empty());
    }
}

/// A value of a device goes to exactly one of its two channels.
pub proof fn every_value_has_one_channel(values: Seq<RoutedValue>, device_id: i32)
    ensures
        values_for(values, device_id, DataPointType::Telemetry).len() + values_for(
            values,
            device_id,
            DataPointType::Attribute,
        ).len() == values.filter(|v: RoutedValue| v.device_id == device_id).len(),
    decreases values.len(),
{
    reveal(Seq::filter);
    if values.len() > 0 {
        every_value_has_one_channel(values.drop_last(), device_id);
    }
}

/// Every publication holds the values of one channel of one device, and they
/// are not empty; and every channel with values is published.
pub proof fn publications_are_the_channels_with_values(bufs: Seq<DeviceBuffers>)
    ensures
        forall|k: int|
            #![trigger published_all(bufs)[k]]
            0 <= k < published_all(bufs).len() ==> exists|j: int|
                #![trigger bufs[j]]
                0 <= j < bufs.len() && is_channel_of(published_all(bufs)[k], bufs[j]),
        forall|j: int|
            #![trigger bufs[j]]
            0 <= j < bufs.len() && bufs[j].telemetry@.len() > 0 ==> published_all(bufs).contains(
                PublicationData {
                    device_id: bufs[j].device_id,
                    device_name: bufs[j].device_name@,
                    kind: DataPointType::Telemetry,
                    values: bufs[j].telemetry@,
                },
            ),
        forall|j: int|
            #![trigger bufs[j]]
            0 <= j < bufs.len() && bufs[j].attributes@.len() > 0 ==> published_all(bufs).contains(
                PublicationData {
                    device_id: bufs[j].device_id,
                    device_name: bufs[j].device_name@,
                    kind: DataPointType::Attribute,
                    values: bufs[j].attributes@,
                },
            ),
    decreases bufs.len(),
{
    if bufs.len() > 0 {
        let front = bufs.drop_last();
        let b = bufs.last();
        publications_are_the_channels_with_values(front);
        let x = published_all(front);
        let y = published(b, DataPointType::Telemetry);
        let z = published(b, DataPointType::Attribute);
        let all = published_all(bufs);
        assert(all == x + y + z);
        assert(bufs[bufs.len() - 1] == b);
        assert forall|k: int| #![trigger all[k]] 0 <= k < all.len() implies exists|j: int|
            #![trigger bufs[j]]
            0 <= j < bufs.len() && is_channel_of(all[k], bufs[j]) by {
            if k < x.len() {
                assert(all[k] == x[k]);
                let j = choose|j: int|
                    #![trigger front[j]]
                    0 <= j < front.len() && is_channel_of(x[k], front[j]);
                assert(bufs[j] == front[j]);
            } else {
                assert(is_channel_of(all[k], bufs[bufs.len() - 1]));
            }
        }
        assert forall|p: PublicationData| x.contains(p) implies all.contains(p) by {
            let k = choose|k: int| 0 <= k < x.len() && x[k] == p;
            assert(all[k] == p);
        }
        if b.telemetry@.len() > 0 {
            assert(all[x.len() as int] == y[0]);
        }
        if b.attributes@.len() > 0 {
            assert(all[(x + y).len() as int] == z[0]);
        }
        assert forall|j: int|
            #![trigger bufs[j]]
            0 <= j < bufs.len() && bufs[j].telemetry@.len() > 0 implies all.contains(
            PublicationData {
                device_id: bufs[j].device_id,
                device_name: bufs[j].device_name@,
                kind: DataPointType::Telemetry,
                values: bufs[j].telemetry@,
            },
        ) by {
            if j < front.len() {
                assert(front[j] == bufs[j]);
            }
        }
        assert forall|j: int|
            #![trigger bufs[j]]
            0 <= j < bufs.len() && bufs[j].attributes@.len() > 0 implies all.contains(
            PublicationData {
                device_id: bufs[j].device_id,
                device_name: bufs[j].device_name@,
                kind: DataPointType::Attribute,
                values: bufs[j].attributes@,
            },
        ) by {
            if j < front.len() {
                assert(front[j] == bufs[j]);
            }
        }
    }
}

/// The publication holds the values of a channel of the device.
pub open spec fn is_channel_of(p: PublicationData, b: DeviceBuffers) -> bool {
    &&& p.device_id == b.device_id
    &&& p.device_name == b.device_name@
    &&& p.values.len() > 0
    &&& p.kind is Telemetry ==> p.values == b.telemetry@
    &&& p.kind is Attribute ==> p.values == b.attributes@
}

/// The first response time is the average; every further one moves it by a
/// tenth of the difference, rounded down. Counters go up by one and turn over
/// at 64 bits.
pub proof fn averages_move_by_a_tenth(prev: u64, elapsed_ms: u64, n: u64)
    requires
        prev * 9 + elapsed_ms <= u64::MAX,
    ensures
        prev == 0 ==> moved_average(prev, elapsed_ms) == elapsed_ms,
        prev > 0 ==> 10 * moved_average(prev, elapsed_ms) <= 9 * prev + elapsed_ms < 10
            * moved_average(prev, elapsed_ms) + 10,
        n < u64::MAX ==> counted(n) == n + 1,
        counted(u64::MAX) == 0,
{
}

/// A write may take what is asked for, else what the policy says, and at least
/// a millisecond.
pub proof fn writes_take_their_time(asked_ms: u64, policy_ms: u64)
    ensures
        asked_ms > 0 ==> write_timeout_spec(Some(asked_ms), policy_ms) == asked_ms,
        policy_ms > 0 ==> write_timeout_spec(None, policy_ms) == policy_ms,
        write_timeout_spec(Some(0), policy_ms) == 1,
        write_timeout_spec(None, 0) == 1,
{
}

/// Points are readable and writeable as their access mode says.
pub proof fn access_modes()
    ensures
        AccessMode::Read.readable_spec() && !AccessMode::Read.writeable_spec(),
        !AccessMode::Write.readable_spec() && AccessMode::Write.writeable_spec(),
        AccessMode::ReadWrite.readable_spec() && AccessMode::ReadWrite.writeable_spec(),
{
}

/// The data type of a value is that of its variant.
pub proof fn values_have_their_type(v: NGValue)
    ensures
        v is Boolean <==> v.type_spec() is Boolean,
        v is Int8 <==> v.type_spec() is Int8,
        v is UInt8 <==> v.type_spec() is UInt8,
        v is Int16 <==> v.type_spec() is Int16,
        v is UInt16 <==> v.type_spec() is UInt16,
        v is Int32 <==> v.type_spec() is Int32,
        v is UInt32 <==> v.type_spec() is UInt32,
        v is Int64 <==> v.type_spec() is Int64,
        v is UInt64 <==> v.type_spec() is UInt64,
        v is Float32 <==> v.type_spec() is Float32,
        v is Float64 <==> v.type_spec() is Float64,
        v is String <==> v.type_spec() is String,
        v is Binary <==> v.type_spec() is Binary,
        v is Timestamp <==> v.type_spec() is Timestamp,
{
}

} // verus!
