//! Which objects the driver knows of, and what it knows of them.

use super::points::{mapping, meta_of, packed, packed_keys_are_distinct, MetaData, Snapshot};
use super::types::{Iec104Device, Iec104Point};
use vstd::prelude::*;

verus! {

/// What the driver knows of a point is what is configured for it and for its
/// device.
pub proof fn points_are_known_as_configured(d: Iec104Device, p: Iec104Point)
    ensures
        meta_of(d, p).point_id == p.id,
        meta_of(d, p).point_key == p.key@,
        meta_of(d, p).data_type == p.data_type,
        meta_of(d, p).scale == p.scale,
        meta_of(d, p).kind == p.kind,
        meta_of(d, p).device_id == d.id,
        meta_of(d, p).device_name == d.device_name@,
{
}

/// Adding or removing a point concerns its own place alone.
pub proof fn points_concern_their_own_place(
    s: Snapshot,
    d: Iec104Device,
    p: Iec104Point,
    ioa: u16,
    type_id: u8,
)
    requires
        ioa != p.ioa || type_id != p.type_id,
    ensures
        ({
            let key = packed(ioa, type_id);
            let with = s.with_point(d, p).points;
            let without = s.without_point(d, p).points;
            &&& with.contains_key(key) <==> s.points.contains_key(key)
            &&& s.points.contains_key(key) ==> with[key] == s.points[key]
            &&& without.contains_key(key) <==> s.points.contains_key(key)
            &&& s.points.contains_key(key) ==> without[key] == s.points[key]
        }),
{
    packed_keys_are_distinct(ioa, type_id, p.ioa, p.type_id);
}

/// An update of a point concerns the place where it is now and the one where
/// it was, and no other.
pub proof fn updates_concern_their_own_places(
    s: Snapshot,
    d: Iec104Device,
    p: Iec104Point,
    ioa: u16,
    type_id: u8,
)
    requires
        ioa != p.ioa || type_id != p.type_id,
    ensures
        ({
            let key = packed(ioa, type_id);
            let after = s.with_update(d, p).points;
            if s.ids.contains_key(p.id) && s.ids[p.id] == key {
                !after.contains_key(key)
            } else {
                &&& after.contains_key(key) <==> s.points.contains_key(key)
                &&& s.points.contains_key(key) ==> after[key] == s.points[key]
            }
        }),
{
    packed_keys_are_distinct(ioa, type_id, p.ioa, p.type_id);
}

/// The identifier of a point that is added leads to its place, and that of one
/// that is removed leads nowhere; all others lead where they led.
pub proof fn identifiers_lead_to_their_points(
    s: Snapshot,
    d: Iec104Device,
    p: Iec104Point,
    id: i32,
)
    ensures
        !s.is_taken(d.id, packed(p.ioa, p.type_id)) ==> s.with_point(d, p).ids.contains_key(p.id)
            && s.with_point(d, p).ids[p.id] == packed(p.ioa, p.type_id),
        !s.without_point(d, p).ids.contains_key(p.id),
        id != p.id ==> {
            &&& s.with_point(d, p).ids.contains_key(id) <==> s.ids.contains_key(id)
            &&& s.ids.contains_key(id) ==> s.with_point(d, p).ids[id] == s.ids[id]
            &&& s.without_point(d, p).ids.contains_key(id) <==> s.ids.contains_key(id)
            &&& s.ids.contains_key(id) ==> s.without_point(d, p).ids[id] == s.ids[id]
        },
{
}


proof fn lemma_with_points(s: Snapshot, d: Iec104Device, ps: Seq<Iec104Point>, ioa: u16, t: u8)
    ensures
        ({
            let key = packed(ioa, t);
            let after = s.with_points(d, ps);
            let named = exists|j: int|
                0 <= j < ps.len() && (#[trigger] ps[j]).ioa == ioa && ps[j].type_id == t;
            &&& after.points.contains_key(key) <==> s.points.contains_key(key) || named
            &&& s.is_taken(d.id, key) ==> after.points[key] == s.points[key]
            &&& !s.is_taken(d.id, key) && named ==> exists|j: int|
                #![trigger ps[j]]
                0 <= j < ps.len() && ps[j].ioa == ioa && ps[j].type_id == t && after.points[key]
                    == meta_of(d, ps[j])
            &&& !named && s.points.contains_key(key) ==> after.points[key] == s.points[key]
        }),
    decreases ps.len(),
{
    if ps.len() > 0 {
        let front = ps.drop_last();
        let p = ps.last();
        lemma_with_points(s, d, front, ioa, t);
        packed_keys_are_distinct(ioa, t, p.ioa, p.type_id);
        assert forall|j: int| 0 <= j < front.len() implies front[j] == #[trigger] ps[j] by {}
        assert(ps[ps.len() - 1] == p);
    }
}

/// A device that is listed at place `i` has a point of this address and type,
/// under this common address.
pub open spec fn claims(
    devices: Seq<Iec104Device>,
    points: Map<i32, Vec<Iec104Point>>,
    ca: u16,
    ioa: u16,
    type_id: u8,
    i: int,
) -> bool {
    &&& 0 <= i < devices.len()
    &&& devices[i].ca == ca
    &&& points.contains_key(devices[i].id)
    &&& exists|j: int|
        0 <= j < points[devices[i].id]@.len() && (#[trigger] points[devices[i].id]@[j]).ioa == ioa
            && points[devices[i].id]@[j].type_id == type_id
}

/// What is known of an object is the point at place `j` of the device at
/// place `i`.
pub open spec fn is_known_from(
    m: MetaData,
    devices: Seq<Iec104Device>,
    points: Map<i32, Vec<Iec104Point>>,
    ioa: u16,
    type_id: u8,
    i: int,
    j: int,
) -> bool {
    &&& 0 <= i < devices.len()
    &&& 0 <= j < points[devices[i].id]@.len()
    &&& points[devices[i].id]@[j].ioa == ioa
    &&& points[devices[i].id]@[j].type_id == type_id
    &&& m == meta_of(devices[i], points[devices[i].id]@[j])
}

/// The driver knows of an object exactly where one of the devices at its
/// common address has a point of that address and type, and what it knows is
/// one of these points; where several devices claim the object it is one of
/// the first of them.
pub proof fn configured_points_are_known(
    devices: Seq<Iec104Device>,
    points: Map<i32, Vec<Iec104Point>>,
    ca: u16,
    ioa: u16,
    type_id: u8,
)
    ensures
        ({
            let known = mapping(devices, points, ca).points;
            let key = packed(ioa, type_id);
            &&& known.contains_key(key) <==> exists|i: int| #[trigger]
                claims(devices, points, ca, ioa, type_id, i)
            &&& known.contains_key(key) ==> exists|i: int, j: int|
                #![trigger is_known_from(known[key], devices, points, ioa, type_id, i, j)]
                claims(devices, points, ca, ioa, type_id, i) && is_known_from(
                    known[key],
                    devices,
                    points,
                    ioa,
                    type_id,
                    i,
                    j,
                )
            &&& forall|i: int| #[trigger]
                claims(devices, points, ca, ioa, type_id, i) && (forall|k: int|
                    0 <= k < i ==> !#[trigger] claims(devices, points, ca, ioa, type_id, k))
                    ==> known[key].device_id == devices[i].id
        }),
    decreases devices.len(),
{
    if devices.len() > 0 {
        let key = packed(ioa, type_id);
        let known = mapping(devices, points, ca).points;
        let front = devices.drop_last();
        let d = devices.last();
        let n = front.len() as int;
        let before = mapping(front, points, ca);
        configured_points_are_known(front, points, ca, ioa, type_id);
        assert(devices[n] == d);
        assert forall|i: int| i < n implies #[trigger] claims(devices, points, ca, ioa, type_id, i)
            == claims(front, points, ca, ioa, type_id, i) by {
            if 0 <= i < n {
                assert(front[i] == devices[i]);
            }
        }
        assert forall|i: int| i < n && claims(front, points, ca, ioa, type_id, i)
            implies #[trigger] claims(devices, points, ca, ioa, type_id, i) by {}
        let own = d.ca == ca && points.contains_key(d.id);
        if own {
            lemma_with_points(before, d, points[d.id]@, ioa, type_id);
        }
        let named = claims(devices, points, ca, ioa, type_id, n);
        let taken = before.is_taken(d.id, key);
        if before.points.contains_key(key) {
            let i = choose|i: int| claims(front, points, ca, ioa, type_id, i);
            assert(claims(devices, points, ca, ioa, type_id, i));
        }
        if exists|i: int| claims(devices, points, ca, ioa, type_id, i) {
            let i = choose|i: int| claims(devices, points, ca, ioa, type_id, i);
            if i < n {
                assert(claims(front, points, ca, ioa, type_id, i));
            }
        }
        if known.contains_key(key) {
            if named && !taken {
                let ps = points[d.id]@;
                let j = choose|j: int|
                    #![trigger ps[j]]
                    0 <= j < ps.len() && ps[j].ioa == ioa && ps[j].type_id == type_id && known[key]
                        == meta_of(d, ps[j]);
                assert(is_known_from(known[key], devices, points, ioa, type_id, n, j));
            } else {
                assert(known[key] == before.points[key]);
                let (i, j) = choose|i: int, j: int|
                    #![trigger is_known_from(known[key], front, points, ioa, type_id, i, j)]
                    claims(front, points, ca, ioa, type_id, i) && is_known_from(
                        known[key],
                        front,
                        points,
                        ioa,
                        type_id,
                        i,
                        j,
                    );
                assert(front[i] == devices[i]);
                assert(claims(devices, points, ca, ioa, type_id, i));
                assert(is_known_from(known[key], devices, points, ioa, type_id, i, j));
            }
        }
        assert forall|i: int| #[trigger]
            claims(devices, points, ca, ioa, type_id, i) && (forall|k: int|
                0 <= k < i ==> !#[trigger] claims(
                    devices,
                    points,
                    ca,
                    ioa,
                    type_id,
                    k,
                )) implies known[key].device_id == devices[i].id by {
            if i < n {
                assert(claims(front, points, ca, ioa, type_id, i));
                assert forall|k: int| 0 <= k < i implies !#[trigger] claims(
                    front,
                    points,
                    ca,
                    ioa,
                    type_id,
                    k,
                ) by {
                    assert(!claims(devices, points, ca, ioa, type_id, k));
                }
                assert(before.points[key].device_id == front[i].id);
                assert(front[i] == devices[i]);
            } else {
                if before.points.contains_key(key) {
                    let k = choose|k: int| claims(front, points, ca, ioa, type_id, k);
                    assert(claims(devices, points, ca, ioa, type_id, k));
                }
            }
        }
    }
}

} // verus!
