//! The points of a channel: for each common address, which point an
//! information object belongs to.

use super::types::{Iec104Device, Iec104Point};
use crate::gateway::{DataPointType, DataType};
use dashmap::DashMap;
use std::collections::HashMap;
use std::sync::Arc;
use vstd::prelude::*;

verus! {

broadcast use vstd::std_specs::hash::group_hash_axioms;

/// What the driver knows of a point.
#[derive(Debug, Clone)]
pub struct PointMeta {
    pub point_id: i32,
    pub device_id: i32,
    pub device_name: String,
    /// Stable point key within the device.
    pub point_key: String,
    pub data_type: DataType,
    /// Scale of the values, as the bit pattern of a floating-point number.
    pub scale: Option<u64>,
    /// Channel on which values are published.
    pub kind: DataPointType,
}

/// `PointMeta` as mathematical data.
pub struct MetaData {
    pub point_id: i32,
    pub device_id: i32,
    pub device_name: Seq<char>,
    pub point_key: Seq<char>,
    pub data_type: DataType,
    pub scale: Option<u64>,
    pub kind: DataPointType,
}

impl View for PointMeta {
    type V = MetaData;

    open spec fn view(&self) -> MetaData {
        MetaData {
            point_id: self.point_id,
            device_id: self.device_id,
            device_name: self.device_name@,
            point_key: self.point_key@,
            data_type: self.data_type,
            scale: self.scale,
            kind: self.kind,
        }
    }
}

impl PointMeta {
    /// The same again.
    pub fn copy(&self) -> (r: Self)
        ensures
            r@ == self@,
    {
        PointMeta {
            point_id: self.point_id,
            device_id: self.device_id,
            device_name: self.device_name.clone(),
            point_key: self.point_key.clone(),
            data_type: self.data_type,
            scale: self.scale,
            kind: self.kind,
        }
    }
}

/// What the driver knows of a point of a device.
pub open spec fn meta_of(d: Iec104Device, p: Iec104Point) -> MetaData {
    MetaData {
        point_id: p.id,
        device_id: d.id,
        device_name: d.device_name@,
        point_key: p.key@,
        data_type: p.data_type,
        scale: p.scale,
        kind: p.kind,
    }
}

fn meta(d: &Iec104Device, p: &Iec104Point) -> (r: PointMeta)
    ensures
        r@ == meta_of(*d, *p),
{
    PointMeta {
        point_id: p.id,
        device_id: d.id,
        device_name: d.device_name.clone(),
        point_key: p.key.clone(),
        data_type: p.data_type,
        scale: p.scale,
        kind: p.kind,
    }
}

/// Type and address of an information object as one number: the type above
/// the 16 bits of the address.
pub open spec fn packed(ioa: u16, type_id: u8) -> u32 {
    (type_id * 65536 + ioa) as u32
}

/// Type and address of an information object as one number.
pub fn pack_key(ioa: u16, type_id: u8) -> (r: u32)
    ensures
        r == packed(ioa, type_id),
{
    type_id as u32 * 65536 + ioa as u32
}

/// Objects have the same number only where type and address are the same.
pub proof fn packed_keys_are_distinct(ioa1: u16, type1: u8, ioa2: u16, type2: u8)
    ensures
        packed(ioa1, type1) == packed(ioa2, type2) <==> ioa1 == ioa2 && type1 == type2,
{
}

/// The points of a common address.
#[derive(Debug, Clone)]
pub struct CaSnapshot {
    /// Points by type and address.
    points: HashMap<u32, PointMeta>,
    /// Type and address by point identifier.
    id_index: HashMap<i32, u32>,
}

/// `CaSnapshot` as mathematical data.
pub struct Snapshot {
    pub points: Map<u32, MetaData>,
    pub ids: Map<i32, u32>,
}

impl View for CaSnapshot {
    type V = Snapshot;

    closed spec fn view(&self) -> Snapshot {
        Snapshot {
            points: self.points@.map_values(|m: PointMeta| m@),
            ids: self.id_index@,
        }
    }
}

/// No points.
pub open spec fn no_points() -> Snapshot {
    Snapshot { points: Map::empty(), ids: Map::empty() }
}

impl Snapshot {
    /// Another device has a point of this type and address.
    pub open spec fn is_taken(self, device_id: i32, key: u32) -> bool {
        self.points.contains_key(key) && self.points[key].device_id != device_id
    }

    /// With a point of a device; the first device to claim a type and address
    /// keeps it.
    pub open spec fn with_point(self, d: Iec104Device, p: Iec104Point) -> Snapshot {
        let key = packed(p.ioa, p.type_id);
        if self.is_taken(d.id, key) {
            self
        } else {
            Snapshot {
                points: self.points.insert(key, meta_of(d, p)),
                ids: self.ids.insert(p.id, key),
            }
        }
    }

    /// Without what a point had before, where that was elsewhere.
    pub open spec fn moved(self, p: Iec104Point) -> Snapshot {
        if self.ids.contains_key(p.id) && self.ids[p.id] != packed(p.ioa, p.type_id) {
            Snapshot { points: self.points.remove(self.ids[p.id]), ..self }
        } else {
            self
        }
    }

    /// With a point as it is now.
    pub open spec fn with_update(self, d: Iec104Device, p: Iec104Point) -> Snapshot {
        self.moved(p).with_point(d, p)
    }

    /// Without a point of a device.
    pub open spec fn without_point(self, d: Iec104Device, p: Iec104Point) -> Snapshot {
        let key = packed(p.ioa, p.type_id);
        Snapshot {
            points: if self.points.contains_key(key) && self.points[key].device_id == d.id {
                self.points.remove(key)
            } else {
                self.points
            },
            ids: self.ids.remove(p.id),
        }
    }

    /// With points of a device, one after the other.
    pub open spec fn with_points(self, d: Iec104Device, ps: Seq<Iec104Point>) -> Snapshot
        decreases ps.len(),
    {
        if ps.len() == 0 {
            self
        } else {
            self.with_points(d, ps.drop_last()).with_point(d, ps.last())
        }
    }

    /// With points as they are now, one after the other.
    pub open spec fn with_updates(self, d: Iec104Device, ps: Seq<Iec104Point>) -> Snapshot
        decreases ps.len(),
    {
        if ps.len() == 0 {
            self
        } else {
            self.with_updates(d, ps.drop_last()).with_update(d, ps.last())
        }
    }

    /// Without points of a device, one after the other.
    pub open spec fn without_points(self, d: Iec104Device, ps: Seq<Iec104Point>) -> Snapshot
        decreases ps.len(),
    {
        if ps.len() == 0 {
            self
        } else {
            self.without_points(d, ps.drop_last()).without_point(d, ps.last())
        }
    }

    /// With the changes of a device's points: those that were added, then
    /// those that were updated, then those that were removed.
    pub open spec fn changed(
        self,
        d: Iec104Device,
        added: Seq<Iec104Point>,
        updated: Seq<Iec104Point>,
        removed: Seq<Iec104Point>,
    ) -> Snapshot {
        self.with_points(d, added).with_updates(d, updated).without_points(d, removed)
    }

    /// No device but this one has points.
    pub open spec fn belongs_to(self, device_id: i32) -> bool {
        forall|k: u32| #[trigger]
            self.points.contains_key(k) ==> self.points[k].device_id == device_id
    }

    /// Without the points of a device; the index keeps what leads to a point.
    pub open spec fn without_device(self, device_id: i32) -> Snapshot {
        let points = self.points.restrict(
            Set::new(
                |k: u32| self.points.contains_key(k) && self.points[k].device_id != device_id,
            ),
        );
        Snapshot {
            points,
            ids: self.ids.restrict(
                Set::new(|i: i32| self.ids.contains_key(i) && points.contains_key(self.ids[i])),
            ),
        }
    }
}

/// The keys of a map, each once.
fn keys_of<K: Copy, V>(m: &HashMap<K, V>) -> (r: Vec<K>)
    requires
        vstd::std_specs::hash::obeys_key_model::<K>(),
    ensures
        r@.to_set() == m@.dom(),
{
    let mut r: Vec<K> = Vec::new();
    for k in it: m.keys()
        invariant
            r@.len() == it.index(),
            forall|i: int|
                #![trigger r@[i]]
                #![trigger it.seq().unref()[i]]
                0 <= i < r@.len() ==> r@[i] == it.seq().unref()[i],
            it.seq().unref().to_set() == m@.dom(),
    {
        r.push(*k);
    }
    proof {
        assert forall|k: K| r@.to_set().contains(k) implies m@.dom().contains(k) by {
            let i = choose|i: int| 0 <= i < r@.len() && r@[i] == k;
            assert(r@[i] == k);
        }
        assert forall|k: K| m@.dom().contains(k) implies r@.to_set().contains(k) by {
            assert(r@.contains(k));
        }
        assert(r@.to_set() =~= m@.dom());
    }
    r
}

impl CaSnapshot {
    /// No points.
    pub fn new() -> (r: Self)
        ensures
            r@ == no_points(),
    {
        let r = CaSnapshot { points: HashMap::new(), id_index: HashMap::new() };
        proof {
            assert(r@.points =~= Map::empty());
        }
        r
    }

    /// The same again.
    pub fn copy(&self) -> (r: Self)
        ensures
            r@ == self@,
    {
        CaSnapshot { points: self.points.clone(), id_index: self.id_index.clone() }
    }

    /// The point of this type and address.
    pub fn find(&self, ioa: u16, type_id: u8) -> (r: Option<&PointMeta>)
        ensures
            match r {
                Some(m) => self@.points.contains_key(packed(ioa, type_id)) && self@.points[packed(
                    ioa,
                    type_id,
                )] == m@,
                None => !self@.points.contains_key(packed(ioa, type_id)),
            },
    {
        self.points.get(&pack_key(ioa, type_id))
    }

    fn is_taken(&self, device_id: i32, key: u32) -> (r: bool)
        ensures
            r == self@.is_taken(device_id, key),
    {
        match self.points.get(&key) {
            Some(m) => m.device_id != device_id,
            None => false,
        }
    }

    /// Add a point of a device. The first device to claim a type and address
    /// keeps it.
    pub fn add_point(&mut self, d: &Iec104Device, p: &Iec104Point)
        ensures
            final(self)@ == old(self)@.with_point(*d, *p),
    {
        let key: u32 = pack_key(p.ioa, p.type_id);
        if self.is_taken(d.id, key) {
            return;
        }
        let ghost before = *self;
        self.points.insert(key, meta(d, p));
        self.id_index.insert(p.id, key);
        proof {
            assert(self@.points =~= before@.points.insert(key, meta_of(*d, *p)));
        }
    }

    /// Take over a point as it is now.
    pub fn update_point(&mut self, d: &Iec104Device, p: &Iec104Point)
        ensures
            final(self)@ == old(self)@.with_update(*d, *p),
    {
        let key: u32 = pack_key(p.ioa, p.type_id);
        let ghost before = *self;
        let old_key: Option<u32> = match self.id_index.get(&p.id) {
            Some(k) => Some(*k),
            None => None,
        };
        if let Some(k) = old_key {
            if k != key {
                self.points.remove(&k);
                proof {
                    assert(self@.points =~= before@.points.remove(k));
                }
            }
        }
        proof {
            assert(self@ == before@.moved(*p));
        }
        self.add_point(d, p);
    }

    /// Remove a point of a device.
    pub fn remove_point(&mut self, d: &Iec104Device, p: &Iec104Point)
        ensures
            final(self)@ == old(self)@.without_point(*d, *p),
    {
        let key: u32 = pack_key(p.ioa, p.type_id);
        let ghost before = *self;
        self.id_index.remove(&p.id);
        let own: bool = match self.points.get(&key) {
            Some(m) => m.device_id == d.id,
            None => false,
        };
        if own {
            self.points.remove(&key);
            proof {
                assert(self@.points =~= before@.points.remove(key));
            }
        }
    }

    /// Add points of a device.
    pub fn add_points(&mut self, d: &Iec104Device, ps: &Vec<Iec104Point>)
        ensures
            final(self)@ == old(self)@.with_points(*d, ps@),
    {
        let ghost before = self@;
        for i in 0..ps.len()
            invariant
                self@ == before.with_points(*d, ps@.take(i as int)),
        {
            self.add_point(d, &ps[i]);
            assert(ps@.take(i + 1).drop_last() =~= ps@.take(i as int));
        }
        assert(ps@.take(ps@.len() as int) =~= ps@);
    }

    /// Carry out the changes of a device's points.
    pub fn change_points(
        &mut self,
        d: &Iec104Device,
        added: &Vec<Iec104Point>,
        updated: &Vec<Iec104Point>,
        removed: &Vec<Iec104Point>,
    )
        ensures
            final(self)@ == old(self)@.changed(*d, added@, updated@, removed@),
    {
        self.add_points(d, added);
        let ghost s1 = self@;
        for i in 0..updated.len()
            invariant
                self@ == s1.with_updates(*d, updated@.take(i as int)),
        {
            self.update_point(d, &updated[i]);
            assert(updated@.take(i + 1).drop_last() =~= updated@.take(i as int));
        }
        assert(updated@.take(updated@.len() as int) =~= updated@);
        let ghost s2 = self@;
        for i in 0..removed.len()
            invariant
                self@ == s2.without_points(*d, removed@.take(i as int)),
        {
            self.remove_point(d, &removed[i]);
            assert(removed@.take(i + 1).drop_last() =~= removed@.take(i as int));
        }
        assert(removed@.take(removed@.len() as int) =~= removed@);
    }

    /// Whether no device but this one has points.
    pub fn has_only(&self, device_id: i32) -> (r: bool)
        ensures
            r == self@.belongs_to(device_id),
    {
        let keys = keys_of(&self.points);
        for i in 0..keys.len()
            invariant
                keys@.to_set() == self.points@.dom(),
                forall|j: int|
                    0 <= j < i ==> self.points@[#[trigger] keys@[j]].device_id == device_id,
        {
            let key: u32 = keys[i];
            assert(keys@.to_set().contains(key));
            if let Some(m) = self.points.get(&key) {
                if m.device_id != device_id {
                    assert(self@.points.contains_key(key));
                    return false;
                }
            }
        }
        proof {
            assert forall|k: u32| #[trigger] self@.points.contains_key(k) implies self@.points[k].device_id
                == device_id by {
                assert(keys@.to_set().contains(k));
                let j = choose|j: int| 0 <= j < keys@.len() && keys@[j] == k;
                assert(self.points@[keys@[j]].device_id == device_id);
            }
        }
        true
    }

    /// Remove the points of a device.
    pub fn remove_device(&mut self, device_id: i32)
        ensures
            final(self)@ == old(self)@.without_device(device_id),
    {
        let ghost before = *self;
        let keys = keys_of(&self.points);
        for i in 0..keys.len()
            invariant
                keys@.to_set() == before.points@.dom(),
                self.id_index == before.id_index,
                forall|k: u32| #[trigger]
                    self.points@.contains_key(k) <==> before.points@.contains_key(k) && !(
                    before.points@[k].device_id == device_id && keys@.take(i as int).contains(k)),
                forall|k: u32| #[trigger]
                    self.points@.contains_key(k) ==> self.points@[k] == before.points@[k],
        {
            let key: u32 = keys[i];
            proof {
                assert(keys@.to_set().contains(key));
                assert(keys@.take(i + 1) =~= keys@.take(i as int).push(key));
                assert forall|k: u32| keys@.take(i + 1).contains(k) <==> keys@.take(
                    i as int,
                ).contains(k) || k == key by {
                    let a = keys@.take(i as int);
                    if a.contains(k) {
                        let j = choose|j: int| 0 <= j < a.len() && a[j] == k;
                        assert(keys@.take(i + 1)[j] == k);
                    }
                    assert(keys@.take(i + 1)[i as int] == key);
                }
            }
            let own: bool = match self.points.get(&key) {
                Some(m) => m.device_id == device_id,
                None => false,
            };
            if own {
                self.points.remove(&key);
            }
        }
        proof {
            assert(keys@.take(keys@.len() as int) =~= keys@);
            assert forall|k: u32| #[trigger]
                self.points@.contains_key(k) <==> before.points@.contains_key(k)
                    && before.points@[k].device_id != device_id by {
                if before.points@.contains_key(k) {
                    assert(keys@.to_set().contains(k));
                    assert(keys@.contains(k));
                }
            }
            assert(self@.points =~= before@.without_device(device_id).points);
        }
        let ghost mid = *self;
        let ids = keys_of(&self.id_index);
        for i in 0..ids.len()
            invariant
                ids@.to_set() == before.id_index@.dom(),
                self.points == mid.points,
                forall|k: i32| #[trigger]
                    self.id_index@.contains_key(k) <==> before.id_index@.contains_key(k) && !(
                    !mid.points@.contains_key(before.id_index@[k]) && ids@.take(i as int).contains(
                        k,
                    )),
                forall|k: i32| #[trigger]
                    self.id_index@.contains_key(k) ==> self.id_index@[k] == before.id_index@[k],
        {
            let id: i32 = ids[i];
            proof {
                assert(ids@.to_set().contains(id));
                assert forall|k: i32| ids@.take(i + 1).contains(k) <==> ids@.take(
                    i as int,
                ).contains(k) || k == id by {
                    let a = ids@.take(i as int);
                    if a.contains(k) {
                        let j = choose|j: int| 0 <= j < a.len() && a[j] == k;
                        assert(ids@.take(i + 1)[j] == k);
                    }
                    assert(ids@.take(i + 1)[i as int] == id);
                    assert(ids@.take(i + 1) =~= a.push(id));
                }
            }
            let lost: bool = match self.id_index.get(&id) {
                Some(k) => !self.points.contains_key(k),
                None => false,
            };
            if lost {
                self.id_index.remove(&id);
            }
        }
        proof {
            assert(ids@.take(ids@.len() as int) =~= ids@);
            assert forall|k: i32| #[trigger]
                self.id_index@.contains_key(k) <==> before.id_index@.contains_key(k)
                    && mid.points@.contains_key(before.id_index@[k]) by {
                if before.id_index@.contains_key(k) {
                    assert(ids@.to_set().contains(k));
                    assert(ids@.contains(k));
                }
            }
            assert(self@.ids =~= before@.without_device(device_id).ids);
        }
    }
}

/// The concurrent map of the `dashmap` crate.
#[verifier::external_type_specification]
#[verifier::external_body]
#[verifier::reject_recursive_types(K)]
#[verifier::reject_recursive_types(V)]
#[verifier::reject_recursive_types(S)]
pub struct ExDashMap<K, V, S>(DashMap<K, V, S>);

/// What a map holds.
pub uninterp spec fn held(m: DashMap<u16, Arc<CaSnapshot>>) -> Map<u16, Arc<CaSnapshot>>;

/// `DashMap::new`: a map that holds nothing.
#[verifier::external_body]
fn map_new() -> (r: DashMap<u16, Arc<CaSnapshot>>)
    ensures
        held(r).is_empty(),
{
    DashMap::new()
}

/// `DashMap::get`: the value under a key, if there is one.
#[verifier::external_body]
fn map_get(m: &DashMap<u16, Arc<CaSnapshot>>, key: u16) -> (r: Option<Arc<CaSnapshot>>)
    ensures
        r == if held(*m).contains_key(key) {
            Some(held(*m)[key])
        } else {
            None
        },
{
    m.get(&key).map(|entry| entry.value().clone())
}

/// `DashMap::insert`: the key gets this value; the others keep theirs.
#[verifier::external_body]
fn map_insert(m: &mut DashMap<u16, Arc<CaSnapshot>>, key: u16, value: Arc<CaSnapshot>)
    ensures
        held(*final(m)) == held(*old(m)).insert(key, value),
{
    m.insert(key, value);
}

/// `DashMap::remove`: the key has no value any more; the others keep theirs.
#[verifier::external_body]
fn map_remove(m: &mut DashMap<u16, Arc<CaSnapshot>>, key: u16)
    ensures
        held(*final(m)) == held(*old(m)).remove(key),
{
    m.remove(&key);
}

/// `DashMap::iter`: every key once, in no particular order.
#[verifier::external_body]
fn map_keys(m: &DashMap<u16, Arc<CaSnapshot>>) -> (r: Vec<u16>)
    ensures
        r@.no_duplicates(),
        r@.to_set() == held(*m).dom(),
{
    m.iter().map(|entry| *entry.key()).collect()
}

/// The points of all common addresses of a channel.
pub struct Registry {
    map: DashMap<u16, Arc<CaSnapshot>>,
}

impl View for Registry {
    type V = Map<u16, Snapshot>;

    closed spec fn view(&self) -> Map<u16, Snapshot> {
        held(self.map).map_values(|s: Arc<CaSnapshot>| s@)
    }
}

/// The points of a common address; none where the address is unknown.
pub open spec fn points_at(r: Map<u16, Snapshot>, ca: u16) -> Snapshot {
    if r.contains_key(ca) {
        r[ca]
    } else {
        no_points()
    }
}

impl Registry {
    /// No common addresses.
    pub fn new() -> (r: Self)
        ensures
            r@ == Map::<u16, Snapshot>::empty(),
    {
        let r = Registry { map: map_new() };
        assert(r@ =~= Map::empty());
        r
    }

    /// The points of a common address, as they are now.
    pub fn get(&self, ca: u16) -> (r: Option<Arc<CaSnapshot>>)
        ensures
            match r {
                Some(s) => self@.contains_key(ca) && self@[ca] == s@,
                None => !self@.contains_key(ca),
            },
    {
        map_get(&self.map, ca)
    }

    /// The common addresses, in no particular order.
    pub fn addresses(&self) -> (r: Vec<u16>)
        ensures
            r@.no_duplicates(),
            r@.to_set() == self@.dom(),
    {
        let r = map_keys(&self.map);
        assert(held(self.map).dom() =~= self@.dom());
        r
    }

    fn put(&mut self, ca: u16, s: CaSnapshot)
        ensures
            final(self)@ == old(self)@.insert(ca, s@),
    {
        let ghost before = *self;
        map_insert(&mut self.map, ca, Arc::new(s));
        assert(self@ =~= before@.insert(ca, s@));
    }

    fn remove(&mut self, ca: u16)
        ensures
            final(self)@ == old(self)@.remove(ca),
    {
        let ghost before = *self;
        map_remove(&mut self.map, ca);
        assert(self@ =~= before@.remove(ca));
    }
}

/// The points of the devices with a common address, in the order of the
/// devices.
pub open spec fn mapping(
    devices: Seq<Iec104Device>,
    points: Map<i32, Vec<Iec104Point>>,
    ca: u16,
) -> Snapshot
    decreases devices.len(),
{
    if devices.len() == 0 {
        no_points()
    } else {
        let before = mapping(devices.drop_last(), points, ca);
        let d = devices.last();
        if d.ca == ca && points.contains_key(d.id) {
            before.with_points(d, points[d.id]@)
        } else {
            before
        }
    }
}

/// A device has this common address.
pub open spec fn has_address(devices: Seq<Iec104Device>, ca: u16) -> bool {
    exists|i: int| 0 <= i < devices.len() && (#[trigger] devices[i]).ca == ca
}

/// The snapshots under construction hold the points of a common address.
spec fn is_mapped(
    work: Map<u16, CaSnapshot>,
    devices: Seq<Iec104Device>,
    points: Map<i32, Vec<Iec104Point>>,
    ca: u16,
) -> bool {
    mapping(devices, points, ca) == if work.contains_key(ca) {
        work[ca]@
    } else {
        no_points()
    }
}

/// Map out the points of the devices of a channel. Devices that share a
/// common address share its points; where two claim the same type and
/// address, the first keeps it.
pub fn build_mappings(
    devices: &Vec<Iec104Device>,
    points_by_device: &HashMap<i32, Vec<Iec104Point>>,
) -> (r: Registry)
    ensures
        forall|ca: u16| #[trigger] r@.contains_key(ca) <==> has_address(devices@, ca),
        forall|ca: u16| #[trigger]
            r@.contains_key(ca) ==> r@[ca] == mapping(devices@, points_by_device@, ca),
{
    let ghost points = points_by_device@;
    let mut work: HashMap<u16, CaSnapshot> = HashMap::new();
    for i in 0..devices.len()
        invariant
            points == points_by_device@,
            forall|ca: u16| #[trigger]
                work@.contains_key(ca) <==> has_address(devices@.take(i as int), ca),
            forall|ca: u16|
                #![trigger work@.contains_key(ca)]
                is_mapped(work@, devices@.take(i as int), points, ca),
    {
        let d = &devices[i];
        let ghost seen = devices@.take(i as int);
        let ghost now = devices@.take(i + 1);
        let ghost before = work@;
        let mut s = match work.remove(&d.ca) {
            Some(s) => s,
            None => CaSnapshot::new(),
        };
        if let Some(ps) = points_by_device.get(&d.id) {
            s.add_points(d, ps);
        }
        work.insert(d.ca, s);
        proof {
            assert(now.drop_last() =~= seen);
            assert(now.last() == *d);
            assert forall|ca: u16| #[trigger] work@.contains_key(ca) <==> has_address(now, ca) by {
                if has_address(seen, ca) {
                    let k = choose|k: int| 0 <= k < seen.len() && (#[trigger] seen[k]).ca == ca;
                    assert(now[k].ca == ca);
                }
                if ca == d.ca {
                    assert(now[i as int].ca == ca);
                }
                if has_address(now, ca) {
                    let k = choose|k: int| 0 <= k < now.len() && (#[trigger] now[k]).ca == ca;
                    if k < i {
                        assert(seen[k].ca == ca);
                    }
                }
            }
            assert forall|ca: u16| #[trigger] is_mapped(work@, now, points, ca) by {
                assert(before.contains_key(ca) || !before.contains_key(ca));
            }
        }
    }
    assert(devices@.take(devices@.len() as int) =~= devices@);
    let ghost all = work@;
    let cas = keys_of(&work);
    let mut r = Registry::new();
    for i in 0..cas.len()
        invariant
            cas@.to_set() == all.dom(),
            forall|ca: u16| #[trigger]
                r@.contains_key(ca) <==> cas@.take(i as int).contains(ca),
            forall|ca: u16| #[trigger] r@.contains_key(ca) ==> r@[ca] == all[ca]@,
            forall|ca: u16| #[trigger]
                work@.contains_key(ca) <==> all.contains_key(ca) && !cas@.take(i as int).contains(
                    ca,
                ),
            forall|ca: u16| #[trigger] work@.contains_key(ca) ==> work@[ca] == all[ca],
    {
        let ca: u16 = cas[i];
        proof {
            assert(cas@.to_set().contains(ca));
            let a = cas@.take(i as int);
            let b = cas@.take(i + 1);
            assert forall|x: u16| b.contains(x) <==> a.contains(x) || x == ca by {
                if a.contains(x) {
                    let k = choose|k: int| 0 <= k < a.len() && a[k] == x;
                    assert(b[k] == x);
                }
                assert(b[i as int] == ca);
                assert(b =~= a.push(ca));
            }
        }
        if let Some(s) = work.remove(&ca) {
            r.put(ca, s);
        }
    }
    proof {
        assert(cas@.take(cas@.len() as int) =~= cas@);
        assert forall|ca: u16| #[trigger] r@.contains_key(ca) <==> has_address(devices@, ca) by {
            assert(cas@.to_set().contains(ca) <==> all.contains_key(ca));
        }
        assert forall|ca: u16| #[trigger] r@.contains_key(ca) implies r@[ca] == mapping(
            devices@,
            points,
            ca,
        ) by {
            assert(all.contains_key(ca) || !all.contains_key(ca));
            assert(cas@.to_set().contains(ca));
        }
    }
    r
}

/// What is left of the points once a device is removed: an address that no
/// other device has points at is forgotten.
pub open spec fn without_device(r: Map<u16, Snapshot>, d: Iec104Device) -> Map<u16, Snapshot> {
    if !r.contains_key(d.ca) {
        r
    } else if r[d.ca].belongs_to(d.id) {
        r.remove(d.ca)
    } else {
        r.insert(d.ca, r[d.ca].without_device(d.id))
    }
}

/// What is left once devices are removed, one after the other.
pub open spec fn without_devices(r: Map<u16, Snapshot>, ds: Seq<Iec104Device>) -> Map<
    u16,
    Snapshot,
>
    decreases ds.len(),
{
    if ds.len() == 0 {
        r
    } else {
        without_device(without_devices(r, ds.drop_last()), ds.last())
    }
}

/// Add the addresses of devices that are not listed yet.
fn list_addresses(cas: &mut Vec<u16>, ds: &Vec<Iec104Device>)
    requires
        old(cas)@.no_duplicates(),
    ensures
        final(cas)@.no_duplicates(),
        forall|ca: u16| #[trigger]
            final(cas)@.contains(ca) <==> old(cas)@.contains(ca) || has_address(ds@, ca),
{
    let ghost before = cas@;
    for i in 0..ds.len()
        invariant
            cas@.no_duplicates(),
            forall|ca: u16| #[trigger]
                cas@.contains(ca) <==> before.contains(ca) || has_address(ds@.take(i as int), ca),
    {
        let ca: u16 = ds[i].ca;
        let mut known: bool = false;
        for k in 0..cas.len()
            invariant
                known <==> cas@.take(k as int).contains(ca),
        {
            let ghost a = cas@.take(k as int);
            let ghost b = cas@.take(k + 1);
            proof {
                assert(b =~= a.push(cas@[k as int]));
                assert(b[k as int] == cas@[k as int]);
                if a.contains(ca) {
                    let q = choose|q: int| 0 <= q < a.len() && a[q] == ca;
                    assert(b[q] == ca);
                }
            }
            if cas[k] == ca {
                known = true;
            }
        }
        assert(cas@.take(cas@.len() as int) =~= cas@);
        let ghost old_cas = cas@;
        if !known {
            cas.push(ca);
        }
        proof {
            let seen = ds@.take(i as int);
            let now = ds@.take(i + 1);
            assert forall|x: u16| #[trigger] cas@.contains(x) <==> before.contains(x) || has_address(
                now,
                x,
            ) by {
                if old_cas.contains(x) {
                    let q = choose|q: int| 0 <= q < old_cas.len() && old_cas[q] == x;
                    assert(cas@[q] == x);
                }
                if x == ca {
                    assert(now[i as int].ca == x);
                    if !known {
                        assert(cas@[cas@.len() - 1] == x);
                    }
                }
                if has_address(seen, x) {
                    let k = choose|k: int| 0 <= k < seen.len() && (#[trigger] seen[k]).ca == x;
                    assert(now[k].ca == x);
                }
                if has_address(now, x) {
                    let k = choose|k: int| 0 <= k < now.len() && (#[trigger] now[k]).ca == x;
                    if k < i {
                        assert(seen[k].ca == x);
                    }
                }
                if cas@.contains(x) && !old_cas.contains(x) {
                    assert(x == ca);
                }
            }
        }
    }
    assert(ds@.take(ds@.len() as int) =~= ds@);
}

/// Carry out a change of devices: the points of removed devices go; those of
/// others come with changes of points. The result lists the common addresses
/// that are to be interrogated, each once.
pub fn devices_changed(
    reg: &mut Registry,
    added: &Vec<Iec104Device>,
    updated: &Vec<Iec104Device>,
    removed: &Vec<Iec104Device>,
) -> (r: Vec<u16>)
    ensures
        final(reg)@ == without_devices(old(reg)@, removed@),
        r@.no_duplicates(),
        forall|ca: u16| #[trigger]
            r@.contains(ca) <==> has_address(added@, ca) || has_address(updated@, ca)
                || has_address(removed@, ca),
{
    let ghost before = reg@;
    for i in 0..removed.len()
        invariant
            reg@ == without_devices(before, removed@.take(i as int)),
    {
        let d = &removed[i];
        if let Some(s) = reg.get(d.ca) {
            if s.has_only(d.id) {
                reg.remove(d.ca);
            } else {
                let mut rest = s.copy();
                rest.remove_device(d.id);
                reg.put(d.ca, rest);
            }
        }
        assert(removed@.take(i + 1).drop_last() =~= removed@.take(i as int));
    }
    assert(removed@.take(removed@.len() as int) =~= removed@);
    let mut cas: Vec<u16> = Vec::new();
    list_addresses(&mut cas, added);
    list_addresses(&mut cas, updated);
    list_addresses(&mut cas, removed);
    cas
}

/// Carry out a change of a device's points. The result says whether the
/// device's common address is to be interrogated.
pub fn points_changed(
    reg: &mut Registry,
    d: &Iec104Device,
    added: &Vec<Iec104Point>,
    updated: &Vec<Iec104Point>,
    removed: &Vec<Iec104Point>,
) -> (r: bool)
    ensures
        final(reg)@ == old(reg)@.insert(
            d.ca,
            points_at(old(reg)@, d.ca).changed(*d, added@, updated@, removed@),
        ),
        r == (added@.len() > 0 || updated@.len() > 0),
{
    let mut s = match reg.get(d.ca) {
        Some(s) => s.copy(),
        None => CaSnapshot::new(),
    };
    s.change_points(d, added, updated, removed);
    reg.put(d.ca, s);
    added.len() > 0 || updated.len() > 0
}

/// A point of another device stands where it stood, and nothing leads to it
/// that did not before.
spec fn keeps(before: Snapshot, after: Snapshot, key: u32) -> bool {
    &&& before.points.contains_key(key) ==> after.points.contains_key(key)
        && after.points[key] == before.points[key]
    &&& forall|id: i32| #[trigger]
        after.ids.contains_key(id) && after.ids[id] == key ==> before.ids.contains_key(id)
            && before.ids[id] == key
}

proof fn lemma_points_keep(s: Snapshot, d: Iec104Device, ps: Seq<Iec104Point>, key: u32)
    requires
        s.is_taken(d.id, key),
    ensures
        keeps(s, s.with_points(d, ps), key),
    decreases ps.len(),
{
    if ps.len() > 0 {
        lemma_points_keep(s, d, ps.drop_last(), key);
    }
}

proof fn lemma_updates_keep(s: Snapshot, d: Iec104Device, ps: Seq<Iec104Point>, key: u32)
    requires
        s.is_taken(d.id, key),
        forall|i: int|
            0 <= i < ps.len() ==> !(s.ids.contains_key((#[trigger] ps[i]).id) && s.ids[ps[i].id]
                == key),
    ensures
        keeps(s, s.with_updates(d, ps), key),
    decreases ps.len(),
{
    if ps.len() > 0 {
        let front = ps.drop_last();
        assert forall|i: int| 0 <= i < front.len() implies !(s.ids.contains_key(
            (#[trigger] front[i]).id,
        ) && s.ids[front[i].id] == key) by {
            assert(front[i] == ps[i]);
        }
        lemma_updates_keep(s, d, front, key);
        let mid = s.with_updates(d, front);
        let p = ps.last();
        assert(ps[ps.len() - 1] == p);
        assert(!(mid.ids.contains_key(p.id) && mid.ids[p.id] == key));
        assert(keeps(s, mid.moved(p), key));
    }
}

proof fn lemma_removals_keep(s: Snapshot, d: Iec104Device, ps: Seq<Iec104Point>, key: u32)
    requires
        s.is_taken(d.id, key),
    ensures
        keeps(s, s.without_points(d, ps), key),
    decreases ps.len(),
{
    if ps.len() > 0 {
        lemma_removals_keep(s, d, ps.drop_last(), key);
    }
}

/// The first device to claim a type and address keeps it: additions of other
/// devices change nothing there.
pub proof fn first_claim_is_kept(s: Snapshot, d: Iec104Device, ps: Seq<Iec104Point>, key: u32)
    requires
        s.is_taken(d.id, key),
    ensures
        s.with_points(d, ps).points.contains_key(key),
        s.with_points(d, ps).points[key] == s.points[key],
{
    lemma_points_keep(s, d, ps, key);
}

/// A change of a device's points leaves the points of other devices alone,
/// as long as no identifier of an updated point leads to them.
pub proof fn other_devices_keep_their_points(
    s: Snapshot,
    d: Iec104Device,
    added: Seq<Iec104Point>,
    updated: Seq<Iec104Point>,
    removed: Seq<Iec104Point>,
    key: u32,
)
    requires
        s.is_taken(d.id, key),
        forall|i: int|
            0 <= i < updated.len() ==> !(s.ids.contains_key((#[trigger] updated[i]).id)
                && s.ids[updated[i].id] == key),
    ensures
        s.changed(d, added, updated, removed).points.contains_key(key),
        s.changed(d, added, updated, removed).points[key] == s.points[key],
{
    lemma_points_keep(s, d, added, key);
    let s1 = s.with_points(d, added);
    lemma_updates_keep(s1, d, updated, key);
    let s2 = s1.with_updates(d, updated);
    lemma_removals_keep(s2, d, removed, key);
}

/// A point that is added where no other device has one is found there.
pub proof fn added_point_is_found(s: Snapshot, d: Iec104Device, p: Iec104Point)
    requires
        !s.is_taken(d.id, packed(p.ioa, p.type_id)),
    ensures
        s.with_point(d, p).points.contains_key(packed(p.ioa, p.type_id)),
        s.with_point(d, p).points[packed(p.ioa, p.type_id)] == meta_of(d, p),
{
}

/// A point that moves to another type or address is no longer found where it
/// was.
pub proof fn moved_point_leaves_its_place(s: Snapshot, d: Iec104Device, p: Iec104Point)
    requires
        s.ids.contains_key(p.id),
        s.ids[p.id] != packed(p.ioa, p.type_id),
    ensures
        !s.with_update(d, p).points.contains_key(s.ids[p.id]),
{
}

/// Points of a device that are removed are not found any more.
pub proof fn removed_points_are_gone(
    s: Snapshot,
    d: Iec104Device,
    ps: Seq<Iec104Point>,
    i: int,
)
    requires
        0 <= i < ps.len(),
    ensures
        ({
            let key = packed(ps[i].ioa, ps[i].type_id);
            let after = s.without_points(d, ps);
            after.points.contains_key(key) ==> after.points[key].device_id != d.id
        }),
        !s.without_points(d, ps).ids.contains_key(ps[i].id),
    decreases ps.len(),
{
    if i < ps.len() - 1 {
        assert(ps.drop_last()[i] == ps[i]);
        removed_points_are_gone(s, d, ps.drop_last(), i);
    }
}

/// Once a device is removed no point of it is left at its common address, and
/// every identifier that is left leads to a point.
pub proof fn removed_device_leaves_nothing(r: Map<u16, Snapshot>, d: Iec104Device)
    ensures
        ({
            let left = points_at(without_device(r, d), d.ca);
            &&& forall|k: u32| #[trigger]
                left.points.contains_key(k) ==> left.points[k].device_id != d.id
            &&& forall|id: i32| #[trigger]
                left.ids.contains_key(id) ==> left.points.contains_key(left.ids[id])
        }),
{
}

/// Removing a device leaves the other common addresses, and the points of the
/// other devices at its own, as they were.
pub proof fn removal_concerns_one_device(r: Map<u16, Snapshot>, d: Iec104Device, ca: u16, key: u32)
    requires
        r.contains_key(ca),
        r[ca].points.contains_key(key),
        ca != d.ca || r[ca].points[key].device_id != d.id,
    ensures
        without_device(r, d).contains_key(ca),
        without_device(r, d)[ca].points.contains_key(key),
        without_device(r, d)[ca].points[key] == r[ca].points[key],
{
}

} // verus!
