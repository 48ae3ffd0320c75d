//! What a collection of points promises: every readable point is read, its
//! value goes to its own device and channel, and nothing else is published.

use super::codec::{least_payload, stands_for};
use super::collect::{
    belonging, collected, is_typed, member_of, merged, planned, readable_of, runs, share,
    shares_hold_all_reads, targets_of, usable, CollectItem, CollectTarget, McReadItemTyped,
};
use super::converter::{
    is_parameter, is_point, owner_text, parameter_of, resolved, AddressOf, InputModel,
    PointModel,
};
use super::handle::TypedPointReadSpec;
use super::protocol::frame::addr::{parsed, McLogicalAddress};
use super::protocol::merge::ReadItem;
use super::protocol::order::{stable_sort, stable_sort_sorts};
use super::types::{McParameter, McPoint};
use crate::gateway::{NGValue, PointValue, RoutedValue};
use vstd::arithmetic::div_mod::{
    lemma_add_mod_noop, lemma_mod_bound, lemma_mod_self_0, lemma_small_mod,
};
use vstd::prelude::*;

verus! {

/// The targets of a device are its points that can be read, in their order,
/// each with the identifier of the device.
pub proof fn readable_points_are_targets(device_id: i32, points: Seq<McPoint>)
    ensures
        readable_of(device_id, points) == points.filter(
            |p: McPoint| p.access_mode is Read || p.access_mode is ReadWrite,
        ).map_values(|p: McPoint| CollectTarget { device_id, point: p }),
    decreases points.len(),
{
    reveal(Seq::filter);
    let can = |p: McPoint| p.access_mode is Read || p.access_mode is ReadWrite;
    let made = |p: McPoint| CollectTarget { device_id, point: p };
    if points.len() > 0 {
        let d = points.drop_last();
        readable_points_are_targets(device_id, d);
        assert(readable_of(device_id, points) =~= points.filter(can).map_values(made));
    } else {
        assert(readable_of(device_id, points) =~= points.filter(can).map_values(made));
    }
}

/// The targets of several lists of devices are those of the first list and
/// behind them those of the second; those of one device are its readable
/// points.
pub proof fn devices_are_collected_one_behind_the_other(
    a: Seq<CollectItem>,
    b: Seq<CollectItem>,
    x: CollectItem,
)
    ensures
        targets_of(a + b) == targets_of(a) + targets_of(b),
        targets_of(seq![x]) == readable_of(x.device_id, x.points@),
    decreases b.len(),
{
    assert(seq![x].drop_last() =~= Seq::<CollectItem>::empty());
    assert(targets_of(seq![x].drop_last()) =~= Seq::<CollectTarget>::empty());
    assert(targets_of(seq![x]) =~= readable_of(x.device_id, x.points@));
    if b.len() == 0 {
        assert(a + b =~= a);
        assert(targets_of(a + b) =~= targets_of(a) + targets_of(b));
    } else {
        devices_are_collected_one_behind_the_other(a, b.drop_last(), x);
        assert((a + b).drop_last() =~= a + b.drop_last());
        assert((a + b).last() == b.last());
        assert(targets_of(a + b) =~= targets_of(a) + targets_of(b));
    }
}

/// Every point that can be read is a target of its own device.
pub proof fn every_readable_point_is_collected(items: Seq<CollectItem>, i: int, j: int)
    requires
        0 <= i < items.len(),
        0 <= j < items[i].points@.len(),
        items[i].points@[j].access_mode is Read || items[i].points@[j].access_mode is ReadWrite,
    ensures
        targets_of(items).contains(
            CollectTarget { device_id: items[i].device_id, point: items[i].points@[j] },
        ),
    decreases items.len(),
{
    let x = CollectTarget { device_id: items[i].device_id, point: items[i].points@[j] };
    let d = items.drop_last();
    let before = targets_of(d);
    if i < d.len() {
        every_readable_point_is_collected(d, i, j);
        let k = choose|k: int| 0 <= k < before.len() && before[k] == x;
        assert(targets_of(items)[k] == x);
    } else {
        lemma_readable_holds(items[i].device_id, items[i].points@, j);
        let last = readable_of(items[i].device_id, items[i].points@);
        let k = choose|k: int| 0 <= k < last.len() && last[k] == x;
        assert(targets_of(items)[before.len() + k] == x);
    }
}

proof fn lemma_readable_holds(device_id: i32, points: Seq<McPoint>, j: int)
    requires
        0 <= j < points.len(),
        points[j].access_mode is Read || points[j].access_mode is ReadWrite,
    ensures
        readable_of(device_id, points).contains(CollectTarget { device_id, point: points[j] }),
    decreases points.len(),
{
    let x = CollectTarget { device_id, point: points[j] };
    let d = points.drop_last();
    let all = readable_of(device_id, points);
    if j < d.len() {
        lemma_readable_holds(device_id, d, j);
        let before = readable_of(device_id, d);
        let k = choose|k: int| 0 <= k < before.len() && before[k] == x;
        assert(all[k] == x);
    } else {
        assert(all[all.len() - 1] == x);
    }
}

/// Each run of reads of one device code goes to the member of the pool behind
/// that of the run before it, and the reads of a run stay together.
pub proof fn runs_take_turns(s: Seq<TypedPointReadSpec>, k: int, members: int)
    requires
        0 < k < s.len(),
        members >= 1,
    ensures
        0 <= member_of(s, k, members) < members,
        s[k].device_code == s[k - 1].device_code ==> member_of(s, k, members) == member_of(
            s,
            k - 1,
            members,
        ),
        s[k].device_code != s[k - 1].device_code ==> member_of(s, k, members) == if member_of(
            s,
            k - 1,
            members,
        ) + 1 == members {
            0
        } else {
            member_of(s, k - 1, members) + 1
        },
{
    let t = s.take(k + 1);
    assert(t.drop_last() =~= s.take(k));
    assert(t[t.len() - 2] == s[k - 1]);
    assert(t.last() == s[k]);
    let n = runs(s.take(k)) as int;
    lemma_mod_bound(runs(t) as int, members);
    lemma_mod_bound(n, members);
    if s[k].device_code != s[k - 1].device_code {
        lemma_add_mod_noop(n, 1, members);
        let m = n % members;
        if members == 1 {
            lemma_mod_bound(n + 1, members);
        } else {
            lemma_small_mod(1, members as nat);
            assert((n + 1) % members == (m + 1) % members);
            if m + 1 == members {
                lemma_mod_self_0(members);
            } else {
                lemma_small_mod((m + 1) as nat, members as nat);
            }
        }
    }
}

/// Every read of a plan goes to one of the connections.
pub proof fn every_read_has_a_connection(
    specs: Seq<TypedPointReadSpec>,
    groups: Seq<Vec<TypedPointReadSpec>>,
    pool_size: usize,
    k: int,
)
    requires
        pool_size >= 1,
        planned(specs, groups, pool_size),
        0 <= k < specs.len(),
    ensures
        groups.len() == pool_size,
        exists|g: int| 0 <= g < groups.len() && (#[trigger] groups[g])@.contains(specs[k]),
{
    broadcast use vstd::seq_lib::group_to_multiset_ensures;

    if pool_size == 1 {
        assert(groups[0]@[k] == specs[k]);
        assert(groups[0]@.contains(specs[k]));
    } else {
        let members = pool_size as int;
        let sorted = stable_sort(specs);
        stable_sort_sorts(specs);
        assert(specs.contains(specs[k]));
        assert(specs.to_multiset().count(specs[k]) > 0);
        assert(sorted.contains(specs[k]));
        let l = choose|l: int| 0 <= l < sorted.len() && sorted[l] == specs[k];
        shares_hold_all_reads(sorted, members);
        let g = member_of(sorted, l, members);
        lemma_mod_bound(runs(sorted.take(l + 1)) as int, members);
        assert(share(sorted, g, members).contains(sorted[l]));
        assert(groups[g]@ == share(sorted, g, members));
        assert(groups[g]@.contains(specs[k]));
    }
}

/// Only the items whose index is that of a read belong to the reads.
pub proof fn items_belong_by_their_index(items: Seq<ReadItem>, reads: nat)
    ensures
        belonging(items, reads) == items.filter(|x: ReadItem| x.index < reads),
    decreases items.len(),
{
    reveal(Seq::filter);
    if items.len() > 0 {
        items_belong_by_their_index(items.drop_last(), reads);
    }
    assert(belonging(items, reads) =~= items.filter(|x: ReadItem| x.index < reads));
}

/// A typed item keeps index and code, and has a value exactly where there is a
/// payload that is long enough for the data type: the one that it stands for.
pub proof fn items_have_the_value_of_their_payload(
    t: McReadItemTyped,
    spec: TypedPointReadSpec,
    item: ReadItem,
)
    requires
        is_typed(t, spec, item),
    ensures
        t.index == spec.index,
        t.end_code == item.end_code,
        t.value is Some <==> !(spec.data_type is Timestamp) && (item.payload matches Some(p)
            && p.len() >= least_payload(spec.data_type)),
        t.value matches Some(v) ==> (item.payload matches Some(p) && stands_for(
            v,
            spec.data_type,
            p,
        )),
{
}

/// The results of connections that succeeded stand end to end, those that
/// failed add nothing.
pub proof fn results_stand_end_to_end(
    a: Seq<Result<Vec<McReadItemTyped>, String>>,
    b: Seq<Result<Vec<McReadItemTyped>, String>>,
    r: Result<Vec<McReadItemTyped>, String>,
)
    ensures
        merged(a + b) == merged(a) + merged(b),
        r matches Ok(items) ==> merged(seq![r]) == items@,
        r is Err ==> merged(seq![r]).len() == 0,
    decreases b.len(),
{
    assert(seq![r].drop_last() =~= Seq::<Result<Vec<McReadItemTyped>, String>>::empty());
    assert(merged(seq![r].drop_last()) =~= Seq::<McReadItemTyped>::empty());
    assert(r matches Ok(items) ==> merged(seq![r]) =~= items@);
    if b.len() == 0 {
        assert(a + b =~= a);
        assert(merged(a + b) =~= merged(a) + merged(b));
    } else {
        results_stand_end_to_end(a, b.drop_last(), r);
        assert((a + b).drop_last() =~= a + b.drop_last());
        assert((a + b).last() == b.last());
        assert(merged(a + b) =~= merged(a) + merged(b));
    }
}

/// An item can be published: it succeeded, is of a point of the list and has a
/// value.
pub open spec fn succeeded(x: McReadItemTyped, points: nat) -> bool {
    x.end_code == 0 && x.index < points && x.value is Some
}

/// The values that are published are those of the items that succeeded, in
/// their order, each by the index of its point.
pub proof fn items_that_succeeded_are_published(items: Seq<McReadItemTyped>, points: nat)
    ensures
        usable(items, points) == items.filter(
            |x: McReadItemTyped| succeeded(x, points),
        ).map_values(|x: McReadItemTyped| (x.index, x.value->0)),
    decreases items.len(),
{
    reveal(Seq::filter);
    if items.len() > 0 {
        items_that_succeeded_are_published(items.drop_last(), points);
    }
    assert(usable(items, points) =~= items.filter(
        |x: McReadItemTyped| succeeded(x, points),
    ).map_values(|x: McReadItemTyped| (x.index, x.value->0)));
}

/// The values that are collected are those that were converted and have a
/// point, in their order, each for the device, the channel, the identifier and
/// the key of its point.
pub proof fn values_go_to_the_device_of_their_point(
    targets: Seq<CollectTarget>,
    values: Seq<(usize, Option<NGValue>)>,
)
    ensures
        collected(targets, values) == values.filter(
            |x: (usize, Option<NGValue>)| x.0 < targets.len() && x.1 is Some,
        ).map_values(
            |x: (usize, Option<NGValue>)|
                RoutedValue {
                    device_id: targets[x.0 as int].device_id,
                    kind: targets[x.0 as int].point.kind,
                    value: PointValue {
                        point_id: targets[x.0 as int].point.id,
                        point_key: targets[x.0 as int].point.key,
                        value: x.1->0,
                    },
                },
        ),
    decreases values.len(),
{
    reveal(Seq::filter);
    if values.len() > 0 {
        values_go_to_the_device_of_their_point(targets, values.drop_last());
    }
    assert(collected(targets, values) =~= values.filter(
        |x: (usize, Option<NGValue>)| x.0 < targets.len() && x.1 is Some,
    ).map_values(
        |x: (usize, Option<NGValue>)|
            RoutedValue {
                device_id: targets[x.0 as int].device_id,
                kind: targets[x.0 as int].point.kind,
                value: PointValue {
                    point_id: targets[x.0 as int].point.id,
                    point_key: targets[x.0 as int].point.key,
                    value: x.1->0,
                },
            },
    ));
}

/// A configured address is the one that its text stands for. One that cannot
/// be parsed is refused with its text, its owner and the reason.
pub proof fn configured_addresses_are_those_of_their_text(raw: Seq<char>, of: AddressOf)
    ensures
        resolved(raw, of) is Ok <==> parsed(raw) is Ok,
        resolved(raw, of) matches Ok(a) ==> parsed(raw) == Ok::<McLogicalAddress, Seq<char>>(a),
        parsed(raw) matches Err(why) ==> resolved(raw, of) == Err::<McLogicalAddress, Seq<char>>(
            "Invalid MC address '"@ + raw + owner_text(of) + why,
        ),
        of is Point ==> owner_text(of) == "': "@,
        of is Parameter ==> owner_text(of) == "' in action parameter: "@,
        of matches AddressOf::Input(name) ==> owner_text(of) == "' for action parameter '"@ + name@
            + "': "@,
{
}

/// A point is what its model says, at the address of its text. Its length of
/// text is kept where 16 bits hold it.
pub proof fn points_are_what_their_model_says(p: McPoint, m: PointModel, a: McLogicalAddress)
    requires
        is_point(p, m, a),
    ensures
        p.id == m.id && p.device_id == m.device_id,
        p.name@ == m.name@ && p.key@ == m.key@,
        p.kind == m.kind && p.data_type == m.data_type && p.access_mode == m.access_mode,
        p.unit == m.unit,
        m.address matches Some(raw) ==> p.address.raw@ == raw@,
        m.address is None ==> p.address.raw@.len() == 0,
        p.address.logical == Some(a),
        p.string_len_bytes is None <==> m.string_len_bytes is None,
        m.string_len_bytes matches Some(n) ==> n <= u16::MAX ==> p.string_len_bytes == Some(
            n as u16,
        ),
{
}

/// A parameter is what its model says, at the address of its text. A model
/// without an address, or with one that cannot be parsed, is refused.
pub proof fn parameters_are_what_their_model_says(
    p: McParameter,
    m: InputModel,
    a: McLogicalAddress,
)
    ensures
        m.address is None ==> parameter_of(m) == Err::<McLogicalAddress, Seq<char>>(
            "address is required for MC action parameter '"@ + m.name@ + "'"@,
        ),
        m.address matches Some(raw) ==> (parameter_of(m) is Ok <==> parsed(raw@) is Ok),
        parameter_of(m) matches Ok(at) ==> (m.address matches Some(raw) && parsed(raw@) == Ok::<
            McLogicalAddress,
            Seq<char>,
        >(at)),
        m.address matches Some(raw) ==> parsed(raw@) matches Err(why) ==> parameter_of(m) == Err::<
            McLogicalAddress,
            Seq<char>,
        >("Invalid MC address '"@ + raw@ + ("' for action parameter '"@ + m.name@ + "': "@) + why),
        is_parameter(p, m, a) ==> {
            &&& p.name@ == m.name@ && p.key@ == m.key@
            &&& p.data_type == m.data_type && p.required == m.required
            &&& m.address is Some && p.address.raw@ == (m.address->0)@
            &&& p.address.logical == Some(a)
            &&& (p.string_len_bytes is None <==> m.string_len_bytes is None)
            &&& (m.string_len_bytes matches Some(n) ==> n <= u16::MAX ==> p.string_len_bytes
                == Some(n as u16))
        },
{
}

} // verus!
