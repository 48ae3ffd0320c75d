//! Collection of points: selection of the readable ones, distribution of the
//! reads over the pool of connections, and the way back to values.

use super::codec::{least_payload, stands_for, McCodec};
use super::handle::{read_one, read_spec, TypedPointReadSpec};
use super::protocol::merge::{items_view, McReadItemRaw, ReadItem};
use super::protocol::order::{is_sorted, sort_by_key, stable_sort, stable_sort_sorts};
use super::protocol::order::SortKey;
use super::protocol::planner::PointReadSpec;
use super::types::McPoint;
use crate::gateway::{
    config_error, execution_error, fill_buffers, first_device, has_buffer, has_device,
    open_buffers, publication_views, publications, published_all, sorted_by_device,
    validation_error, values_for, DataPointType, DeviceBuffers, DriverError, NGValue, PointValue,
    Publication, RoutedValue,
};
use crate::wire::bytes_as_slice;
use vstd::arithmetic::div_mod::{lemma_add_mod_noop, lemma_small_mod};
use vstd::prelude::*;

verus! {

/// A device and the points that are asked of it.
pub struct CollectItem {
    pub device_id: i32,
    pub device_name: String,
    pub points: Vec<McPoint>,
}

/// A point that is read, with its device.
pub struct CollectTarget {
    pub device_id: i32,
    pub point: McPoint,
}

/// The readable points of a device, in their order.
pub open spec fn readable_of(device_id: i32, points: Seq<McPoint>) -> Seq<CollectTarget>
    decreases points.len(),
{
    if points.len() == 0 {
        Seq::empty()
    } else {
        let before = readable_of(device_id, points.drop_last());
        if points.last().access_mode.readable_spec() {
            before.push(CollectTarget { device_id, point: points.last() })
        } else {
            before
        }
    }
}

/// The readable points of all devices, in their order.
pub open spec fn targets_of(items: Seq<CollectItem>) -> Seq<CollectTarget>
    decreases items.len(),
{
    if items.len() == 0 {
        Seq::empty()
    } else {
        targets_of(items.drop_last()) + readable_of(
            items.last().device_id,
            items.last().points@,
        )
    }
}

/// The devices that are asked and the readable points among those asked for.
pub fn select_targets(items: Vec<CollectItem>) -> (r: (Vec<(i32, String)>, Vec<CollectTarget>))
    ensures
        r.0@.len() == items@.len(),
        forall|i: int|
            0 <= i < items@.len() ==> #[trigger] r.0@[i] == (
                items@[i].device_id,
                items@[i].device_name,
            ),
        r.1@ == targets_of(items@),
{
    let ghost i0 = items@;
    let mut devices: Vec<(i32, String)> = Vec::new();
    let mut targets: Vec<CollectTarget> = Vec::new();
    for item in it: items
        invariant
            it.seq() == i0,
            devices@.len() == it.index(),
            forall|i: int|
                0 <= i < devices@.len() ==> #[trigger] devices@[i] == (
                    i0[i].device_id,
                    i0[i].device_name,
                ),
            targets@ == targets_of(i0.take(it.index())),
    {
        let ghost n = it.index();
        let ghost item0 = item;
        let ghost t0 = targets@;
        proof {
            assert(i0.take(n + 1).drop_last() =~= i0.take(n));
            assert(i0.take(n + 1).last() == item);
        }
        let device_id: i32 = item.device_id;
        devices.push((device_id, item.device_name));
        let points = item.points;
        let ghost p0 = points@;
        assert(t0 + Seq::<CollectTarget>::empty() =~= t0);
        for p in jt: points
            invariant
                jt.seq() == p0,
                targets@ == t0 + readable_of(device_id, p0.take(jt.index())),
        {
            let ghost m = jt.index();
            proof {
                assert(p0.take(m + 1).drop_last() =~= p0.take(m));
                assert(p0.take(m + 1).last() == p);
                let q = readable_of(device_id, p0.take(m));
                let x = CollectTarget { device_id, point: p };
                assert((t0 + q).push(x) =~= t0 + q.push(x));
            }
            if p.access_mode.is_readable() {
                targets.push(CollectTarget { device_id, point: p });
            }
        }
        assert(p0.take(p0.len() as int) =~= p0);
    }
    assert(i0.take(i0.len() as int) =~= i0);
    (devices, targets)
}

/// The point at `i` is the first one that cannot be read.
pub open spec fn first_refused(targets: Seq<CollectTarget>, i: int) -> bool {
    &&& 0 <= i < targets.len()
    &&& read_spec(i, targets[i].point) is Err
    &&& forall|j: int| 0 <= j < i ==> read_spec(j, (#[trigger] targets[j]).point) is Ok
}

/// Some point cannot be read.
pub open spec fn some_refused(targets: Seq<CollectTarget>) -> bool {
    exists|i: int| first_refused(targets, i)
}

/// The error says why the first point that cannot be read cannot be read.
pub open spec fn says_first_refusal(e: DriverError, targets: Seq<CollectTarget>) -> bool {
    exists|i: int|
        #![trigger first_refused(targets, i)]
        first_refused(targets, i) && config_error(e, read_spec(i, targets[i].point)->Err_0)
}

/// The reads are those of the points, one for one.
pub open spec fn reads_all(targets: Seq<CollectTarget>, specs: Seq<TypedPointReadSpec>) -> bool {
    &&& specs.len() == targets.len()
    &&& forall|i: int|
        0 <= i < targets.len() ==> read_spec(i, (#[trigger] targets[i]).point) == Ok::<
            TypedPointReadSpec,
            Seq<char>,
        >(specs[i])
}

/// The reads of all points; the first point that cannot be read refuses them all.
pub fn read_plan(targets: &Vec<CollectTarget>) -> (r: Result<Vec<TypedPointReadSpec>, DriverError>)
    ensures
        match r {
            Ok(specs) => reads_all(targets@, specs@),
            Err(e) => some_refused(targets@) && says_first_refusal(e, targets@),
        },
{
    let mut specs: Vec<TypedPointReadSpec> = Vec::new();
    for i in 0..targets.len()
        invariant
            specs@.len() == i,
            forall|j: int|
                0 <= j < i ==> read_spec(j, (#[trigger] targets@[j]).point) == Ok::<
                    TypedPointReadSpec,
                    Seq<char>,
                >(specs@[j]),
    {
        match read_one(i, &targets[i].point) {
            Ok(s) => {
                specs.push(s);
            },
            Err(e) => {
                assert(first_refused(targets@, i as int));
                return Err(e);
            },
        }
    }
    Ok(specs)
}

/// Number of runs of equal device codes in a list.
pub open spec fn runs(s: Seq<TypedPointReadSpec>) -> nat
    decreases s.len(),
{
    if s.len() == 0 {
        0
    } else if s.len() > 1 && s[s.len() - 2].device_code == s.last().device_code {
        runs(s.drop_last())
    } else {
        runs(s.drop_last()) + 1
    }
}

/// The pool member that the read at `k` goes to: each run of equal device
/// codes goes to the next member.
pub open spec fn member_of(s: Seq<TypedPointReadSpec>, k: int, members: int) -> int {
    runs(s.take(k + 1)) as int % members
}

/// The reads that go to pool member `g`, in their order.
pub open spec fn share(s: Seq<TypedPointReadSpec>, g: int, members: int) -> Seq<TypedPointReadSpec>
    decreases s.len(),
{
    if s.len() == 0 {
        Seq::empty()
    } else if runs(s) as int % members == g {
        share(s.drop_last(), g, members).push(s.last())
    } else {
        share(s.drop_last(), g, members)
    }
}

/// The lists are the shares of the pool members.
pub open spec fn is_shared_out(
    s: Seq<TypedPointReadSpec>,
    groups: Seq<Vec<TypedPointReadSpec>>,
    members: int,
) -> bool {
    &&& groups.len() == members
    &&& forall|g: int| 0 <= g < members ==> (#[trigger] groups[g])@ == share(s, g, members)
}

/// Share reads out over pool members. Reads are ordered by device code and
/// head so that contiguous addresses stay on one connection, where they can
/// be merged.
pub fn distribute(specs: Vec<TypedPointReadSpec>, members: usize) -> (groups: Vec<
    Vec<TypedPointReadSpec>,
>)
    requires
        members >= 1,
    ensures
        is_shared_out(stable_sort(specs@), groups@, members as int),
{
    let sorted = sort_by_key(specs);
    let ghost s = sorted@;
    let mut groups: Vec<Vec<TypedPointReadSpec>> = Vec::new();
    for i in 0..members
        invariant
            groups@.len() == i,
            forall|g: int| 0 <= g < i ==> (#[trigger] groups@[g])@.len() == 0,
    {
        groups.push(Vec::new());
    }
    let mut at: usize = 0;
    let mut prev: Option<u16> = None;
    assert(s.take(0) =~= Seq::empty());
    proof {
        lemma_small_mod(0, members as nat);
        assert forall|g: int| 0 <= g < members implies (#[trigger] groups@[g])@ == share(
            s.take(0),
            g,
            members as int,
        ) by {
            assert(groups@[g]@ =~= Seq::empty());
        }
    }
    for k in 0..sorted.len()
        invariant
            s == sorted@,
            members >= 1,
            at < members,
            at == runs(s.take(k as int)) as int % members as int,
            prev == if k == 0 {
                None::<u16>
            } else {
                Some(s[k - 1].device_code)
            },
            is_shared_out(s.take(k as int), groups@, members as int),
    {
        let spec = sorted[k];
        let ghost t = s.take(k + 1);
        proof {
            assert(t.drop_last() =~= s.take(k as int));
            assert(t.last() == spec);
            if k > 0 {
                assert(t[t.len() - 2] == s[k - 1]);
            }
            lemma_add_mod_noop(runs(t.drop_last()) as int, 1, members as int);
            if members > 1 {
                lemma_small_mod(1, members as nat);
            }
        }
        let again: bool = match prev {
            Some(c) => c == spec.device_code,
            None => false,
        };
        if !again {
            prev = Some(spec.device_code);
            at = if at + 1 == members {
                0
            } else {
                at + 1
            };
            proof {
                let a = runs(t.drop_last()) as int % members as int;
                assert((a + 1) % (members as int) == if a + 1 == members {
                    0
                } else {
                    a + 1
                }) by {
                    if a + 1 < members {
                        lemma_small_mod((a + 1) as nat, members as nat);
                    } else {
                        vstd::arithmetic::div_mod::lemma_mod_self_0(members as int);
                    }
                }
                assert((runs(t.drop_last()) + 1) as int % members as int == (a + 1) % (
                members as int)) by {
                    if members == 1 {
                    } else {
                        assert(1int % members as int == 1);
                    }
                }
            }
        }
        groups[at].push(spec);
        proof {
            assert forall|g: int| 0 <= g < members implies (#[trigger] groups@[g])@ == share(
                t,
                g,
                members as int,
            ) by {}
        }
    }
    assert(s.take(s.len() as int) =~= s);
    groups
}

proof fn lemma_share_holds(s: Seq<TypedPointReadSpec>, k: int, members: int)
    requires
        0 <= k < s.len(),
        members >= 1,
    ensures
        share(s, member_of(s, k, members), members).contains(s[k]),
    decreases s.len(),
{
    let g = member_of(s, k, members);
    let d = s.drop_last();
    if k == s.len() - 1 {
        assert(s.take(k + 1) =~= s);
        let q = share(s, g, members);
        assert(q[q.len() - 1] == s[k]);
    } else {
        lemma_share_holds(d, k, members);
        assert(d.take(k + 1) =~= s.take(k + 1));
        let q = share(d, g, members);
        let i = q.index_of(s[k]);
        assert(q.contains(d[k]));
        assert(share(s, g, members)[i] == s[k]);
    }
}

proof fn lemma_share_within(s: Seq<TypedPointReadSpec>, g: int, members: int, i: int) -> (k: int)
    requires
        0 <= i < share(s, g, members).len(),
        members >= 1,
    ensures
        0 <= k < s.len(),
        share(s, g, members)[i] == s[k],
        member_of(s, k, members) == g,
    decreases s.len(),
{
    let d = s.drop_last();
    if i < share(d, g, members).len() {
        let k = lemma_share_within(d, g, members, i);
        assert(d.take(k + 1) =~= s.take(k + 1));
        k
    } else {
        assert(s.take(s.len() as int) =~= s);
        s.len() - 1
    }
}

/// Sharing out loses no read and invents none: every read stands in the share
/// of its member, and a share holds reads of its member only.
pub proof fn shares_hold_all_reads(s: Seq<TypedPointReadSpec>, members: int)
    requires
        members >= 1,
    ensures
        forall|k: int|
            0 <= k < s.len() ==> share(s, member_of(s, k, members), members).contains(
                #[trigger] s[k],
            ),
        forall|g: int, i: int|
            0 <= i < share(s, g, members).len() ==> exists|k: int|
                0 <= k < s.len() && #[trigger] s[k] == #[trigger] share(s, g, members)[i]
                    && member_of(s, k, members) == g,
{
    assert forall|k: int| 0 <= k < s.len() implies share(
        s,
        member_of(s, k, members),
        members,
    ).contains(#[trigger] s[k]) by {
        lemma_share_holds(s, k, members);
    }
    assert forall|g: int, i: int| 0 <= i < share(s, g, members).len() implies exists|k: int|
        0 <= k < s.len() && #[trigger] s[k] == #[trigger] share(s, g, members)[i] && member_of(
            s,
            k,
            members,
        ) == g by {
        let k = lemma_share_within(s, g, members, i);
        assert(s[k] == share(s, g, members)[i]);
    }
}

proof fn lemma_runs_equal(s: Seq<TypedPointReadSpec>, i: int, j: int)
    requires
        is_sorted(s),
        0 <= i <= j < s.len(),
        s[i].device_code == s[j].device_code,
    ensures
        runs(s.take(i + 1)) == runs(s.take(j + 1)),
    decreases j - i,
{
    if i < j {
        assert(s[i].key_spec() <= s[j - 1].key_spec());
        assert(s[j - 1].key_spec() <= s[j].key_spec());
        assert(s[j - 1].device_code == s[j].device_code);
        lemma_runs_equal(s, i, j - 1);
        let t = s.take(j + 1);
        assert(t.drop_last() =~= s.take(j));
        assert(t[t.len() - 2] == s[j - 1]);
        assert(t.last() == s[j]);
    }
}

/// Reads of one device all go to the same connection.
pub proof fn one_device_stays_on_one_connection(
    specs: Seq<TypedPointReadSpec>,
    i: int,
    j: int,
    members: int,
)
    requires
        0 <= i <= j < specs.len(),
        stable_sort(specs)[i].device_code == stable_sort(specs)[j].device_code,
    ensures
        member_of(stable_sort(specs), i, members) == member_of(stable_sort(specs), j, members),
{
    stable_sort_sorts(specs);
    lemma_runs_equal(stable_sort(specs), i, j);
}

/// What is read, and over which connections.
pub struct CollectPlan {
    pub devices: Vec<(i32, String)>,
    pub targets: Vec<CollectTarget>,
    /// The reads of each connection.
    pub groups: Vec<Vec<TypedPointReadSpec>>,
}

/// The reads of the plan are shared out over this many connections: one takes
/// them as they are, several take their shares.
pub open spec fn planned(
    specs: Seq<TypedPointReadSpec>,
    groups: Seq<Vec<TypedPointReadSpec>>,
    pool_size: usize,
) -> bool {
    if pool_size == 1 {
        groups.len() == 1 && groups[0]@ == specs
    } else {
        is_shared_out(stable_sort(specs), groups, pool_size as int)
    }
}

/// The plan reads every target, shared out over the connections.
pub open spec fn plan_reads(plan: CollectPlan, pool_size: usize) -> bool {
    exists|specs: Seq<TypedPointReadSpec>|
        #![trigger reads_all(plan.targets@, specs)]
        reads_all(plan.targets@, specs) && planned(specs, plan.groups@, pool_size)
}

/// Plan a collection. `pool_size` is the number of connections of the attached
/// pool, if there is one. No plan is made where no point is readable.
pub fn begin_collect(items: Vec<CollectItem>, pool_size: Option<usize>) -> (r: Result<
    Option<CollectPlan>,
    DriverError,
>)
    ensures
        if items@.len() == 0 {
            r matches Err(e) && validation_error(e, "collect_data called with empty items"@)
        } else if targets_of(items@).len() == 0 {
            r matches Ok(None)
        } else if pool_size is None {
            r matches Err(e) && e is ServiceUnavailable
        } else if some_refused(targets_of(items@)) {
            r matches Err(e) && says_first_refusal(e, targets_of(items@))
        } else if pool_size == Some(0usize) {
            r matches Err(e) && e is ServiceUnavailable
        } else {
            &&& r matches Ok(Some(plan))
            &&& plan.targets@ == targets_of(items@)
            &&& plan.devices@.len() == items@.len()
            &&& forall|i: int|
                0 <= i < items@.len() ==> #[trigger] plan.devices@[i] == (
                    items@[i].device_id,
                    items@[i].device_name,
                )
            &&& plan_reads(plan, pool_size->0)
        },
{
    if items.len() == 0 {
        return Err(
            DriverError::ValidationError("collect_data called with empty items".to_owned()),
        );
    }
    let (devices, targets) = select_targets(items);
    if targets.len() == 0 {
        return Ok(None);
    }
    let n: usize = match pool_size {
        None => {
            return Err(DriverError::ServiceUnavailable);
        },
        Some(n) => n,
    };
    let specs = match read_plan(&targets) {
        Err(e) => {
            return Err(e);
        },
        Ok(specs) => specs,
    };
    let ghost s0 = specs@;
    proof {
        assert(!some_refused(targets@)) by {
            assert forall|i: int| #[trigger] first_refused(targets@, i) implies false by {
                assert(read_spec(i, targets@[i].point) is Ok);
            }
        }
    }
    if n == 0 {
        return Err(DriverError::ServiceUnavailable);
    }
    let groups: Vec<Vec<TypedPointReadSpec>> = if n == 1 {
        let mut g: Vec<Vec<TypedPointReadSpec>> = Vec::new();
        g.push(specs);
        g
    } else {
        distribute(specs, n)
    };
    assert(reads_all(targets@, s0));
    assert(planned(s0, groups@, n));
    let plan = CollectPlan { devices, targets, groups };
    assert(reads_all(plan.targets@, s0));
    assert(plan_reads(plan, n));
    Ok(Some(plan))
}

/// Result of a typed read of a point.
#[derive(Debug, Clone)]
pub struct McReadItemTyped {
    pub index: usize,
    pub end_code: u16,
    pub value: Option<NGValue>,
}

/// The raw reads of typed reads, numbered by their place.
pub fn raw_reads(specs: &Vec<TypedPointReadSpec>) -> (r: Vec<PointReadSpec>)
    ensures
        r@ == Seq::new(
            specs@.len(),
            |i: int|
                PointReadSpec {
                    index: i as usize,
                    addr: specs@[i].addr,
                    word_len: specs@[i].word_len,
                    device_code: specs@[i].device_code,
                },
        ),
{
    let mut out: Vec<PointReadSpec> = Vec::with_capacity(specs.len());
    for i in 0..specs.len()
        invariant
            out@.len() == i,
            forall|j: int|
                0 <= j < i ==> (#[trigger] out@[j]) == (PointReadSpec {
                    index: j as usize,
                    addr: specs@[j].addr,
                    word_len: specs@[j].word_len,
                    device_code: specs@[j].device_code,
                }),
    {
        let s = specs[i];
        out.push(
            PointReadSpec {
                index: i,
                addr: s.addr,
                word_len: s.word_len,
                device_code: s.device_code,
            },
        );
    }
    out
}

/// The raw items that belong to one of so many reads, in their order.
pub open spec fn belonging(items: Seq<ReadItem>, reads: nat) -> Seq<ReadItem>
    decreases items.len(),
{
    if items.len() == 0 {
        items
    } else if items.last().index < reads {
        belonging(items.drop_last(), reads).push(items.last())
    } else {
        belonging(items.drop_last(), reads)
    }
}

/// The typed item of a raw item: it goes by the index of its point, and has the
/// value that the payload stands for in the data type of the read, where there
/// is a payload that is long enough for it.
pub open spec fn is_typed(t: McReadItemTyped, spec: TypedPointReadSpec, item: ReadItem) -> bool {
    &&& t.index == spec.index
    &&& t.end_code == item.end_code
    &&& match item.payload {
        Some(p) => if spec.data_type is Timestamp || p.len() < least_payload(spec.data_type) {
            t.value is None
        } else {
            t.value matches Some(v) && stands_for(v, spec.data_type, p)
        },
        None => t.value is None,
    }
}

/// The typed items of the raw items that answer typed reads.
pub fn typed_items(specs: &Vec<TypedPointReadSpec>, items: &Vec<McReadItemRaw>) -> (r: Vec<
    McReadItemTyped,
>)
    ensures
        ({
            let known = belonging(items_view(items@), specs@.len());
            &&& r@.len() == known.len()
            &&& forall|i: int|
                0 <= i < r@.len() ==> is_typed(
                    #[trigger] r@[i],
                    specs@[known[i].index as int],
                    known[i],
                )
        }),
{
    let mut out: Vec<McReadItemTyped> = Vec::with_capacity(items.len());
    let ghost all = items_view(items@);
    for i in 0..items.len()
        invariant
            all == items_view(items@),
            ({
                let known = belonging(all.take(i as int), specs@.len());
                &&& out@.len() == known.len()
                &&& forall|j: int|
                    0 <= j < out@.len() ==> is_typed(
                        #[trigger] out@[j],
                        specs@[known[j].index as int],
                        known[j],
                    )
            }),
    {
        let item = &items[i];
        proof {
            assert(all.take(i + 1).drop_last() =~= all.take(i as int));
            assert(all.take(i + 1).last() == item@);
        }
        if item.index < specs.len() {
            let spec = specs[item.index];
            let value = match &item.payload {
                Some(p) => match McCodec::decode(spec.data_type, bytes_as_slice(p)) {
                    Ok(v) => Some(v),
                    Err(_) => None,
                },
                None => None,
            };
            out.push(McReadItemTyped { index: spec.index, end_code: item.end_code, value });
        }
    }
    assert(all.take(all.len() as int) =~= all);
    out
}

/// The items of the connections that succeeded, end to end.
pub open spec fn merged(results: Seq<Result<Vec<McReadItemTyped>, String>>) -> Seq<McReadItemTyped>
    decreases results.len(),
{
    if results.len() == 0 {
        Seq::empty()
    } else {
        match results.last() {
            Ok(items) => merged(results.drop_last()) + items@,
            Err(_) => merged(results.drop_last()),
        }
    }
}

/// Merge what the connections of a pool returned. With several connections
/// what some returned is kept though others failed; it is an error if nothing
/// came back. With one connection its error is the error.
pub fn merge_results(results: Vec<Result<Vec<McReadItemTyped>, String>>) -> (r: Result<
    Vec<McReadItemTyped>,
    DriverError,
>)
    requires
        results@.len() >= 1,
    ensures
        if results@.len() == 1 {
            match results@[0] {
                Ok(items) => r matches Ok(v) && v@ == items@,
                Err(text) => r matches Err(e) && execution_error(e, text@),
            }
        } else if merged(results@).len() == 0 {
            r matches Err(e) && execution_error(e, "All MC pool members failed"@)
        } else {
            r matches Ok(v) && v@ == merged(results@)
        },
{
    let single: bool = results.len() == 1;
    let ghost r0 = results@;
    let mut out: Vec<McReadItemTyped> = Vec::new();
    let mut failure: Option<String> = None;
    for res in it: results
        invariant
            it.seq() == r0,
            r0.len() >= 1,
            single == (r0.len() == 1),
            out@ == merged(r0.take(it.index())),
            r0.len() == 1 && it.index() == 1 ==> match r0[0] {
                Ok(items) => failure is None && out@ == items@,
                Err(text) => failure == Some(text),
            },
    {
        let ghost n = it.index();
        proof {
            assert(r0.take(n + 1).drop_last() =~= r0.take(n));
            assert(r0.take(n + 1).last() == res);
        }
        let ghost o = out@;
        match res {
            Ok(items) => {
                let mut more = items;
                let ghost m = more@;
                out.append(&mut more);
                proof {
                    if n == 0 {
                        assert(r0.take(n) =~= Seq::empty());
                        assert(out@ =~= m);
                    }
                }
                failure = None;
            },
            Err(text) => {
                failure = Some(text);
            },
        }
    }
    assert(r0.take(r0.len() as int) =~= r0);
    if single {
        match failure {
            Some(text) => Err(DriverError::ExecutionError(text)),
            None => Ok(out),
        }
    } else if out.len() == 0 {
        Err(DriverError::ExecutionError("All MC pool members failed".to_owned()))
    } else {
        Ok(out)
    }
}

/// The values that are published: those of successful items that belong to a
/// point of the list, each with the index of its point.
pub open spec fn usable(items: Seq<McReadItemTyped>, points: nat) -> Seq<(usize, NGValue)>
    decreases items.len(),
{
    if items.len() == 0 {
        Seq::empty()
    } else {
        let before = usable(items.drop_last(), points);
        let x = items.last();
        if x.end_code == 0 && x.index < points && x.value is Some {
            before.push((x.index, x.value->0))
        } else {
            before
        }
    }
}

/// The values that are published, each with the index of its point.
pub fn usable_values(items: Vec<McReadItemTyped>, points: usize) -> (r: Vec<(usize, NGValue)>)
    ensures
        r@ == usable(items@, points as nat),
{
    let ghost i0 = items@;
    let mut out: Vec<(usize, NGValue)> = Vec::new();
    for item in it: items
        invariant
            it.seq() == i0,
            out@ == usable(i0.take(it.index()), points as nat),
    {
        let ghost n = it.index();
        proof {
            assert(i0.take(n + 1).drop_last() =~= i0.take(n));
            assert(i0.take(n + 1).last() == item);
        }
        if item.end_code == 0 && item.index < points {
            match item.value {
                Some(v) => {
                    out.push((item.index, v));
                },
                None => {},
            }
        }
    }
    assert(i0.take(i0.len() as int) =~= i0);
    out
}

/// The values of points that could be converted, each with the device and the
/// channel it is published on. A value without a point is dropped.
pub open spec fn collected(
    targets: Seq<CollectTarget>,
    values: Seq<(usize, Option<NGValue>)>,
) -> Seq<RoutedValue>
    decreases values.len(),
{
    if values.len() == 0 {
        Seq::empty()
    } else {
        let before = collected(targets, values.drop_last());
        let (i, v) = values.last();
        if i < targets.len() && v is Some {
            let p = targets[i as int].point;
            before.push(
                RoutedValue {
                    device_id: targets[i as int].device_id,
                    kind: p.kind,
                    value: PointValue { point_id: p.id, point_key: p.key, value: v->0 },
                },
            )
        } else {
            before
        }
    }
}

/// The buffers hold the values of the devices: one buffer per device, in the
/// order of their identifiers, under the name with which the device is first
/// listed, each channel in the order in which the values came.
pub open spec fn holds_values(
    bufs: Seq<DeviceBuffers>,
    devices: Seq<(i32, String)>,
    values: Seq<RoutedValue>,
) -> bool {
    &&& sorted_by_device(bufs)
    &&& forall|d: i32| has_device(devices, d) <==> #[trigger] has_buffer(bufs, d)
    &&& forall|j: int|
        0 <= j < bufs.len() ==> {
            let id = (#[trigger] bufs[j]).device_id;
            &&& bufs[j].device_name@ == devices[first_device(devices, id)].1@
            &&& bufs[j].telemetry@ == values_for(values, id, DataPointType::Telemetry)
            &&& bufs[j].attributes@ == values_for(values, id, DataPointType::Attribute)
        }
}

/// What is published of a collection: `values` holds, by the index of the
/// point, what was read with what it converts to. For each device its
/// telemetry comes first, then its attributes.
pub fn finish_collect(
    devices: &Vec<(i32, String)>,
    targets: &Vec<CollectTarget>,
    values: Vec<(usize, Option<NGValue>)>,
) -> (r: Vec<Publication>)
    ensures
        exists|bufs: Seq<DeviceBuffers>| #[trigger]
            holds_values(bufs, devices@, collected(targets@, values@)) && publication_views(r@)
                == published_all(bufs),
{
    let ghost v0 = values@;
    let mut out: Vec<RoutedValue> = Vec::new();
    for x in it: values
        invariant
            it.seq() == v0,
            out@ == collected(targets@, v0.take(it.index())),
    {
        proof {
            let n = it.index();
            assert(v0.take(n + 1).drop_last() =~= v0.take(n));
            assert(v0.take(n + 1).last() == x);
        }
        let (i, v) = x;
        if i < targets.len() {
            match v {
                Some(value) => {
                    let t = &targets[i];
                    out.push(
                        RoutedValue {
                            device_id: t.device_id,
                            kind: t.point.kind,
                            value: PointValue {
                                point_id: t.point.id,
                                point_key: t.point.key.clone(),
                                value,
                            },
                        },
                    );
                },
                None => {},
            }
        }
    }
    assert(v0.take(v0.len() as int) =~= v0);
    let mut bufs = open_buffers(devices);
    let ghost empty = bufs@;
    fill_buffers(&mut bufs, out);
    proof {
        assert forall|d: i32| has_device(devices@, d) <==> #[trigger] has_buffer(bufs@, d) by {
            assert(has_device(devices@, d) <==> has_buffer(empty, d));
            if has_buffer(empty, d) {
                let j = choose|j: int| 0 <= j < empty.len() && (#[trigger] empty[j]).device_id == d;
                assert(bufs@[j].device_id == d);
            }
            if has_buffer(bufs@, d) {
                let j = choose|j: int| 0 <= j < bufs@.len() && (#[trigger] bufs@[j]).device_id == d;
                assert(empty[j].device_id == d);
            }
        }
        assert(sorted_by_device(bufs@)) by {
            assert forall|i: int, j: int| 0 <= i < j < bufs@.len() implies (
            #[trigger] bufs@[i]).device_id < (#[trigger] bufs@[j]).device_id by {
                assert(empty[i].device_id < empty[j].device_id);
            }
        }
        assert forall|j: int| 0 <= j < bufs@.len() implies (#[trigger] bufs@[j]).device_name@
            == devices@[first_device(devices@, bufs@[j].device_id)].1@ by {
            assert(empty[j].device_name == bufs@[j].device_name);
        }
        assert(holds_values(bufs@, devices@, collected(targets@, v0)));
    }
    publications(bufs)
}

} // verus!
