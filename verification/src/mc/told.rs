//! What is said where something cannot be done, and of what it is said: the
//! first that fails, in its own words.

use super::codec::{json_refusal, short_payload};
use super::collect::{
    first_refused, holds_values, plan_reads, planned, reads_all, says_first_refusal, some_refused,
    CollectPlan, CollectTarget,
};
use super::converter::{
    converts_all, first_bad_input, inputs_outcome, is_parameter, is_resolved, parameter_of,
    resolved, AddressOf, InputModel,
};
use super::driver::{
    can_be_cut, first_refused as first_refused_parameter, parsed_parameter_spec,
};
use super::handle::{
    bytes_outcome, first_bad_parameter, parameter_spec, read_spec, write_of, ResolvedParameter,
    TypedPointReadSpec,
};
use super::protocol::error::{violates, Error};
use super::protocol::grouping::{
    contiguous, groups_are_contiguous_and_within_limits, groups_keep_all_items, total_len,
};
use super::protocol::order::{stable_sort, stable_sort_sorts};
use super::protocol::planner::{PlannerConfig, PointReadSpec, WriteBatch, WriteEntry};
use super::protocol::planning::lemma_in_groups;
use super::protocol::random::{
    read_command_of, write_command_of, writes_view, RandomReadBatchSpec, RandomReadEntry,
    RandomWindow, RandomWriteBatchSpec, RandomWriteEntry,
};
use super::protocol::session::bits::{
    bit_groups, bit_limits_spec, bit_write_groups, encoded_bits, entry_bits, first_unfit, is_bit_write,
    BitWriteBatch,
};
use super::protocol::session::random_access::{
    is_random_count, no_bits, read_devices, write_devices,
};
use super::protocol::session::reads::is_read_count;
use super::protocol::session::writes::word_block;
use super::types::{McAddress, McParameter};
use crate::gateway::{
    config_error, first_device, has_buffer, has_device, values_for, DataPointType, DataType,
    DeviceBuffers, DriverError, RoutedValue,
};
use crate::wire::bytes_content;
use vstd::prelude::*;

verus! {

/// The words with which a JSON value of the wrong kind is refused.
pub proof fn words_of_refused_json()
    ensures
        json_refusal(DataType::Boolean)
            == "MC encode: expected boolean JSON value for DataType::Boolean"@,
        json_refusal(DataType::Int8)
            == "MC encode: expected integer JSON value for DataType::Int8"@,
        json_refusal(DataType::UInt8)
            == "MC encode: expected unsigned integer JSON value for DataType::UInt8"@,
        json_refusal(DataType::Int16)
            == "MC encode: expected integer JSON value for DataType::Int16"@,
        json_refusal(DataType::UInt16)
            == "MC encode: expected unsigned integer JSON value for DataType::UInt16"@,
        json_refusal(DataType::Int32)
            == "MC encode: expected integer JSON value for DataType::Int32"@,
        json_refusal(DataType::UInt32)
            == "MC encode: expected unsigned integer JSON value for DataType::UInt32"@,
        json_refusal(DataType::Int64)
            == "MC encode: expected integer JSON value for DataType::Int64"@,
        json_refusal(DataType::UInt64)
            == "MC encode: expected unsigned integer JSON value for DataType::UInt64"@,
        json_refusal(DataType::Float32)
            == "MC encode: expected number JSON value for DataType::Float32"@,
        json_refusal(DataType::Float64)
            == "MC encode: expected number JSON value for DataType::Float64"@,
        json_refusal(DataType::String)
            == "MC encode: expected string JSON value for DataType::String"@,
        json_refusal(DataType::Binary)
            == "MC encode: DataType::Binary/Timestamp is not supported yet"@,
        json_refusal(DataType::Timestamp)
            == "MC encode: DataType::Binary/Timestamp is not supported yet"@,
{
}

/// The words for a payload that is too short for a number.
pub proof fn words_of_short_payloads()
    ensures
        short_payload(DataType::Int8) == "MC decode: insufficient bytes for DataType::Int8"@,
        short_payload(DataType::UInt8) == "MC decode: insufficient bytes for DataType::UInt8"@,
        short_payload(DataType::Int16) == "MC decode: insufficient bytes for DataType::Int16"@,
        short_payload(DataType::UInt16) == "MC decode: insufficient bytes for DataType::UInt16"@,
        short_payload(DataType::Int32) == "MC decode: insufficient bytes for DataType::Int32"@,
        short_payload(DataType::UInt32) == "MC decode: insufficient bytes for DataType::UInt32"@,
        short_payload(DataType::Int64) == "MC decode: insufficient bytes for DataType::Int64"@,
        short_payload(DataType::UInt64) == "MC decode: insufficient bytes for DataType::UInt64"@,
        short_payload(DataType::Float32) == "MC decode: insufficient bytes for DataType::Float32"@,
        short_payload(DataType::Float64) == "MC decode: insufficient bytes for DataType::Float64"@,
{
}

/// A collection is refused for the first point that cannot be read, and only
/// where there is one.
pub proof fn first_unreadable_point_is_told(
    e: DriverError,
    targets: Seq<CollectTarget>,
    specs: Seq<TypedPointReadSpec>,
)
    ensures
        some_refused(targets) <==> exists|i: int|
            0 <= i < targets.len() && read_spec(i, (#[trigger] targets[i]).point) is Err,
        says_first_refusal(e, targets) ==> exists|i: int|
            0 <= i < targets.len() && (e matches DriverError::ConfigurationError(x) && read_spec(
                i,
                (#[trigger] targets[i]).point,
            ) == Err::<TypedPointReadSpec, Seq<char>>(x@)) && forall|j: int|
                0 <= j < i ==> read_spec(j, (#[trigger] targets[j]).point) is Ok,
        reads_all(targets, specs) ==> specs.len() == targets.len() && forall|i: int|
            0 <= i < targets.len() ==> read_spec(i, (#[trigger] targets[i]).point) == Ok::<
                TypedPointReadSpec,
                Seq<char>,
            >(specs[i]),
{
    if exists|i: int| 0 <= i < targets.len() && read_spec(i, (#[trigger] targets[i]).point) is Err {
        let i = choose|i: int|
            0 <= i < targets.len() && read_spec(i, (#[trigger] targets[i]).point) is Err;
        lemma_first_refused(targets, i);
    }
    if some_refused(targets) {
        let i = choose|i: int| first_refused(targets, i);
        assert(read_spec(i, targets[i].point) is Err);
    }
    if says_first_refusal(e, targets) {
        let i = choose|i: int|
            #![trigger first_refused(targets, i)]
            first_refused(targets, i) && config_error(
                e,
                read_spec(i, targets[i].point)->Err_0,
            );
        assert(read_spec(i, targets[i].point) is Err);
    }
}

proof fn lemma_first_refused(targets: Seq<CollectTarget>, i: int)
    requires
        0 <= i < targets.len(),
        read_spec(i, targets[i].point) is Err,
    ensures
        some_refused(targets),
    decreases i,
{
    if exists|j: int| 0 <= j < i && read_spec(j, (#[trigger] targets[j]).point) is Err {
        let j = choose|j: int| 0 <= j < i && read_spec(j, (#[trigger] targets[j]).point) is Err;
        lemma_first_refused(targets, j);
    } else {
        assert(first_refused(targets, i));
    }
}

/// A plan reads every target of the collection, shared out over the pool.
pub proof fn plans_read_every_target(plan: CollectPlan, pool_size: usize)
    requires
        plan_reads(plan, pool_size),
    ensures
        exists|specs: Seq<TypedPointReadSpec>|
            #![trigger planned(specs, plan.groups@, pool_size)]
            planned(specs, plan.groups@, pool_size) && specs.len() == plan.targets@.len()
                && forall|i: int|
                0 <= i < specs.len() ==> read_spec(i, plan.targets@[i].point) == Ok::<
                    TypedPointReadSpec,
                    Seq<char>,
                >(#[trigger] specs[i]),
{
    let specs = choose|specs: Seq<TypedPointReadSpec>|
        #![trigger reads_all(plan.targets@, specs)]
        reads_all(plan.targets@, specs) && planned(specs, plan.groups@, pool_size);
    assert forall|i: int| 0 <= i < specs.len() implies read_spec(i, plan.targets@[i].point) == Ok::<
        TypedPointReadSpec,
        Seq<char>,
    >(#[trigger] specs[i]) by {
        assert(read_spec(i, plan.targets@[i].point) == Ok::<TypedPointReadSpec, Seq<char>>(
            specs[i],
        ));
    }
    assert(planned(specs, plan.groups@, pool_size));
}

/// Every device that is listed has one buffer, under the name with which it is
/// first listed, with the values of its own.
pub proof fn listed_devices_have_their_buffers(
    bufs: Seq<DeviceBuffers>,
    devices: Seq<(i32, String)>,
    values: Seq<RoutedValue>,
    k: int,
)
    requires
        holds_values(bufs, devices, values),
        0 <= k < devices.len(),
        forall|i: int| 0 <= i < k ==> (#[trigger] devices[i]).0 != devices[k].0,
    ensures
        exists|j: int|
            0 <= j < bufs.len() && (#[trigger] bufs[j]).device_id == devices[k].0
                && bufs[j].device_name@ == devices[k].1@ && bufs[j].telemetry@ == values_for(
                values,
                devices[k].0,
                DataPointType::Telemetry,
            ) && bufs[j].attributes@ == values_for(values, devices[k].0, DataPointType::Attribute),
        forall|i: int, j: int|
            0 <= i < bufs.len() && 0 <= j < bufs.len() && (#[trigger] bufs[i]).device_id == (
            #[trigger] bufs[j]).device_id ==> i == j,
        forall|i: int, j: int|
            0 <= i < j < bufs.len() ==> (#[trigger] bufs[i]).device_id < (
            #[trigger] bufs[j]).device_id,
{
    let d = devices[k].0;
    lemma_first_device(devices, k);
    assert(has_device(devices, d));
    assert(has_buffer(bufs, d));
    let j = choose|j: int| 0 <= j < bufs.len() && (#[trigger] bufs[j]).device_id == d;
    assert(bufs[j].device_name@ == devices[k].1@);
}

proof fn lemma_first_device(devices: Seq<(i32, String)>, k: int)
    requires
        0 <= k < devices.len(),
        forall|i: int| 0 <= i < k ==> (#[trigger] devices[i]).0 != devices[k].0,
    ensures
        first_device(devices, devices[k].0) == k,
    decreases k,
{
    if k > 0 {
        assert(devices[0].0 != devices[k].0);
        let rest = devices.skip(1);
        assert forall|i: int| 0 <= i < k - 1 implies (#[trigger] rest[i]).0 != rest[k - 1].0 by {
            assert(rest[i] == devices[i + 1]);
        }
        assert(rest[k - 1] == devices[k]);
        lemma_first_device(rest, k - 1);
    }
}

/// The conversion of a configured address gives the text back with the address
/// that it stands for, or a configuration error with the reason.
pub proof fn conversions_keep_the_text(
    r: Result<McAddress, DriverError>,
    raw: Seq<char>,
    of: AddressOf,
)
    requires
        is_resolved(r, raw, of),
    ensures
        r is Ok <==> resolved(raw, of) is Ok,
        r matches Ok(x) ==> x.raw@ == raw && (resolved(raw, of) matches Ok(a) && x.logical == Some(
            a,
        )),
        r matches Err(e) ==> (resolved(raw, of) matches Err(text) && (e
            matches DriverError::ConfigurationError(w) && w@ == text)),
{
}

/// The inputs of an action are converted one for one, or the first that cannot
/// be is told.
pub proof fn inputs_are_converted_one_for_one(
    inputs: Seq<InputModel>,
    r: Result<Vec<McParameter>, DriverError>,
)
    requires
        inputs_outcome(inputs, r),
    ensures
        r matches Ok(v) ==> v@.len() == inputs.len() && forall|i: int|
            0 <= i < inputs.len() ==> (parameter_of(#[trigger] inputs[i]) matches Ok(a)
                && is_parameter(v@[i], inputs[i], a)),
        r matches Err(e) ==> exists|i: int|
            0 <= i < inputs.len() && (e matches DriverError::ConfigurationError(w) && (parameter_of(
                #[trigger] inputs[i],
            ) matches Err(text) && w@ == text)) && forall|j: int|
                0 <= j < i ==> parameter_of(#[trigger] inputs[j]) is Ok,
{
    match r {
        Ok(v) => {
            assert(converts_all(inputs, v@));
        },
        Err(e) => {
            let i = choose|i: int|
                #![trigger first_bad_input(inputs, i)]
                first_bad_input(inputs, i) && config_error(
                    e,
                    parameter_of(inputs[i])->Err_0,
                );
            assert(parameter_of(inputs[i]) is Err);
        },
    }
}

/// An action is refused for the first parameter that cannot be written.
pub proof fn first_bad_parameters_are_told(
    action: Seq<char>,
    params: Seq<ResolvedParameter>,
    i: int,
)
    ensures
        first_bad_parameter(action, params, i) <==> 0 <= i < params.len() && parameter_spec(
            action,
            params[i],
        ) is Err && forall|j: int| 0 <= j < i ==> parameter_spec(action, #[trigger] params[j]) is Ok,
        first_refused_parameter(action, params, i) ==> 0 <= i < params.len()
            && parsed_parameter_spec(action, params[i]) is Err && forall|j: int|
            0 <= j < i ==> parsed_parameter_spec(action, #[trigger] params[j]) is Ok,
        0 <= i < params.len() && parsed_parameter_spec(action, params[i]) is Err && (forall|j: int|
            0 <= j <= i ==> can_be_cut((#[trigger] params[j]).param.address.raw@)) && (forall|
            j: int,
        |
            0 <= j < i ==> parsed_parameter_spec(action, #[trigger] params[j]) is Ok)
            ==> first_refused_parameter(action, params, i),
{
}

/// The write of an entry is that of its address, points, code and data, and
/// the outcome of a cast is its bytes or its words.
pub proof fn entries_are_written_as_they_are(e: WriteEntry, data: Result<Vec<u8>, String>)
    ensures
        write_of(e).addr == e.addr,
        write_of(e).word_len == e.word_len,
        write_of(e).device_code == e.device_code,
        write_of(e).data == bytes_content(e.data),
        data matches Ok(b) ==> bytes_outcome(data) == Ok::<Seq<u8>, Seq<char>>(b@),
        data matches Err(why) ==> bytes_outcome(data) == Err::<Seq<u8>, Seq<char>>(why@),
{
}

/// A read has an item for every index up to the greatest one.
pub proof fn items_are_counted_to_the_greatest_index(
    points: Seq<PointReadSpec>,
    entries: Seq<RandomReadEntry>,
    n: nat,
    i: int,
)
    ensures
        is_read_count(points, n) && points.len() == 0 ==> n == 0,
        is_read_count(points, n) && 0 <= i < points.len() && (forall|j: int|
            0 <= j < points.len() ==> (#[trigger] points[j]).index <= points[i].index) ==> n
            == points[i].index + 1,
        is_random_count(entries, n) && entries.len() == 0 ==> n == 0,
        is_random_count(entries, n) && 0 <= i < entries.len() && (forall|j: int|
            0 <= j < entries.len() ==> (#[trigger] entries[j]).index <= entries[i].index) ==> n
            == entries[i].index + 1,
{
    if is_read_count(points, n) && 0 <= i < points.len() {
        assert(points[i].index < n);
    }
    if is_random_count(entries, n) && 0 <= i < entries.len() {
        assert(entries[i].index < n);
    }
}

/// A bit write stops at the first entry that is of no bit device or brings no
/// data.
pub proof fn unfit_bit_writes_are_found(s: Seq<WriteEntry>, i: int)
    ensures
        0 <= first_unfit(s) <= s.len(),
        0 <= i < first_unfit(s) ==> s[i].addr.device.bit_spec() && bytes_content(s[i].data).len()
            > 0,
        first_unfit(s) < s.len() ==> !s[first_unfit(s)].addr.device.bit_spec() || bytes_content(
            s[first_unfit(s)].data,
        ).len() == 0,
    decreases s.len(),
{
    if s.len() > 0 {
        unfit_bit_writes_are_found(s.skip(1), i - 1);
        if i > 0 && i < s.len() {
            assert(s.skip(1)[i - 1] == s[i]);
        }
    }
}

/// Every bit point is read in a group of bits without gaps, within the limit
/// of points; so is every bit entry written.
pub proof fn every_bit_has_its_group(
    config: PlannerConfig,
    points: Seq<PointReadSpec>,
    entries: Seq<WriteEntry>,
    k: int,
)
    ensures
        0 <= k < points.len() ==> exists|i: int, j: int|
            0 <= i < bit_groups(config, points).len() && 0 <= j < bit_groups(config, points)[i].len()
                && #[trigger] bit_groups(config, points)[i][j] == points[k],
        0 <= k < bit_groups(config, points).len() ==> {
            let g = bit_groups(config, points)[k];
            contiguous(g) && total_len(g) <= 0xFFFF && (g.len() > 1 ==> total_len(g)
                <= config.max_points_per_batch)
        },
        0 <= k < entries.len() ==> exists|i: int, j: int|
            0 <= i < bit_write_groups(config, entries).len() && 0 <= j < bit_write_groups(
                config,
                entries,
            )[i].len() && #[trigger] bit_write_groups(config, entries)[i][j] == entries[k],
        0 <= k < bit_write_groups(config, entries).len() ==> {
            let g = bit_write_groups(config, entries)[k];
            contiguous(g) && total_len(g) <= 0xFFFF && (g.len() > 1 ==> total_len(g)
                <= config.max_points_per_batch)
        },
{
    broadcast use vstd::seq_lib::group_to_multiset_ensures;

    let lim = bit_limits_spec(config);
    groups_are_contiguous_and_within_limits(lim, stable_sort(points));
    groups_are_contiguous_and_within_limits(lim, stable_sort(entries));
    if 0 <= k < points.len() {
        let sorted = stable_sort(points);
        stable_sort_sorts(points);
        assert(points.contains(points[k]));
        assert(points.to_multiset().count(points[k]) > 0);
        assert(sorted.contains(points[k]));
        groups_keep_all_items(lim, sorted);
        let (i, j) = lemma_in_groups(bit_groups(config, points), points[k]);
        assert(bit_groups(config, points)[i][j] == points[k]);
    }
    if 0 <= k < entries.len() {
        let sorted = stable_sort(entries);
        stable_sort_sorts(entries);
        assert(entries.contains(entries[k]));
        assert(entries.to_multiset().count(entries[k]) > 0);
        assert(sorted.contains(entries[k]));
        groups_keep_all_items(lim, sorted);
        let (i, j) = lemma_in_groups(bit_write_groups(config, entries), entries[k]);
        assert(bit_write_groups(config, entries)[i][j] == entries[k]);
    }
}

/// A bit write starts at its first entry and sets one bit per entry, where its
/// data does not start with 0.
pub proof fn bit_writes_hold_one_bit_per_entry(b: BitWriteBatch, g: Seq<WriteEntry>, bits: Seq<bool>)
    requires
        is_bit_write(b, g),
        bits.len() == g.len(),
        forall|i: int|
            0 <= i < g.len() ==> bytes_content((#[trigger] g[i]).data).len() > 0 && (bits[i]
                <==> bytes_content(g[i].data)[0] != 0),
    ensures
        b.device_code == g[0].device_code,
        b.head == g[0].addr.head,
        b.points == total_len(g),
        bytes_content(b.data) == encoded_bits(bits),
{
    let e = entry_bits(g);
    assert forall|i: int| 0 <= i < g.len() implies e[i] == bits[i] by {
        assert(bytes_content(g[i].data).len() > 0);
    }
    assert(e =~= bits);
}

/// A batch of words is written as the block of its head, points, code and
/// data.
pub proof fn word_batches_are_written_as_blocks(b: WriteBatch)
    ensures
        word_block(b).head == b.head,
        word_block(b).points == b.points,
        word_block(b).device_code == b.device_code,
        word_block(b).data == b.data,
{
}

/// A random read command takes the items of its window, in their order.
pub proof fn random_reads_take_their_window(
    b: RandomReadBatchSpec,
    words: Seq<RandomReadEntry>,
    dwords: Seq<RandomReadEntry>,
    x: RandomWindow,
    i: int,
)
    requires
        read_command_of(b, words, dwords, x),
        x.w_off + x.w_len <= words.len(),
        x.d_off + x.d_len <= dwords.len(),
    ensures
        b.word_entries@.len() == x.w_len,
        b.dword_entries@.len() == x.d_len,
        0 <= i < x.w_len ==> b.word_entries@[i] == words[x.w_off + i],
        0 <= i < x.d_len ==> b.dword_entries@[i] == dwords[x.d_off + i],
{
}

/// A random write command takes the items of its window, in their order.
pub proof fn random_writes_take_their_window(
    b: RandomWriteBatchSpec,
    words: Seq<RandomWriteEntry>,
    dwords: Seq<RandomWriteEntry>,
    x: RandomWindow,
    i: int,
)
    requires
        write_command_of(b, words, dwords, x),
        x.w_off + x.w_len <= words.len(),
        x.d_off + x.d_len <= dwords.len(),
    ensures
        b.word_entries@.len() == x.w_len,
        b.dword_entries@.len() == x.d_len,
        0 <= i < x.w_len ==> b.word_entries@[i]@ == words[x.w_off + i]@,
        0 <= i < x.d_len ==> b.dword_entries@[i]@ == dwords[x.d_off + i]@,
{
    let w = writes_view(b.word_entries@);
    let d = writes_view(b.dword_entries@);
    assert(w.len() == b.word_entries@.len());
    assert(d.len() == b.dword_entries@.len());
    if 0 <= i < x.w_len {
        assert(w[i] == b.word_entries@[i]@);
    }
    if 0 <= i < x.d_len {
        assert(d[i] == b.dword_entries@[i]@);
    }
}

/// Random access takes no bit devices.
pub proof fn random_access_takes_no_bits(
    reads: Seq<RandomReadEntry>,
    writes: Seq<RandomWriteEntry>,
    i: int,
)
    ensures
        no_bits(read_devices(reads)) && 0 <= i < reads.len()
            ==> !reads[i].addr.device.bit_spec(),
        no_bits(write_devices(writes)) && 0 <= i < writes.len()
            ==> !writes[i].addr.device.bit_spec(),
        (forall|k: int| 0 <= k < reads.len() ==> !(#[trigger] reads[k]).addr.device.bit_spec())
            ==> no_bits(read_devices(reads)),
        (forall|k: int| 0 <= k < writes.len() ==> !(#[trigger] writes[k]).addr.device.bit_spec())
            ==> no_bits(write_devices(writes)),
{
    let r = read_devices(reads);
    let w = write_devices(writes);
    if 0 <= i < reads.len() {
        assert(r[i] == reads[i].addr.device);
    }
    if 0 <= i < writes.len() {
        assert(w[i] == writes[i].addr.device);
    }
}

/// A violation of the protocol says what it is of.
pub proof fn violations_say_what_they_are_of(e: Error, context: Seq<char>)
    ensures
        violates(e, context) <==> (e matches Error::ProtocolViolation { context: c } && c@
            == context),
{
}

} // verus!
