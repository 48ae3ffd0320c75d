//! What is asked of a controller: which accesses are let through, with what
//! words the others are refused, and how requests stand on the wire.

use super::codec::{cast_error_text, value_bytes};
use super::driver::{parsed_parameter_spec, parsed_write_spec};
use super::handle::{
    boolean_only, not_allowed, parameter_at_spec, parameter_spec, point_write_at_spec,
    point_write_spec, refused_with, target_spec, words_spec, AccessFor, Refusal,
    ResolvedParameter, WriteOf,
};
use super::protocol::codec::message_bytes;
use super::protocol::frame::addr::{parsed, McLogicalAddress};
use super::protocol::frame::builder::timer_units;
use super::protocol::frame::format::{
    batch_request_bytes, request_bytes_3e,
    requests_take_the_default_route,
};
use super::protocol::frame::message::McMessage;
use super::protocol::planner::{PointReadSpec, WriteEntry};
use super::protocol::random::{RandomReadEntry, RandomWriteEntry};
use super::protocol::session::random_access::{
    dword_reads, dword_writes, read_addrs, word_reads, word_writes, write_items,
};
use super::protocol::session::reads::{bit_points, word_points, PointReads};
use super::protocol::session::state::{monitoring_ms_spec, SessionConfig};
use super::protocol::session::writes::{
    bit_entries, is_write_of, word_entries, writes_blocks, BlockWrite,
};
use super::types::McPoint;
use crate::gateway::{DataType, DriverError};
use crate::wire::bytes_content;
use vstd::prelude::*;

verus! {

/// A point is written exactly where it takes writes, has an address that can
/// be accessed and its value could be turned into bytes; the write takes the
/// points and the code of the access. Otherwise the first of these that fails
/// is what it is refused for.
pub proof fn points_are_written_where_they_can_be(
    p: McPoint,
    logical: Option<McLogicalAddress>,
    value_type: DataType,
    data: Result<Seq<u8>, Seq<char>>,
)
    ensures
        ({
            let r = point_write_at_spec(p, logical, value_type, data);
            let writeable = p.access_mode is Write || p.access_mode is ReadWrite;
            let access = target_spec(
                AccessFor::Write,
                logical->0,
                p.address.raw@,
                p.data_type,
                p.string_len_bytes,
            );
            &&& r is Ok <==> writeable && logical is Some && access is Ok && data is Ok
            &&& r matches Ok(w) ==> access == Ok::<(u16, u16), Seq<char>>(
                (w.word_len, w.device_code),
            )
            &&& !writeable ==> r == Err::<WriteOf, Refusal>(
                Refusal::Validation("point is not writeable"@),
            )
            &&& writeable && logical is None ==> r == Err::<WriteOf, Refusal>(
                Refusal::Config("MC logical address not resolved for point '"@ + p.key@ + "'"@),
            )
            &&& writeable && logical is Some ==> (access matches Err(why) ==> r == Err::<
                WriteOf,
                Refusal,
            >(Refusal::Config(why)))
            &&& writeable && logical is Some && access is Ok ==> (data matches Err(why) ==> r
                == Err::<WriteOf, Refusal>(
                Refusal::Validation(
                    "Expected numeric value, got "@ + value_type.name_spec() + ": "@ + why,
                ),
            ))
        }),
        point_write_spec(p, value_type, data) == point_write_at_spec(
            p,
            p.address.logical,
            value_type,
            data,
        ),
{
}

/// A point that takes writes is written where its value is valid and its text
/// names an address, as at that address.
pub proof fn written_points_are_found_by_their_text(
    p: McPoint,
    valid: bool,
    value_type: DataType,
    data: Result<Seq<u8>, Seq<char>>,
)
    ensures
        ({
            let r = parsed_write_spec(p, valid, value_type, data);
            let writeable = p.access_mode is Write || p.access_mode is ReadWrite;
            &&& !writeable ==> r == Err::<WriteOf, Refusal>(
                Refusal::Validation("point is not writeable"@),
            )
            &&& writeable && !valid ==> r == Err::<WriteOf, Refusal>(
                Refusal::Validation(
                    "type mismatch: expected "@ + p.data_type.name_spec() + ", got "@
                        + value_type.name_spec(),
                ),
            )
            &&& writeable && valid ==> (parsed(p.address.raw@) matches Ok(a) ==> r
                == point_write_at_spec(p, Some(a), value_type, data))
            &&& writeable && valid ==> (parsed(p.address.raw@) matches Err(why) ==> r == Err::<
                WriteOf,
                Refusal,
            >(Refusal::Config("Invalid MC address '"@ + p.address.raw@ + "': "@ + why)))
        }),
{
}

/// A parameter of an action is written exactly where its text names an address
/// that can be accessed and its value could be cast; the write takes the
/// points and the code of the access and the bytes of the value.
pub proof fn parameters_are_written_where_they_can_be(
    action: Seq<char>,
    p: ResolvedParameter,
    logical: Option<McLogicalAddress>,
)
    ensures
        ({
            let r = parameter_at_spec(action, p, logical);
            let access = target_spec(
                AccessFor::Action(action),
                logical->0,
                p.param.address.raw@,
                p.param.data_type,
                p.param.string_len_bytes,
            );
            &&& r is Ok <==> logical is Some && access is Ok && p.cast is Ok
            &&& r matches Ok(w) ==> access == Ok::<(u16, u16), Seq<char>>(
                (w.word_len, w.device_code),
            ) && (p.cast matches Ok(v) && w.data == value_bytes(v))
            &&& logical is None ==> r == Err::<WriteOf, Refusal>(
                Refusal::Config(
                    "MC logical address not resolved for point '"@ + p.param.key@ + "'"@,
                ),
            )
            &&& logical is Some ==> (access matches Err(why) ==> r == Err::<WriteOf, Refusal>(
                Refusal::Config(why),
            ))
            &&& logical is Some && access is Ok ==> (p.cast matches Err(why) ==> r == Err::<
                WriteOf,
                Refusal,
            >(Refusal::Execution(cast_error_text(p.param.data_type, why@))))
        }),
        parameter_spec(action, p) == parameter_at_spec(action, p, p.param.address.logical),
        parsed(p.param.address.raw@) matches Ok(a) ==> parsed_parameter_spec(action, p)
            == parameter_at_spec(action, p, Some(a)),
        parsed(p.param.address.raw@) matches Err(why) ==> parsed_parameter_spec(action, p)
            == Err::<WriteOf, Refusal>(
            Refusal::Config(
                "Invalid MC address '"@ + p.param.address.raw@ + "' in action parameter: "@ + why,
            ),
        ),
{
}

/// The words with which accesses are refused: a bit device that is asked for
/// anything but a boolean, an address with a bit index, and a device outside
/// of batches.
pub proof fn words_of_refused_accesses(
    a: AccessFor,
    addr: McLogicalAddress,
    raw: Seq<char>,
    t: DataType,
    string_len_bytes: Option<u16>,
)
    ensures
        ({
            let r = target_spec(a, addr, raw, t, string_len_bytes);
            let d = addr.device;
            let task = if a is Collect {
                "collect_data"@
            } else if a is Action {
                "execute_action"@
            } else {
                "write_point"@
            };
            &&& d.bit_spec() && !(t is Boolean) ==> r == Err::<(u16, u16), Seq<char>>(
                "MC bit device "@ + d.symbol_spec() + boolean_only(a),
            )
            &&& d.bit_spec() && t is Boolean && addr.bit is Some ==> r == Err::<
                (u16, u16),
                Seq<char>,
            >("Bit-indexed MC address '"@ + raw + "' is not supported yet for "@ + task)
            &&& !d.bit_spec() && addr.bit is Some ==> r == Err::<(u16, u16), Seq<char>>(
                "Unsupported MC address for "@ + task + ": '"@ + raw + "'"@,
            )
            &&& !d.bit_spec() && addr.bit is None && (d.no_batch_read_spec() || (!(a is Collect)
                && d.no_batch_write_spec())) ==> r == Err::<(u16, u16), Seq<char>>(
                "MC device type "@ + d.symbol_spec() + not_allowed(a),
            )
            &&& !d.bit_spec() && r is Err && addr.bit is None && !d.no_batch_write_spec() ==> (
            words_spec(t, string_len_bytes) matches Err(why) && r == Err::<(u16, u16), Seq<char>>(
                why,
            ))
        }),
        a matches AccessFor::Collect(key) ==> boolean_only(a)
            == " only supports Boolean data type for point '"@ + key + "'"@ && not_allowed(a)
            == " is not allowed for batch word read (point '"@ + key + "')"@,
        a matches AccessFor::Action(name) ==> boolean_only(a)
            == " only supports Boolean data type in action '"@ + name + "'"@ && not_allowed(a)
            == " is not allowed for batch word write (action '"@ + name + "')"@,
        a is Write ==> boolean_only(a) == " only supports Boolean data type for write_point"@
            && not_allowed(a) == " is not allowed for batch word write (write_point)"@,
{
}

/// The words for a value that cannot be cast name what its type expects, and
/// give the reason but for text and bytes.
pub proof fn words_of_failed_casts(t: DataType, why: Seq<char>)
    ensures
        t is String ==> cast_error_text(t, why) == "MC encode: expected string for DataType::String"@,
        t is Binary ==> cast_error_text(t, why) == "MC encode: expected binary for DataType::Binary"@,
        t is Boolean ==> cast_error_text(t, why) == "MC encode: expected bool: "@ + why,
        t is Int8 ==> cast_error_text(t, why) == "MC encode: expected i8: "@ + why,
        t is UInt8 ==> cast_error_text(t, why) == "MC encode: expected u8: "@ + why,
        t is Int16 ==> cast_error_text(t, why) == "MC encode: expected i16: "@ + why,
        t is UInt16 ==> cast_error_text(t, why) == "MC encode: expected u16: "@ + why,
        t is Int32 ==> cast_error_text(t, why) == "MC encode: expected i32: "@ + why,
        t is UInt32 ==> cast_error_text(t, why) == "MC encode: expected u32: "@ + why,
        t is Int64 ==> cast_error_text(t, why) == "MC encode: expected i64: "@ + why,
        t is UInt64 ==> cast_error_text(t, why) == "MC encode: expected u64: "@ + why,
        t is Float32 ==> cast_error_text(t, why) == "MC encode: expected f32: "@ + why,
        t is Float64 ==> cast_error_text(t, why) == "MC encode: expected f64: "@ + why,
        t is Timestamp ==> cast_error_text(t, why) == "MC encode: expected timestamp(i64 ms): "@
            + why,
{
}

/// A refusal becomes the error of its kind, with its words.
pub proof fn refusals_become_errors_of_their_kind(e: DriverError, why: Refusal)
    requires
        refused_with(e, why),
    ensures
        why matches Refusal::Config(text) ==> (e matches DriverError::ConfigurationError(x) && x@
            == text),
        why matches Refusal::Validation(text) ==> (e matches DriverError::ValidationError(x) && x@
            == text),
        why matches Refusal::Execution(text) ==> (e matches DriverError::ExecutionError(x) && x@
            == text),
{
}

/// The header of a request on the wire: a 3E request to the own station, with
/// the timeout in quarters of a second.
pub open spec fn starts_a_request(b: Seq<u8>, timeout_ms: u32) -> bool {
    &&& b.len() >= 15
    &&& b[2] == 0 && b[3] == 0xFF && b[4] == 0xFF && b[5] == 3 && b[6] == 0
    &&& b[7] + 256 * b[8] == b.len() - 9
    &&& b[9] + 256 * b[10] == timer_units(timeout_ms)
}

/// A batch read on the wire: header, command and subcommand, head, number of
/// points and device code.
pub proof fn batch_reads_in_bytes(
    m: McMessage,
    config: SessionConfig,
    head: u32,
    points: u16,
    device_code: u16,
)
    requires
        PointReads::is_read_of(m, config, head, points, device_code),
    ensures
        ({
            let b = message_bytes(m);
            &&& b.len() == 23
            &&& starts_a_request(b, monitoring_ms_spec(config.read_timeout_ms))
            &&& b[0] + 256 * b[1] == config.frame_variant.sub_header_spec()
            &&& b[11] == 0x01 && b[12] == 0x04
            &&& b[13] == (if config.series is IQR {
                2
            } else {
                0int
            }) && b[14] == 0
            &&& b[15] + 256 * b[16] + 65536 * b[17] + 0x100_0000 * b[18] == head
            &&& b[19] + 256 * b[20] == points
            &&& b[21] + 256 * b[22] == device_code
        }),
{
    let pdu = m.body->Some_0->Parsed_0;
    requests_take_the_default_route(
        config.frame_variant,
        monitoring_ms_spec(config.read_timeout_ms),
    );
    batch_request_bytes(pdu);
    request_bytes_3e(m);
    let b = message_bytes(m);
    let p = pdu.encoded();
    assert(forall|i: int| 0 <= i < p.len() ==> #[trigger] b.skip(11)[i] == b[11 + i]);
    assert(b[11] == p[0] && b[12] == p[1] && b[13] == p[2] && b[14] == p[3]);
    assert(b[15] == p[4] && b[16] == p[5] && b[17] == p[6] && b[18] == p[7]);
    assert(b[19] == p[8] && b[20] == p[9] && b[21] == p[10] && b[22] == p[11]);
}

/// A batch write on the wire: as a batch read, and the data behind it.
pub proof fn batch_writes_in_bytes(m: McMessage, config: SessionConfig, w: BlockWrite)
    requires
        is_write_of(m, config, w),
        w.data.len() <= 0xFFF1,
    ensures
        ({
            let b = message_bytes(m);
            &&& b.len() == 23 + w.data.len()
            &&& starts_a_request(b, monitoring_ms_spec(config.write_timeout_ms))
            &&& b[0] + 256 * b[1] == config.frame_variant.sub_header_spec()
            &&& b[11] == 0x01 && b[12] == 0x14
            &&& b[13] == (if config.series is IQR {
                2
            } else {
                0int
            }) && b[14] == 0
            &&& b[15] + 256 * b[16] + 65536 * b[17] + 0x100_0000 * b[18] == w.head
            &&& b[19] + 256 * b[20] == w.points
            &&& b[21] + 256 * b[22] == w.device_code
            &&& b.skip(23) == w.data
        }),
{
    let pdu = m.body->Some_0->Parsed_0;
    requests_take_the_default_route(
        config.frame_variant,
        monitoring_ms_spec(config.write_timeout_ms),
    );
    batch_request_bytes(pdu);
    request_bytes_3e(m);
    let b = message_bytes(m);
    let p = pdu.encoded();
    assert(forall|i: int| 0 <= i < p.len() ==> #[trigger] b.skip(11)[i] == b[11 + i]);
    assert(b[11] == p[0] && b[12] == p[1] && b[13] == p[2] && b[14] == p[3]);
    assert(b[15] == p[4] && b[16] == p[5] && b[17] == p[6] && b[18] == p[7]);
    assert(b[19] == p[8] && b[20] == p[9] && b[21] == p[10] && b[22] == p[11]);
    assert(b.skip(23) =~= p.skip(12));
}

/// A write sends one request per block, in their order.
pub proof fn every_block_is_written_once(
    q: Seq<McMessage>,
    config: SessionConfig,
    blocks: Seq<BlockWrite>,
    i: int,
)
    requires
        writes_blocks(q, config, blocks),
    ensures
        q.len() == blocks.len(),
        0 <= i < blocks.len() ==> is_write_of(q[i], config, blocks[i]),
{
}

/// Points and entries of bit devices are accessed in batches of bits, all
/// others in batches of words. None is left out and none is added.
pub proof fn bits_and_words_are_told_apart(
    points: Seq<PointReadSpec>,
    p: PointReadSpec,
    entries: Seq<WriteEntry>,
    e: WriteEntry,
)
    ensures
        word_points(points).contains(p) <==> points.contains(p) && !p.addr.device.bit_spec(),
        bit_points(points).contains(p) <==> points.contains(p) && p.addr.device.bit_spec(),
        word_points(points).len() + bit_points(points).len() == points.len(),
        word_entries(entries).contains(e) <==> entries.contains(e) && !e.addr.device.bit_spec(),
        bit_entries(entries).contains(e) <==> entries.contains(e) && e.addr.device.bit_spec(),
        word_entries(entries).len() + bit_entries(entries).len() == entries.len(),
{
    lemma_other_part(
        points,
        |x: PointReadSpec| x.addr.device.bit_spec(),
        |x: PointReadSpec| !x.addr.device.bit_spec(),
        p,
    );
    lemma_other_part(
        entries,
        |x: WriteEntry| x.addr.device.bit_spec(),
        |x: WriteEntry| !x.addr.device.bit_spec(),
        e,
    );
}

/// Items of dword devices are accessed as dwords, all others as words.
pub proof fn words_and_dwords_are_told_apart(
    reads: Seq<RandomReadEntry>,
    r: RandomReadEntry,
    writes: Seq<RandomWriteEntry>,
    w: RandomWriteEntry,
)
    ensures
        word_reads(reads).contains(r) <==> reads.contains(r) && !r.addr.device.dword_spec(),
        dword_reads(reads).contains(r) <==> reads.contains(r) && r.addr.device.dword_spec(),
        word_reads(reads).len() + dword_reads(reads).len() == reads.len(),
        word_writes(writes).contains(w) <==> writes.contains(w) && !w.addr.device.dword_spec(),
        dword_writes(writes).contains(w) <==> writes.contains(w) && w.addr.device.dword_spec(),
        word_writes(writes).len() + dword_writes(writes).len() == writes.len(),
{
    lemma_other_part(
        reads,
        |x: RandomReadEntry| x.addr.device.dword_spec(),
        |x: RandomReadEntry| !x.addr.device.dword_spec(),
        r,
    );
    lemma_other_part(
        writes,
        |x: RandomWriteEntry| x.addr.device.dword_spec(),
        |x: RandomWriteEntry| !x.addr.device.dword_spec(),
        w,
    );
}

/// A filter keeps exactly the items that it is for.
proof fn lemma_parted<T>(s: Seq<T>, f: spec_fn(T) -> bool, x: T)
    ensures
        s.filter(f).contains(x) <==> s.contains(x) && f(x),
    decreases s.len(),
{
    reveal(Seq::filter);
    if s.len() > 0 {
        let d = s.drop_last();
        lemma_parted(d, f, x);
        assert(s =~= d.push(s.last()));
        assert(s.contains(x) <==> d.contains(x) || x == s.last()) by {
            if s.contains(x) && x != s.last() {
                let i = choose|i: int| 0 <= i < s.len() && s[i] == x;
                assert(d[i] == x);
            }
            if d.contains(x) {
                let i = choose|i: int| 0 <= i < d.len() && d[i] == x;
                assert(s[i] == x);
            }
            assert(s[s.len() - 1] == s.last());
        }
        let a = d.filter(f);
        let b = a.push(s.last());
        assert(b.contains(x) <==> a.contains(x) || x == s.last()) by {
            if b.contains(x) && x != s.last() {
                let i = choose|i: int| 0 <= i < b.len() && b[i] == x;
                assert(a[i] == x);
            }
            if a.contains(x) {
                let i = choose|i: int| 0 <= i < a.len() && a[i] == x;
                assert(b[i] == x);
            }
            assert(b[b.len() - 1] == s.last());
        }
    }
}

/// A filter and its opposite share the items out.
proof fn lemma_other_part<T>(s: Seq<T>, f: spec_fn(T) -> bool, g: spec_fn(T) -> bool, x: T)
    requires
        forall|y: T| #[trigger] f(y) != g(y),
    ensures
        s.filter(f).contains(x) <==> s.contains(x) && f(x),
        s.filter(g).contains(x) <==> s.contains(x) && g(x),
        s.filter(g).len() + s.filter(f).len() == s.len(),
    decreases s.len(),
{
    lemma_parted(s, f, x);
    lemma_parted(s, g, x);
    reveal(Seq::filter);
    if s.len() > 0 {
        lemma_other_part(s.drop_last(), f, g, x);
        assert(f(s.last()) != g(s.last()));
    }
}

/// A random command names the items in their order, each by head and code, a
/// write with its data.
pub proof fn random_items_are_named_in_order(
    reads: Seq<RandomReadEntry>,
    writes: Seq<RandomWriteEntry>,
    i: int,
)
    ensures
        read_addrs(reads).len() == reads.len(),
        0 <= i < reads.len() ==> read_addrs(reads)[i] == (reads[i].addr.head, reads[i].device_code),
        write_items(writes).len() == writes.len(),
        0 <= i < writes.len() ==> write_items(writes)[i] == (
            writes[i].addr.head,
            writes[i].device_code,
            bytes_content(writes[i].data),
        ),
{
}

} // verus!
