//! Bytes of information objects, field by field: qualities and qualifiers,
//! values, time tags, and the causes that each kind of information goes with.

use super::asdu::{Cause, InfoObjAddr, TypeID};
use super::cproc::{
    bits_command_tag, double_command_tag, float_command_tag, is_commanded, normal_command_tag,
    scaled_command_tag, single_command_tag, step_command_tag, BitsString32CommandInfo,
    DoubleCommandInfo, SetPointCommandFloatInfo, SetPointCommandNormalInfo,
    SetPointCommandScaledInfo, SingleCommandInfo, StepCommandInfo,
};
use super::mproc::{
    bits_tag, circuit_tag, double_tag, event_tag, float_tag, is_counted, is_interrogated,
    is_measured, is_monitored, is_reported, is_returned, is_scanned, normal_tag, packed_tag,
    scaled_tag, single_tag, start_tag, step_tag, totals_tag, InfoObject, ProtectionEventTdInfo,
    ProtectionEventTeInfo, ProtectionEventTfInfo,
};
use super::objects::layout_of;
use super::quality::{
    ObjectBCR, ObjectCOI, ObjectDCO, ObjectDIQ, ObjectOCI, ObjectQDP, ObjectQDS, ObjectQOC,
    ObjectQOS, ObjectRCO, ObjectSCO, ObjectSEP, ObjectSIQ, ObjectStartEP, ObjectVTI,
};
use super::time::{cp24, cp56, tag_at, TagKind, TagValue};
use crate::clock::{day_number, is_date, month_days, weekday_number, CivilTime};
use crate::wire::{lemma_le2, lemma_le4, twos};
use vstd::prelude::*;

verus! {

/// The weight of a flag.
pub open spec fn bit(set: bool, weight: int) -> int {
    if set {
        weight
    } else {
        0
    }
}

proof fn lemma_bits(x: u8)
    ensures
        x == bit(x >= 128, 128) + bit(x / 64 % 2 == 1, 64) + bit(x / 32 % 2 == 1, 32) + bit(
            x / 16 % 2 == 1,
            16,
        ) + x % 16,
        x % 16 == 2 * (x / 2 % 8) + bit(x % 2 == 1, 1),
        x % 16 == 4 * (x / 4 % 4) + x % 4,
        x % 16 == bit(x / 8 % 2 == 1, 8) + x % 8,
        x % 8 == 2 * (x / 2 % 4) + x % 2,
        x % 8 == bit(x / 4 % 2 == 1, 4) + x % 4,
{
    let a = x / 128;
    let b = x / 64 % 2;
    let c = x / 32 % 2;
    let d = x / 16 % 2;
    assert(x == 128 * a + 64 * b + 32 * c + 16 * d + x % 16);
    assert(x >= 128 <==> a == 1);
}

/// Quality bytes of points: invalid, not topical, substituted and blocked in
/// bits 7 to 4, below them spare bits and the state.
pub proof fn point_bytes(s: ObjectSIQ, d: ObjectDIQ)
    ensures
        s.raw == bit(s.invalid_spec(), 128) + bit(s.nt_spec(), 64) + bit(s.sb_spec(), 32) + bit(
            s.bl_spec(),
            16,
        ) + 2 * s.res_spec() + bit(s.spi_spec(), 1),
        s.res_spec() < 8,
        d.raw == bit(d.invalid_spec(), 128) + bit(d.nt_spec(), 64) + bit(d.sb_spec(), 32) + bit(
            d.bl_spec(),
            16,
        ) + 4 * d.res_spec() + d.spi_spec(),
        d.res_spec() < 4 && d.spi_spec() < 4,
{
    lemma_bits(s.raw);
    lemma_bits(d.raw);
}

/// Quality bytes of measured values: as for points, with the overflow flag in
/// bit 0; a step position has its transient flag in bit 7 above its value.
pub proof fn quality_bytes(q: ObjectQDS, v: ObjectVTI)
    ensures
        q.raw == bit(q.invalid_spec(), 128) + bit(q.nt_spec(), 64) + bit(q.sb_spec(), 32) + bit(
            q.bl_spec(),
            16,
        ) + 2 * q.res_spec() + bit(q.ov_spec(), 1),
        q.res_spec() < 8,
        v.raw == bit(v.transient_spec(), 128) + v.value_spec(),
        v.value_spec() < 128,
{
    lemma_bits(q.raw);
}

/// Bytes of protection events: as for points, with the elapsed time flag in
/// bit 3 and the state in bits 2 and 1.
pub proof fn protection_event_bytes(e: ObjectSEP, q: ObjectQDP)
    ensures
        e.raw == bit(e.invalid_spec(), 128) + bit(e.nt_spec(), 64) + bit(e.sb_spec(), 32) + bit(
            e.bl_spec(),
            16,
        ) + bit(e.ei_spec(), 8) + 2 * e.es_spec() + e.raw % 2,
        e.es_spec() < 4,
        q.raw == bit(q.invalid_spec(), 128) + bit(q.nt_spec(), 64) + bit(q.sb_spec(), 32) + bit(
            q.bl_spec(),
            16,
        ) + bit(q.ei_spec(), 8) + q.res_spec(),
        q.res_spec() < 8,
{
    lemma_bits(e.raw);
    lemma_bits(q.raw);
}

/// Bytes of starts and of output circuits of protection equipment.
pub proof fn protection_phase_bytes(s: ObjectStartEP, c: ObjectOCI)
    ensures
        s.raw == bit(s.srd_spec(), 128) + bit(s.sie_spec(), 64) + bit(s.sl3_spec(), 32) + bit(
            s.sl2_spec(),
            16,
        ) + bit(s.sl1_spec(), 8) + bit(s.gs_spec(), 4) + s.res_spec(),
        s.res_spec() < 4,
        c.raw == bit(c.cl3_spec(), 128) + bit(c.cl2_spec(), 64) + bit(c.cl1_spec(), 32) + bit(
            c.gc_spec(),
            16,
        ) + c.res_spec(),
        c.res_spec() < 16,
{
    lemma_bits(s.raw);
    lemma_bits(c.raw);
}

/// Bytes of commands: select in bit 7, the qualifier in bits 6 to 2, the state
/// in the lowest bits; a set point has its qualifier in bits 6 to 0.
pub proof fn command_qualifier_bytes(
    s: ObjectSCO,
    d: ObjectDCO,
    r: ObjectRCO,
    c: ObjectQOC,
    q: ObjectQOS,
)
    ensures
        s.raw == bit(s.se_spec(), 128) + 4 * s.qu_spec() + 2 * s.res_spec() + bit(s.scs_spec(), 1),
        s.qu_spec() < 32 && s.res_spec() < 2,
        d.raw == bit(d.se_spec(), 128) + 4 * d.qu_spec() + d.dcs_spec(),
        d.qu_spec() < 32 && d.dcs_spec() < 4,
        r.raw == bit(r.se_spec(), 128) + 4 * r.qu_spec() + r.rcs_spec(),
        r.qu_spec() < 32 && r.rcs_spec() < 4,
        c.raw == 128 * c.se_spec() + 4 * c.qu_spec() + c.res_spec(),
        c.se_spec() < 2 && c.qu_spec() < 32 && c.res_spec() < 4,
        q.raw == 128 * q.se_spec() + q.ql_spec(),
        q.se_spec() < 2 && q.ql_spec() < 128,
{
}

/// The byte of an initialization and the byte behind a counter reading:
/// invalid, adjusted and carry in bits 7 to 5, the sequence number below them.
pub proof fn initialization_and_reading_bytes(c: ObjectCOI, b: ObjectBCR, value: i32, flags: u8)
    ensures
        c.raw == 2 * c.cause_spec() + c.flag_spec(),
        c.flag_spec() < 2,
        b.flags_spec() == bit(b.invalid, 128) + bit(b.ca, 64) + bit(b.cy, 32) + b.seq % 32,
        flags == bit(ObjectBCR::of(value, flags).invalid, 128) + bit(
            ObjectBCR::of(value, flags).ca,
            64,
        ) + bit(ObjectBCR::of(value, flags).cy, 32) + ObjectBCR::of(value, flags).seq,
        ObjectBCR::of(value, flags).seq < 32,
        ObjectBCR::of(value, flags).value == value,
{
}

/// The seven bytes of a time tag: milliseconds of the minute, low byte first,
/// minute, hour, day with the day of the week above it, month, and years since
/// 2000. The short tag is the first three of them.
pub proof fn time_tag_bytes(t: CivilTime)
    requires
        t.wf(),
        2000 <= t.year < 2256,
    ensures
        cp56(t).len() == 7,
        cp56(t)[0] + 256 * cp56(t)[1] == 1000 * t.second + t.milli,
        cp56(t)[2] == t.minute,
        cp56(t)[3] == t.hour,
        cp56(t)[4] == t.day + 32 * weekday_number(t.year as int, t.month as int, t.day as int),
        cp56(t)[5] == t.month,
        cp56(t)[6] == t.year - 2000,
        cp24(t) == cp56(t).take(3),
{
    lemma_le2((t.milli + t.second * 1000) as nat);
    assert(cp24(t) =~= cp56(t).take(3));
}

/// What the bytes of a long tag are read as: the moment of its fields to the
/// second, or nothing where bit 7 of the minute byte says that it is invalid,
/// or where it is cut off.
pub proof fn long_tag_is_read(s: Seq<u8>, at: int)
    requires
        0 <= at <= s.len(),
    ensures
        s.len() < at + 7 ==> tag_at(s, at, TagKind::Cp56) == (TagValue::Absent, at),
        s.len() >= at + 7 && s[at + 2] >= 128 ==> tag_at(s, at, TagKind::Cp56) == (
            TagValue::Absent,
            at + 7,
        ),
        s.len() >= at + 7 && s[at + 2] < 128 ==> {
            let year = 2000 + s[at + 6] % 128;
            let month = s[at + 5] as int % 16;
            let day = s[at + 4] as int % 32;
            let hour = s[at + 3] as int % 32;
            let minute = s[at + 2] as int % 64;
            let second = (s[at] + 256 * s[at + 1]) / 1000;
            let exists_so = 1 <= month <= 12 && 1 <= day <= month_days(year, month) && hour < 24 && minute
                < 60 && second < 60;
            &&& tag_at(s, at, TagKind::Cp56).1 == at + 7
            &&& !exists_so ==> tag_at(s, at, TagKind::Cp56).0 is Undefined
            &&& exists_so ==> tag_at(s, at, TagKind::Cp56).0 == TagValue::Moment(
                CivilTime {
                    year: year as i32,
                    month: month as u32,
                    day: day as u32,
                    hour: hour as u32,
                    minute: minute as u32,
                    second: second as u32,
                    milli: 0,
                },
            )
        },
{
}

/// What the bytes of a short tag are read as: minute and second.
pub proof fn short_tag_is_read(s: Seq<u8>, at: int)
    requires
        0 <= at <= s.len(),
    ensures
        s.len() < at + 3 ==> tag_at(s, at, TagKind::Cp24) == (TagValue::Absent, at),
        s.len() >= at + 3 && s[at + 2] >= 128 ==> tag_at(s, at, TagKind::Cp24) == (
            TagValue::Absent,
            at + 3,
        ),
        s.len() >= at + 3 && s[at + 2] < 128 ==> {
            let minute = s[at + 2] as int % 64;
            let second = (s[at] + 256 * s[at + 1]) / 1000;
            &&& tag_at(s, at, TagKind::Cp24).1 == at + 3
            &&& minute < 60 && second < 60 ==> tag_at(s, at, TagKind::Cp24).0 == TagValue::OfHour(
                minute as u32,
                second as u32,
            )
            &&& !(minute < 60 && second < 60) ==> tag_at(s, at, TagKind::Cp24).0 is Undefined
        },
        tag_at(s, at, TagKind::Plain) == (TagValue::Absent, at),
{
}

/// Months have 31 days, but for April, June, September and November with 30
/// and February with 28 or, in leap years, 29.
pub proof fn days_of_months(year: int, month: int)
    requires
        1 <= month <= 12,
    ensures
        month == 1 || month == 3 || month == 5 || month == 7 || month == 8 || month == 10 || month
            == 12 ==> month_days(year, month) == 31,
        month == 4 || month == 6 || month == 9 || month == 11 ==> month_days(year, month) == 30,
        month == 2 && year % 4 == 0 && year % 100 != 0 ==> month_days(year, month) == 29,
        month == 2 && year % 400 == 0 ==> month_days(year, month) == 29,
        month == 2 && year % 4 != 0 ==> month_days(year, month) == 28,
        month == 2 && year % 100 == 0 && year % 400 != 0 ==> month_days(year, month) == 28,
{
}

proof fn lemma_leap(year: int)
    ensures
        year / 4 - (year - 1) / 4 == bit(year % 4 == 0, 1),
        year / 100 - (year - 1) / 100 == bit(year % 100 == 0, 1),
        year / 400 - (year - 1) / 400 == bit(year % 400 == 0, 1),
{
}

proof fn lemma_next_month(year: int, month: int)
    requires
        1 <= month <= 12,
        month != 2,
    ensures
        ({
            let last = day_number(year, month, month_days(year, month));
            if month < 12 {
                day_number(year, month + 1, 1) == last + 1
            } else {
                day_number(year + 1, 1, 1) == last + 1
            }
        }),
{
    if month == 1 {
    } else if month == 3 {
    } else if month == 4 {
    } else if month == 5 {
    } else if month == 6 {
    } else if month == 7 {
    } else if month == 8 {
    } else if month == 9 {
    } else if month == 10 {
    } else if month == 11 {
    } else {
    }
}

proof fn lemma_march(year: int)
    ensures
        day_number(year, 3, 1) == day_number(year, 2, month_days(year, 2)) + 1,
{
    lemma_leap(year);
    assert(day_number(year, 3, 1) == 365 * year + year / 4 - year / 100 + year / 400);
    let y = year - 1;
    assert(day_number(year, 2, month_days(year, 2)) == 365 * y + y / 4 - y / 100 + y / 400 + 337
        + month_days(year, 2) - 1);
    assert(year % 100 == 0 ==> year % 4 == 0);
    assert(year % 400 == 0 ==> year % 100 == 0);
}

proof fn lemma_next_weekday(n: int)
    ensures
        ({
            let today = (n + 2) % 7 + 1;
            1 <= today <= 7 && (n + 1 + 2) % 7 + 1 == if today == 7 {
                1
            } else {
                today + 1
            }
        }),
{
}

/// The days of the week follow one another, through months and years, and the
/// first of January 2000 was a Saturday.
pub proof fn weekdays_follow_one_another(year: int, month: int, day: int)
    requires
        is_date(year, month, day),
    ensures
        weekday_number(2000, 1, 1) == 6,
        1 <= weekday_number(year, month, day) <= 7,
        ({
            let today = weekday_number(year, month, day);
            let next = if today == 7 {
                1
            } else {
                today + 1
            };
            &&& day < month_days(year, month) ==> weekday_number(year, month, day + 1) == next
            &&& day == month_days(year, month) && month < 12 ==> weekday_number(year, month + 1, 1)
                == next
            &&& day == month_days(year, month) && month == 12 ==> weekday_number(year + 1, 1, 1)
                == next
        }),
{
    let n = day_number(year, month, day);
    lemma_next_weekday(n);
    assert(day_number(year, month, day + 1) == n + 1);
    if month == 2 {
        lemma_march(year);
    } else {
        lemma_next_month(year, month);
    }
    assert(day_number(2000, 1, 1) == 730425);
}

/// The causes, by code, that information in monitor direction goes with.
pub proof fn causes_in_monitor_direction(c: Cause)
    ensures
        is_interrogated(c) <==> 20 <= c.code_spec() <= 36,
        is_reported(c) <==> c.code_spec() == 3 || c.code_spec() == 5,
        is_returned(c) <==> c.code_spec() == 3 || c.code_spec() == 5 || c.code_spec() == 11
            || c.code_spec() == 12,
        is_scanned(c) <==> c.code_spec() == 2 || is_returned(c),
        is_monitored(c) <==> is_scanned(c) || 20 <= c.code_spec() <= 36,
        is_measured(c) <==> 1 <= c.code_spec() <= 3 || c.code_spec() == 5 || 20 <= c.code_spec()
            <= 36,
        is_counted(c) <==> c.code_spec() == 3 || 37 <= c.code_spec() <= 41,
{
}

/// The causes, by code, that commands go with: activation, deactivation, their
/// confirmations, the termination, and the four kinds of refusal.
pub proof fn causes_in_control_direction(c: Cause)
    ensures
        is_commanded(c) <==> 6 <= c.code_spec() <= 10 || 44 <= c.code_spec() <= 47,
{
}

/// The types that each kind of information is sent as, by code, and how their
/// objects are tagged.
pub proof fn types_of_monitored_information(t: TypeID)
    ensures
        ({
            let c = t.code_spec();
            &&& single_tag(t) == tag_for(c, 1, 2, 30)
            &&& double_tag(t) == tag_for(c, 3, 4, 31)
            &&& step_tag(t) == tag_for(c, 5, 6, 32)
            &&& bits_tag(t) == tag_for(c, 7, 8, 33)
            &&& normal_tag(t) == if c == 21 {
                Some(TagKind::Plain)
            } else {
                tag_for(c, 9, 10, 34)
            }
            &&& scaled_tag(t) == tag_for(c, 11, 12, 35)
            &&& float_tag(t) == tag_for(c, 13, 14, 36)
            &&& totals_tag(t) == tag_for(c, 15, 16, 37)
            &&& packed_tag(t) == tag_for(c, 20, 0, 0)
            &&& event_tag(t) == tag_for(c, 0, 0, 38)
            &&& start_tag(t) == tag_for(c, 0, 0, 39)
            &&& circuit_tag(t) == tag_for(c, 0, 0, 40)
        }),
{
}

/// How objects of a type are tagged where it is one of three: without tag,
/// with a short and with a long one; 0 stands for none.
pub open spec fn tag_for(code: u8, plain: int, short: int, long: int) -> Option<TagKind> {
    if code == plain && plain != 0 {
        Some(TagKind::Plain)
    } else if code == short && short != 0 {
        Some(TagKind::Cp24)
    } else if code == long && long != 0 {
        Some(TagKind::Cp56)
    } else {
        None
    }
}

/// The types that each kind of command is sent as, by code, and how they are
/// tagged.
pub proof fn types_of_commands(t: TypeID)
    ensures
        ({
            let c = t.code_spec();
            &&& single_command_tag(t) == tag_for(c, 45, 0, 58)
            &&& double_command_tag(t) == tag_for(c, 46, 0, 59)
            &&& step_command_tag(t) == tag_for(c, 47, 0, 60)
            &&& normal_command_tag(t) == tag_for(c, 48, 0, 61)
            &&& scaled_command_tag(t) == tag_for(c, 49, 0, 62)
            &&& float_command_tag(t) == tag_for(c, 50, 0, 63)
            &&& bits_command_tag(t) == tag_for(c, 51, 0, 64)
        }),
{
}

/// Bytes of a value and tag of an object, by the code of its type.
pub proof fn layouts_of_monitored_information(t: TypeID)
    ensures
        ({
            let c = t.code_spec();
            let known = 1 <= c <= 16 || c == 20 || c == 21 || 30 <= c <= 40;
            &&& layout_of(t) is Some <==> known
            &&& layout_of(t) matches Some((width, tag)) ==> {
                &&& width == if 1 <= c <= 4 || c == 30 || c == 31 {
                    1nat
                } else if c == 5 || c == 6 || c == 21 || c == 32 {
                    2
                } else if 9 <= c <= 12 || c == 34 || c == 35 || c == 38 {
                    3
                } else if c == 39 || c == 40 {
                    4
                } else {
                    5
                }
                &&& tag == if c >= 30 {
                    TagKind::Cp56
                } else if c <= 16 && c % 2 == 0 {
                    TagKind::Cp24
                } else {
                    TagKind::Plain
                }
            }
        }),
{
}

/// Events of protection equipment in their bytes: the event or the phases,
/// the quality, and a duration in milliseconds, low byte first.
pub proof fn events_are_read(ioa: InfoObjAddr, value: Seq<u8>, t: TypeID)
    requires
        value.len() >= 4,
    ensures
        ({
            let x = ProtectionEventTdInfo::of_value(ioa, value, t);
            &&& x.ioa == ioa
            &&& x.sep.raw == value[0]
            &&& x.elapsed_msec == value[1] + 256 * value[2]
        }),
        ({
            let x = ProtectionEventTeInfo::of_value(ioa, value, t);
            &&& x.ioa == ioa
            &&& x.start_ep.raw == value[0]
            &&& x.qdp.raw == value[1]
            &&& x.relay_duration_msec == value[2] + 256 * value[3]
        }),
        ({
            let x = ProtectionEventTfInfo::of_value(ioa, value, t);
            &&& x.ioa == ioa
            &&& x.oci.raw == value[0]
            &&& x.qdp.raw == value[1]
            &&& x.relay_op_time_msec == value[2] + 256 * value[3]
        }),
{
}

/// The value bytes of commands to points and steps.
pub proof fn switching_commands_are_written(
    s: SingleCommandInfo,
    d: DoubleCommandInfo,
    r: StepCommandInfo,
    t: TypeID,
)
    ensures
        s.value_spec(t).len() == 1 && s.value_spec(t)[0] == s.sco.raw,
        d.value_spec(t).len() == 1 && d.value_spec(t)[0] == d.dco.raw,
        r.value_spec(t).len() == 1 && r.value_spec(t)[0] == r.rco.raw,
        s.addr_spec() == s.ioa && d.addr_spec() == d.ioa && r.addr_spec() == r.ioa,
{
}

/// The two's complement of a number, in so many values.
pub open spec fn wrapped(v: int, values: int) -> int {
    if v < 0 {
        v + values
    } else {
        v
    }
}

/// The value bytes of set points and bit strings: two or four bytes, low byte
/// first, negative numbers as two's complement, and the qualifier behind them;
/// a bit string has none.
pub proof fn set_points_are_written(
    n: SetPointCommandNormalInfo,
    s: SetPointCommandScaledInfo,
    f: SetPointCommandFloatInfo,
    b: BitsString32CommandInfo,
    t: TypeID,
)
    ensures
        ({
            let v = n.value_spec(t);
            v.len() == 3 && v[0] + 256 * v[1] == wrapped(n.nva as int, 65536) && v[2] == n.qos.raw
        }),
        ({
            let v = s.value_spec(t);
            v.len() == 3 && v[0] + 256 * v[1] == wrapped(s.sva as int, 65536) && v[2] == s.qos.raw
        }),
        ({
            let v = f.value_spec(t);
            v.len() == 5 && v[0] + 256 * v[1] + 65536 * v[2] + 16777216 * v[3] == f.r && v[4]
                == f.qos.raw
        }),
        ({
            let v = b.value_spec(t);
            v.len() == 4 && v[0] + 256 * v[1] + 65536 * v[2] + 16777216 * v[3] == wrapped(
                b.bcr as int,
                4294967296,
            )
        }),
{
    lemma_le2(twos(n.nva as int));
    lemma_le2(twos(s.sva as int));
    lemma_le4(f.r as nat);
    lemma_le4(twos(b.bcr as int));
    lemma_wrapped16(n.nva);
    lemma_wrapped16(s.sva);
    lemma_wrapped32(b.bcr);
}

proof fn lemma_wrapped16(v: i16)
    ensures
        ({
            let x = twos(v as int);
            x % 256 + 256 * (x / 256 % 256) == wrapped(v as int, 65536)
        }),
{
}

proof fn lemma_four_bytes(x: int)
    requires
        x >= 0,
    ensures
        x % 256 + 256 * (x / 256 % 256) + 65536 * (x / 65536 % 256) + 16777216 * (x / 16777216
            % 256) == x % 4294967296,
{
    let a = x / 256;
    let b = x / 65536;
    let c = x / 16777216;
    let d = x / 4294967296;
    assert(a / 256 == b);
    assert(b / 256 == c);
    assert(c / 256 == d);
    assert(x == 256 * a + x % 256);
    assert(a == 256 * b + a % 256);
    assert(b == 256 * c + b % 256);
    assert(c == 256 * d + c % 256);
}

proof fn lemma_wrapped32(v: i32)
    ensures
        ({
            let x = twos(v as int);
            x % 256 + 256 * (x / 256 % 256) + 65536 * (x / 65536 % 256) + 16777216 * (x / 16777216
                % 256) == wrapped(v as int, 4294967296)
        }),
{
    let x = twos(v as int);
    lemma_four_bytes(x as int);
    if v < 0 {
        assert(x == v + 0x1_0000_0000_0000_0000);
        assert(x % 4294967296 == v + 4294967296);
    } else {
        assert(x == v);
    }
}

/// What the value bytes of commands are read as.
pub proof fn commands_are_read(ioa: InfoObjAddr, value: Seq<u8>, t: TypeID)
    requires
        value.len() >= 5,
    ensures
        SingleCommandInfo::of_value(ioa, value, t).sco.raw == value[0],
        DoubleCommandInfo::of_value(ioa, value, t).dco.raw == value[0],
        StepCommandInfo::of_value(ioa, value, t).rco.raw == value[0],
        wrapped(SetPointCommandNormalInfo::of_value(ioa, value, t).nva as int, 65536) == value[0]
            + 256 * value[1],
        SetPointCommandNormalInfo::of_value(ioa, value, t).qos.raw == value[2],
        wrapped(SetPointCommandScaledInfo::of_value(ioa, value, t).sva as int, 65536) == value[0]
            + 256 * value[1],
        SetPointCommandScaledInfo::of_value(ioa, value, t).qos.raw == value[2],
        SetPointCommandFloatInfo::of_value(ioa, value, t).r == value[0] + 256 * value[1] + 65536
            * value[2] + 16777216 * value[3],
        SetPointCommandFloatInfo::of_value(ioa, value, t).qos.raw == value[4],
        wrapped(BitsString32CommandInfo::of_value(ioa, value, t).bcr as int, 4294967296) == value[0]
            + 256 * value[1] + 65536 * value[2] + 16777216 * value[3],
{
}

} // verus!
