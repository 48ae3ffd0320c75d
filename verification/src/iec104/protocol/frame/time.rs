//! Time tags of seven, three and two bytes.
//!
//! | byte | content                                             |
//! |------|-----------------------------------------------------|
//! | 1, 2 | milliseconds of the minute, low byte first          |
//! | 3    | bit 7: invalid, bits 0 to 5: minute                 |
//! | 4    | bits 0 to 4: hour                                   |
//! | 5    | bits 5 to 7: day of the week, bits 0 to 4: day      |
//! | 6    | bits 0 to 3: month                                  |
//! | 7    | bits 0 to 6: year of the century                    |

use crate::clock::{civil_now, civil_of, civil_time, is_time, weekday, weekday_number, CivilTime};
use crate::wire::{
    buf_content, buf_freeze, buf_new, buf_put_u16_le, buf_put_u8, bytes_content, le16, le_bytes,
    lemma_le2, Reader,
};
use bytes::Bytes;
use vstd::prelude::*;

verus! {

/// Milliseconds of the minute.
pub open spec fn minute_millis(t: CivilTime) -> nat {
    (t.milli + t.second * 1000) as nat
}

/// A moment as a tag of seven bytes.
pub open spec fn cp56(t: CivilTime) -> Seq<u8> {
    le_bytes(minute_millis(t), 2) + seq![
        t.minute as u8,
        t.hour as u8,
        (weekday_number(t.year as int, t.month as int, t.day as int) * 32 + t.day) as u8,
        t.month as u8,
        ((t.year - 2000) % 256) as u8,
    ]
}

/// A moment as a tag of three bytes.
pub open spec fn cp24(t: CivilTime) -> Seq<u8> {
    le_bytes(minute_millis(t), 2) + seq![t.minute as u8]
}

fn millis_of_minute(t: &CivilTime) -> (r: u16)
    requires
        t.wf(),
    ensures
        r == minute_millis(*t),
{
    t.milli as u16 + t.second as u16 * 1000
}

fn year_of_century(year: i32) -> (r: u8)
    requires
        -262143 <= year <= 262142,
    ensures
        r == (year - 2000) % 256,
{
    let shifted: i32 = year - 2000 + 1_048_576;
    assert(shifted % 256 == (year - 2000) % 256);
    (shifted % 256) as u8
}

/// A moment as a tag of seven bytes.
pub fn cp56time2a(time: CivilTime) -> (r: Bytes)
    requires
        time.wf(),
    ensures
        bytes_content(r) == cp56(time),
{
    let wd: u32 = weekday(time.year, time.month, time.day);
    let ghost number = weekday_number(time.year as int, time.month as int, time.day as int);
    let year: u8 = year_of_century(time.year);
    let mut buf = buf_new();
    buf_put_u16_le(&mut buf, millis_of_minute(&time));
    buf_put_u8(&mut buf, time.minute as u8);
    buf_put_u8(&mut buf, time.hour as u8);
    buf_put_u8(&mut buf, (wd * 32 + time.day) as u8);
    buf_put_u8(&mut buf, time.month as u8);
    buf_put_u8(&mut buf, year);
    proof {
        let head = le_bytes(minute_millis(time), 2);
        let tail = seq![
            time.minute as u8,
            time.hour as u8,
            (number * 32 + time.day) as u8,
            time.month as u8,
            ((time.year - 2000) % 256) as u8,
        ];
        assert(buf_content(buf) =~= head + tail);
    }
    buf_freeze(buf)
}

/// A moment as a tag of three bytes.
pub fn cp24time2a(time: CivilTime) -> (r: Bytes)
    requires
        time.wf(),
    ensures
        bytes_content(r) == cp24(time),
{
    let mut buf = buf_new();
    buf_put_u16_le(&mut buf, millis_of_minute(&time));
    buf_put_u8(&mut buf, time.minute as u8);
    assert(buf_content(buf) =~= cp24(time));
    buf_freeze(buf)
}

/// A moment as a tag of two bytes.
pub fn cp16time2a(time: CivilTime) -> (r: Bytes)
    requires
        time.wf(),
    ensures
        bytes_content(r) == le_bytes(minute_millis(time), 2),
{
    cp16time2a_from_msec(millis_of_minute(&time))
}

/// Milliseconds as a tag of two bytes.
pub fn cp16time2a_from_msec(msec: u16) -> (r: Bytes)
    ensures
        bytes_content(r) == le_bytes(msec as nat, 2),
{
    let mut buf = buf_new();
    buf_put_u16_le(&mut buf, msec);
    assert(buf_content(buf) =~= le_bytes(msec as nat, 2));
    buf_freeze(buf)
}

/// How objects of a type are tagged.
#[derive(Debug, Clone, Copy, PartialEq, Eq, Structural)]
pub enum TagKind {
    /// No time tag.
    Plain,
    /// Three bytes.
    Cp24,
    /// Seven bytes.
    Cp56,
}

/// What a time tag says.
pub enum TagValue {
    /// Nothing: there is none, it is cut off, or it is marked invalid.
    Absent,
    /// A minute and second of the current hour.
    OfHour(u32, u32),
    /// A moment.
    Moment(CivilTime),
    /// A date or time that does not exist.
    Undefined,
}

/// Minute of a tag.
pub open spec fn tag_minute(s: Seq<u8>, at: int) -> u32 {
    (s[at + 2] % 64) as u32
}

/// Second of a tag.
pub open spec fn tag_second(s: Seq<u8>, at: int) -> u32 {
    (le16(s, at) / 1000) as u32
}

/// What the tag at `at` says, and where reading goes on. A tag that is cut off
/// is not taken.
pub open spec fn tag_at(s: Seq<u8>, at: int, kind: TagKind) -> (TagValue, int) {
    match kind {
        TagKind::Plain => (TagValue::Absent, at),
        TagKind::Cp24 => if s.len() - at < 3 {
            (TagValue::Absent, at)
        } else if s[at + 2] >= 128 {
            (TagValue::Absent, at + 3)
        } else if is_time(0, tag_minute(s, at) as int, tag_second(s, at) as int) {
            (TagValue::OfHour(tag_minute(s, at), tag_second(s, at)), at + 3)
        } else {
            (TagValue::Undefined, at + 3)
        },
        TagKind::Cp56 => if s.len() - at < 7 {
            (TagValue::Absent, at)
        } else if s[at + 2] >= 128 {
            (TagValue::Absent, at + 7)
        } else {
            match civil_of(
                (2000 + s[at + 6] % 128) as i32,
                (s[at + 5] % 16) as u32,
                (s[at + 4] % 32) as u32,
                (s[at + 3] % 32) as u32,
                tag_minute(s, at),
                tag_second(s, at),
            ) {
                Some(t) => (TagValue::Moment(t), at + 7),
                None => (TagValue::Undefined, at + 7),
            }
        },
    }
}

/// The moment is what the tag says. A tag that names no hour leaves date and
/// hour to the moment of reading.
pub open spec fn time_fits(time: Option<CivilTime>, tag: TagValue) -> bool {
    match tag {
        TagValue::Absent => time is None,
        TagValue::OfHour(minute, second) => time matches Some(t) && t.wf() && t.minute == minute
            && t.second == second && t.milli == 0,
        TagValue::Moment(m) => time == Some(m),
        TagValue::Undefined => true,
    }
}

/// The moment of the current hour with this minute and second.
pub fn within_hour(now: CivilTime, minute: u32, second: u32) -> (r: CivilTime)
    requires
        now.wf(),
        minute < 60,
        second < 60,
    ensures
        r == (CivilTime {
            year: now.year,
            month: now.month,
            day: now.day,
            hour: now.hour,
            minute,
            second,
            milli: 0,
        }),
        r.wf(),
{
    match civil_time(now.year, now.month, now.day, now.hour, minute, second) {
        Some(t) => t,
        None => now,
    }
}

/// Take a time tag of seven bytes off the reader.
pub fn decode_cp56time2a(rdr: &mut Reader) -> (r: Option<CivilTime>)
    requires
        old(rdr).wf(),
        !(tag_at(old(rdr).data@, old(rdr).pos as int, TagKind::Cp56).0 is Undefined),
    ensures
        final(rdr).data == old(rdr).data,
        final(rdr).wf(),
        final(rdr).pos == tag_at(old(rdr).data@, old(rdr).pos as int, TagKind::Cp56).1,
        time_fits(r, tag_at(old(rdr).data@, old(rdr).pos as int, TagKind::Cp56).0),
{
    if rdr.remaining() < 7 {
        return None;
    }
    let millisecond: u16 = rdr.take_u16();
    let second: u32 = (millisecond / 1000) as u32;
    let m: u8 = rdr.take_u8();
    let h: u8 = rdr.take_u8();
    let d: u8 = rdr.take_u8();
    let mo: u8 = rdr.take_u8();
    let y: u8 = rdr.take_u8();
    if m >= 128 {
        None
    } else {
        civil_time(
            2000 + (y % 128) as i32,
            (mo % 16) as u32,
            (d % 32) as u32,
            (h % 32) as u32,
            (m % 64) as u32,
            second,
        )
    }
}

/// Take a time tag of three bytes off the reader; date and hour are the
/// current ones.
pub fn decode_cp24time2a(rdr: &mut Reader) -> (r: Option<CivilTime>)
    requires
        old(rdr).wf(),
        !(tag_at(old(rdr).data@, old(rdr).pos as int, TagKind::Cp24).0 is Undefined),
    ensures
        final(rdr).data == old(rdr).data,
        final(rdr).wf(),
        final(rdr).pos == tag_at(old(rdr).data@, old(rdr).pos as int, TagKind::Cp24).1,
        time_fits(r, tag_at(old(rdr).data@, old(rdr).pos as int, TagKind::Cp24).0),
{
    if rdr.remaining() < 3 {
        return None;
    }
    let millisecond: u16 = rdr.take_u16();
    let second: u32 = (millisecond / 1000) as u32;
    let m: u8 = rdr.take_u8();
    if m >= 128 {
        None
    } else {
        Some(within_hour(civil_now(), (m % 64) as u32, second))
    }
}

/// Whether the tag at `at` names an existing date and time, and where reading
/// goes on.
pub fn check_tag(data: &[u8], at: usize, kind: TagKind) -> (r: Option<usize>)
    requires
        at <= data@.len(),
    ensures
        match r {
            None => tag_at(data@, at as int, kind).0 is Undefined,
            Some(next) => !(tag_at(data@, at as int, kind).0 is Undefined) && next == tag_at(
                data@,
                at as int,
                kind,
            ).1 && next <= data@.len(),
        },
{
    let mut rdr = Reader { data, pos: at };
    match kind {
        TagKind::Plain => Some(at),
        TagKind::Cp24 => {
            if rdr.remaining() < 3 {
                return Some(at);
            }
            let second: u16 = rdr.take_u16() / 1000;
            let m: u8 = rdr.take_u8();
            if m >= 128 || (m % 64 < 60 && second < 60) {
                Some(rdr.pos)
            } else {
                None
            }
        },
        TagKind::Cp56 => {
            if rdr.remaining() < 7 {
                return Some(at);
            }
            let second: u16 = rdr.take_u16() / 1000;
            let m: u8 = rdr.take_u8();
            let h: u8 = rdr.take_u8();
            let d: u8 = rdr.take_u8();
            let mo: u8 = rdr.take_u8();
            let y: u8 = rdr.take_u8();
            let exists: bool = civil_time(
                2000 + (y % 128) as i32,
                (mo % 16) as u32,
                (d % 32) as u32,
                (h % 32) as u32,
                (m % 64) as u32,
                second as u32,
            ).is_some();
            if m >= 128 || exists {
                Some(rdr.pos)
            } else {
                None
            }
        },
    }
}

/// A moment of the years that a tag holds, outside of a leap second.
pub open spec fn taggable(t: CivilTime) -> bool {
    t.wf() && 2000 <= t.year < 2128 && t.milli < 1000
}

/// A moment that is written as a tag of seven bytes is read back, to the
/// second.
pub proof fn long_tag_is_read_back(before: Seq<u8>, t: CivilTime, behind: Seq<u8>)
    requires
        taggable(t),
    ensures
        tag_at(before + cp56(t) + behind, before.len() as int, TagKind::Cp56) == (
            TagValue::Moment(CivilTime { milli: 0, ..t }),
            before.len() as int + 7,
        ),
{
    let s = before + cp56(t) + behind;
    let at = before.len() as int;
    lemma_le2(minute_millis(t));
    assert(cp56(t).len() == 7);
    assert(forall|i: int| 0 <= i < 7 ==> #[trigger] s[at + i] == cp56(t)[i]);
    assert(s[at] == cp56(t)[0]) by {
        assert(s[at + 0] == cp56(t)[0]);
    }
    assert(le16(s, at) == minute_millis(t));
    assert(s[at + 2] == t.minute);
    assert(s[at + 3] == t.hour);
    assert(s[at + 4] % 32 == t.day);
    assert(s[at + 5] == t.month);
    assert(s[at + 6] == t.year - 2000);
}

/// A moment that is written as a tag of three bytes is read back as its minute
/// and second.
pub proof fn short_tag_is_read_back(before: Seq<u8>, t: CivilTime, behind: Seq<u8>)
    requires
        t.wf(),
        t.milli < 1000,
    ensures
        tag_at(before + cp24(t) + behind, before.len() as int, TagKind::Cp24) == (
            TagValue::OfHour(t.minute, t.second),
            before.len() as int + 3,
        ),
{
    let s = before + cp24(t) + behind;
    let at = before.len() as int;
    lemma_le2(minute_millis(t));
    assert(cp24(t).len() == 3);
    assert(s[at] == cp24(t)[0] && s[at + 1] == cp24(t)[1] && s[at + 2] == cp24(t)[2]);
    assert(le16(s, at) == minute_millis(t));
}

} // verus!
