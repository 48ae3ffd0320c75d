//! Frames on the byte stream, byte by byte.

use super::codec::{read_frame, Decoded};
use super::frame::apci::{
    ack_in_window, behind_seq, iframe, kind_of, seq_count, sframe, uframe, Apci, ApciKind, SeqPending,
};
use super::frame::asdu::{decoded, AsduData};
use super::frame::msys::initialization;
use vstd::prelude::*;

verus! {

/// What control bytes say: an information frame has an even first byte and
/// carries both numbers in fifteen bits above a spare bit, a supervisory frame
/// has the low bits 01 and carries the number that is due, an unnumbered frame
/// has the low bits 11 and its function above them.
pub proof fn control_bytes_tell_the_kind(a: Apci)
    ensures
        a.ctrl1 % 2 == 0 ==> (kind_of(a) matches ApciKind::I(i) && i.send_sn == a.ctrl1 / 2 + 128
            * a.ctrl2 && i.rcv_sn == a.ctrl3 / 2 + 128 * a.ctrl4),
        a.ctrl1 % 4 == 1 ==> (kind_of(a) matches ApciKind::S(s) && s.rcv_sn == a.ctrl3 / 2 + 128
            * a.ctrl4),
        a.ctrl1 % 4 == 3 ==> (kind_of(a) matches ApciKind::U(u) && u.function == a.ctrl1 - 3),
        a.encoded() == seq![a.start, a.apdu_length, a.ctrl1, a.ctrl2, a.ctrl3, a.ctrl4],
{
}

/// The control bytes of frames that are sent, behind the start byte 0x68 and
/// the number of bytes that follow it.
pub proof fn sent_frames_in_bytes(asdu: AsduData, send_sn: u16, rcv_sn: u16, function: u8)
    requires
        send_sn < 32768,
        rcv_sn < 32768,
        asdu.raw.len() <= 243,
        function % 4 == 0,
    ensures
        ({
            let b = iframe(asdu, send_sn, rcv_sn).encoded();
            &&& b[0] == 0x68
            &&& b[1] == 10 + asdu.raw.len()
            &&& b[2] + 256 * b[3] == 2 * send_sn
            &&& b[4] + 256 * b[5] == 2 * rcv_sn
            &&& b.skip(6) == asdu.encoded()
        }),
        ({
            let b = sframe(rcv_sn).encoded();
            &&& b.len() == 6
            &&& b[0] == 0x68 && b[1] == 4 && b[2] == 1 && b[3] == 0
            &&& b[4] + 256 * b[5] == 2 * rcv_sn
        }),
        uframe(function).encoded() == seq![0x68u8, 4u8, (function + 3) as u8, 0u8, 0u8, 0u8],
{
    let b = iframe(asdu, send_sn, rcv_sn).encoded();
    assert(b.skip(6) =~= asdu.encoded());
    assert(uframe(function).encoded() =~= seq![
        0x68u8,
        4u8,
        (function + 3) as u8,
        0u8,
        0u8,
        0u8,
    ]);
}

/// What is taken off a stream: nothing before six bytes are there, or all that
/// the length byte counts; a length below 4 or above 253 and a first byte
/// other than 0x68 are errors; an information frame takes all its bytes and
/// has the ASDU that they hold behind the first six, where they hold one; any
/// other frame takes six bytes.
pub proof fn frames_are_taken_off_the_stream(b: Seq<u8>)
    ensures
        b.len() < 6 ==> read_frame(b) == (Decoded::Waiting, b),
        b.len() >= 6 && !(4 <= b[1] <= 253) ==> read_frame(b).0 is Refused && read_frame(b).1 == b,
        b.len() >= 6 && 4 <= b[1] <= 253 ==> {
            let (d, rest) = read_frame(b);
            let n = b[1] + 2;
            &&& b.len() < n ==> d is Waiting && rest == b
            &&& b.len() >= n && b[0] != 0x68 ==> d is Refused && rest == b.skip(6)
            &&& b.len() >= n && b[0] == 0x68 ==> {
                &&& d matches Decoded::Frame(f) && f.apci.encoded() == b.take(6)
                &&& b[2] % 2 == 0 ==> rest == b.skip(n) && (d->Frame_0.asdu == match decoded(
                    b.subrange(6, n),
                ) {
                    Ok(a) => Some(a),
                    Err(_) => None::<AsduData>,
                })
                &&& b[2] % 2 != 0 ==> rest == b.skip(6) && d->Frame_0.asdu is None
            }
        },
{
    if b.len() >= 6 {
        let f = Apci {
            start: b[0],
            apdu_length: b[1],
            ctrl1: b[2],
            ctrl2: b[3],
            ctrl3: b[4],
            ctrl4: b[5],
        };
        assert(f.encoded() =~= b.take(6));
    }
}

/// The end of an initialization: address and cause stand in the first four
/// bytes.
pub proof fn initializations_are_read(a: AsduData)
    ensures
        initialization(a) is Some <==> a.raw.len() >= 4,
        initialization(a) matches Some((ioa, coi)) ==> ioa.addr == a.raw[0] + 256 * a.raw[1]
            && ioa.res == a.raw[2] && coi.raw == a.raw[3],
{
}

/// Frames between an acknowledgement and the next number to send are counted
/// around 32768, and an acknowledgement lies in the window where no more
/// frames wait behind it than before.
pub proof fn frames_in_between_are_counted(ack_no: u16, ack_sendsn: u16, send_sn: u16)
    requires
        ack_no < 32768,
        ack_sendsn < 32768,
        send_sn < 32768,
    ensures
        seq_count(ack_sendsn, send_sn) == (send_sn - ack_sendsn) % 32768,
        ack_in_window(ack_no, ack_sendsn, send_sn) <==> (ack_no - ack_sendsn) % 32768 <= (send_sn
            - ack_sendsn) % 32768,
{
}

/// What is left behind the frame with a number is what follows the first such
/// frame.
pub proof fn frames_behind_a_number_are_left(pending: Seq<SeqPending>, seq: int, k: int)
    requires
        0 <= k <= pending.len(),
        forall|i: int| 0 <= i < k ==> (#[trigger] pending[i]).seq != seq,
        k < pending.len() ==> pending[k].seq == seq,
    ensures
        k < pending.len() ==> behind_seq(pending, seq) == pending.skip(k + 1),
        k == pending.len() ==> behind_seq(pending, seq).len() == 0,
    decreases pending.len(),
{
    if k > 0 {
        let rest = pending.skip(1);
        assert(pending[0].seq != seq);
        assert forall|i: int| 0 <= i < k - 1 implies (#[trigger] rest[i]).seq != seq by {
            assert(rest[i] == pending[i + 1]);
        }
        frames_behind_a_number_are_left(rest, seq, k - 1);
        if k < pending.len() {
            assert(rest.skip(k) =~= pending.skip(k + 1));
        }
    } else if pending.len() > 0 {
        assert(pending[0].seq == seq);
    }
}

} // verus!
