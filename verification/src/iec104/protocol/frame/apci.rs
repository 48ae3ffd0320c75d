//! Application protocol control information (APCI) and frames.

use super::asdu::{Asdu, AsduData, IDENTIFIER_SIZE};
use super::{Apdu, ApduData};
use crate::clock::UtcTime;
use crate::text::{all_bracketed, bytes_text};
use crate::wire::bytes_as_slice;
use std::collections::VecDeque;
use vstd::prelude::*;

verus! {

/// First byte of every frame.
pub const START_FRAME: u8 = 0x68;

/// Size of the control information with start and length.
pub const APCI_FIELD_SIZE: usize = 6;

/// Size of the control field.
pub const APCICTL_FIELD_SIZE: usize = 4;

/// Size of a frame at most.
pub const APDU_SIZE_MAX: usize = 255;

/// What the length field of a frame holds at most.
pub const APDU_FIELD_SIZE_MAX: usize = 253;

/// Start data transfer: activation.
pub const U_STARTDT_ACTIVE: u8 = 0x04;

/// Start data transfer: confirmation.
pub const U_STARTDT_CONFIRM: u8 = 0x08;

/// Stop data transfer: activation.
pub const U_STOPDT_ACTIVE: u8 = 0x10;

/// Stop data transfer: confirmation.
pub const U_STOPDT_CONFIRM: u8 = 0x20;

/// Test frame: activation.
pub const U_TESTFR_ACTIVE: u8 = 0x40;

/// Test frame: confirmation.
pub const U_TESTFR_CONFIRM: u8 = 0x80;

/// Control information of a frame.
#[derive(Debug, Clone, Copy, PartialEq, Eq, Structural)]
pub struct Apci {
    pub start: u8,
    pub apdu_length: u8,
    pub ctrl1: u8,
    pub ctrl2: u8,
    pub ctrl3: u8,
    pub ctrl4: u8,
}

impl Apci {
    /// The bytes on the wire.
    pub open spec fn encoded(self) -> Seq<u8> {
        seq![self.start, self.apdu_length, self.ctrl1, self.ctrl2, self.ctrl3, self.ctrl4]
    }

    /// The control information as text: every byte in brackets.
    pub fn to_text(&self) -> (r: String)
        ensures
            r@ == all_bracketed(self.encoded(), ""@),
    {
        let b: Vec<u8> = vec![
            self.start,
            self.apdu_length,
            self.ctrl1,
            self.ctrl2,
            self.ctrl3,
            self.ctrl4,
        ];
        assert(b@ =~= self.encoded());
        bytes_text(b.as_slice(), "")
    }
}

/// Numbers of an information frame.
#[derive(Debug, Clone, Copy, PartialEq, Eq, Structural)]
pub struct IApci {
    pub send_sn: u16,
    pub rcv_sn: u16,
}

/// Function of an unnumbered frame.
#[derive(Debug, Clone, Copy, PartialEq, Eq, Structural)]
pub struct UApci {
    pub function: u8,
}

/// Number of a supervisory frame.
#[derive(Debug, Clone, Copy, PartialEq, Eq, Structural)]
pub struct SApci {
    pub rcv_sn: u16,
}

/// What a frame is by its control information.
#[derive(Debug, Clone, Copy, PartialEq, Eq, Structural)]
pub enum ApciKind {
    I(IApci),
    U(UApci),
    S(SApci),
}

/// A sent frame that waits for its acknowledgement.
#[derive(Debug, Clone, Copy, PartialEq, Eq, Structural)]
pub struct SeqPending {
    pub seq: u16,
    pub send_time: UtcTime,
    pub size_bytes: usize,
}

/// The 15-bit number in two control bytes: seven bits above a spare bit, then
/// eight bits.
pub open spec fn sn_of(low: u8, high: u8) -> u16 {
    (low / 2 + high * 128) as u16
}

/// The control byte with the low seven bits of a number.
pub open spec fn sn_low(sn: u16) -> u8 {
    ((sn % 128) * 2) as u8
}

/// The control byte with the upper bits of a number.
pub open spec fn sn_high(sn: u16) -> u8 {
    (sn / 128 % 256) as u8
}

/// What a frame is by its control information: an even first control byte
/// makes it an information frame, its low bits 01 a supervisory frame.
pub open spec fn kind_of(apci: Apci) -> ApciKind {
    if apci.ctrl1 % 2 == 0 {
        ApciKind::I(
            IApci {
                send_sn: sn_of(apci.ctrl1, apci.ctrl2),
                rcv_sn: sn_of(apci.ctrl3, apci.ctrl4),
            },
        )
    } else if apci.ctrl1 % 4 == 1 {
        ApciKind::S(SApci { rcv_sn: sn_of(apci.ctrl3, apci.ctrl4) })
    } else {
        ApciKind::U(UApci { function: (apci.ctrl1 - apci.ctrl1 % 4) as u8 })
    }
}

fn sn_at(low: u8, high: u8) -> (r: u16)
    ensures
        r == sn_of(low, high),
{
    (low / 2) as u16 + high as u16 * 128
}

impl vstd::std_specs::convert::FromSpecImpl<Apci> for ApciKind {
    open spec fn obeys_from_spec() -> bool {
        true
    }

    open spec fn from_spec(v: Apci) -> ApciKind {
        kind_of(v)
    }
}

impl From<Apci> for ApciKind {
    fn from(apci: Apci) -> (r: Self) {
        if apci.ctrl1 % 2 == 0 {
            ApciKind::I(
                IApci {
                    send_sn: sn_at(apci.ctrl1, apci.ctrl2),
                    rcv_sn: sn_at(apci.ctrl3, apci.ctrl4),
                },
            )
        } else if apci.ctrl1 % 4 == 1 {
            ApciKind::S(SApci { rcv_sn: sn_at(apci.ctrl3, apci.ctrl4) })
        } else {
            ApciKind::U(UApci { function: apci.ctrl1 - apci.ctrl1 % 4 })
        }
    }
}

/// The information frame that carries an ASDU.
pub open spec fn iframe(asdu: AsduData, send_sn: u16, rcv_sn: u16) -> ApduData {
    ApduData {
        apci: Apci {
            start: START_FRAME,
            apdu_length: (10 + asdu.raw.len() % 256) as u8,
            ctrl1: sn_low(send_sn),
            ctrl2: sn_high(send_sn),
            ctrl3: sn_low(rcv_sn),
            ctrl4: sn_high(rcv_sn),
        },
        asdu: Some(asdu),
    }
}

/// The information frame that carries an ASDU. Objects whose length does not
/// fit the length field are left out.
pub fn new_iframe(asdu: Asdu, send_sn: u16, rcv_sn: u16) -> (r: Apdu)
    requires
        asdu@.raw.len() % 256 <= 245,
    ensures
        r@ == iframe(asdu@, send_sn, rcv_sn),
        r.asdu == Some(asdu),
{
    let n: usize = bytes_as_slice(&asdu.raw).len();
    let apci = Apci {
        start: START_FRAME,
        apdu_length: 10 + (n % 256) as u8,
        ctrl1: ((send_sn % 128) * 2) as u8,
        ctrl2: (send_sn / 128 % 256) as u8,
        ctrl3: ((rcv_sn % 128) * 2) as u8,
        ctrl4: (rcv_sn / 128 % 256) as u8,
    };
    Apdu { apci, asdu: Some(asdu) }
}

/// The size of an information frame with these objects on the wire.
pub open spec fn iframe_size(asdu: AsduData) -> nat {
    12 + asdu.raw.len()
}

/// Compute the on-wire byte size for an I-frame carrying the given ASDU.
/// This includes the full APCI field (start + length + 4-byte control), the
/// ASDU identifier bytes, and the ASDU raw payload size.
pub fn iframe_wire_size_for_asdu(asdu: &Asdu) -> (r: usize)
    requires
        asdu@.raw.len() + 12 <= usize::MAX,
    ensures
        r == iframe_size(asdu@),
{
    APCI_FIELD_SIZE + IDENTIFIER_SIZE + bytes_as_slice(&asdu.raw).len()
}

/// The supervisory frame with this number.
pub open spec fn sframe(rcv_sn: u16) -> ApduData {
    ApduData {
        apci: Apci {
            start: START_FRAME,
            apdu_length: 4,
            ctrl1: 0x01,
            ctrl2: 0x00,
            ctrl3: sn_low(rcv_sn),
            ctrl4: sn_high(rcv_sn),
        },
        asdu: None,
    }
}

pub fn new_sframe(rcv_sn: u16) -> (r: Apdu)
    ensures
        r@ == sframe(rcv_sn),
{
    Apdu {
        apci: Apci {
            start: START_FRAME,
            apdu_length: 4,
            ctrl1: 0x01,
            ctrl2: 0x00,
            ctrl3: ((rcv_sn % 128) * 2) as u8,
            ctrl4: (rcv_sn / 128 % 256) as u8,
        },
        asdu: None,
    }
}

/// The unnumbered frame with this function.
pub open spec fn uframe(function: u8) -> ApduData {
    ApduData {
        apci: Apci {
            start: START_FRAME,
            apdu_length: 4,
            ctrl1: (function - function % 4 + 3) as u8,
            ctrl2: 0x00,
            ctrl3: 0x00,
            ctrl4: 0x00,
        },
        asdu: None,
    }
}

pub fn new_uframe(function: u8) -> (r: Apdu)
    ensures
        r@ == uframe(function),
{
    Apdu {
        apci: Apci {
            start: START_FRAME,
            apdu_length: 4,
            ctrl1: function - function % 4 + 3,
            ctrl2: 0x00,
            ctrl3: 0x00,
            ctrl4: 0x00,
        },
        asdu: None,
    }
}

/// Number of frames between an acknowledgement and the next number to send,
/// counted around 32768.
pub open spec fn seq_count(next_ack_no: u16, next_send_no: u16) -> int {
    if next_ack_no > next_send_no {
        next_send_no + 32768 - next_ack_no
    } else {
        next_send_no - next_ack_no
    }
}

/// The count exists and is computed within 16 bits.
pub open spec fn can_count(next_ack_no: u16, next_send_no: u16) -> bool {
    next_ack_no > next_send_no ==> next_send_no < 32768 && next_ack_no <= next_send_no + 32768
}

/// Number of frames between an acknowledgement and the next number to send.
pub fn seq_no_count(next_ack_no: u16, next_send_no: u16) -> (r: u16)
    requires
        can_count(next_ack_no, next_send_no),
    ensures
        r == seq_count(next_ack_no, next_send_no),
{
    if next_ack_no > next_send_no {
        next_send_no + 32768 - next_ack_no
    } else {
        next_send_no - next_ack_no
    }
}

/// What stays of the waiting frames when everything up to and including the
/// frame numbered `seq` is taken off; nothing where there is no such frame.
pub open spec fn behind_seq(pending: Seq<SeqPending>, seq: int) -> Seq<SeqPending>
    decreases pending.len(),
{
    if pending.len() == 0 {
        pending
    } else if pending[0].seq == seq {
        pending.skip(1)
    } else {
        behind_seq(pending.skip(1), seq)
    }
}

/// The acknowledgement lies between the last one and the next number to send.
pub open spec fn ack_in_window(ack_no: u16, ack_sendsn: u16, send_sn: u16) -> bool {
    seq_count(ack_sendsn, send_sn) >= seq_count(ack_no, send_sn)
}

/// Take an acknowledgement in: the frames before it no longer wait. One that
/// repeats the last acknowledgement changes nothing, one out of the window is
/// refused. Acknowledging number 0 with frames waiting has no number before
/// it and is left out.
pub fn update_ack_no_out(
    ack_no: u16,
    ack_sendsn: &mut u16,
    send_sn: &mut u16,
    pending: &mut VecDeque<SeqPending>,
) -> (r: bool)
    requires
        ack_no != *old(ack_sendsn) ==> can_count(*old(ack_sendsn), *old(send_sn)) && can_count(
            ack_no,
            *old(send_sn),
        ) && (ack_in_window(ack_no, *old(ack_sendsn), *old(send_sn)) && old(pending)@.len() > 0
            ==> ack_no > 0),
    ensures
        *final(send_sn) == *old(send_sn),
        if ack_no == *old(ack_sendsn) {
            r && *final(ack_sendsn) == ack_no && final(pending)@ == old(pending)@
        } else if !ack_in_window(ack_no, *old(ack_sendsn), *old(send_sn)) {
            !r && *final(ack_sendsn) == *old(ack_sendsn) && final(pending)@ == old(pending)@
        } else {
            r && *final(ack_sendsn) == ack_no && final(pending)@ == behind_seq(
                old(pending)@,
                ack_no - 1,
            )
        },
{
    if ack_no == *ack_sendsn {
        return true;
    }
    if seq_no_count(*ack_sendsn, *send_sn) < seq_no_count(ack_no, *send_sn) {
        return false;
    }
    let ghost p0 = pending@;
    let mut found: bool = false;
    while !found && pending.len() > 0
        invariant
            p0.len() > 0 ==> ack_no > 0,
            pending@.len() <= p0.len(),
            if found {
                behind_seq(p0, ack_no - 1) == pending@
            } else {
                behind_seq(p0, ack_no - 1) == behind_seq(pending@, ack_no - 1)
            },
        decreases pending@.len(),
    {
        let ghost before = pending@;
        match pending.pop_front() {
            Some(p) => {
                assert(pending@ =~= before.skip(1));
                if p.seq == ack_no - 1 {
                    found = true;
                }
            },
            None => {},
        }
    }
    *ack_sendsn = ack_no;
    true
}

/// A frame carries its numbers: what the control information says is what the
/// frame was made with.
pub proof fn frame_numbers_are_read_back(asdu: AsduData, send_sn: u16, rcv_sn: u16, function: u8)
    requires
        send_sn < 32768,
        rcv_sn < 32768,
        function % 4 == 0,
    ensures
        kind_of(iframe(asdu, send_sn, rcv_sn).apci) == ApciKind::I(IApci { send_sn, rcv_sn }),
        kind_of(sframe(rcv_sn).apci) == ApciKind::S(SApci { rcv_sn }),
        kind_of(uframe(function).apci) == ApciKind::U(UApci { function }),
{
}

} // verus!
