//! Codec between the byte stream and frames.

use super::frame::apci::{
    iframe, kind_of, sframe, uframe, Apci, ApciKind, APCI_FIELD_SIZE, APDU_SIZE_MAX, START_FRAME,
};
use super::frame::asdu::{decoded, written_asdu_is_read_back, Asdu, AsduData};
use super::frame::{Apdu, ApduData};
use crate::text::{decimal, decimal_text, text3};
use crate::wire::{
    buf_as_slice, buf_content, buf_extend, buf_freeze, buf_put_u16_le, buf_put_u8, buf_split_to,
    bytes_as_slice, bytes_content, lemma_le2,
};
use bytes::BytesMut;
use vstd::prelude::*;

verus! {

/// Codec between the byte stream and frames.
#[derive(Debug, PartialEq, Default)]
pub struct Codec;

/// The length of the frame at the front of a stream, with start and length.
pub open spec fn frame_len(b: Seq<u8>) -> int {
    b[1] + 2
}

/// What the stream says: no whole frame yet, an error, or a frame.
pub enum Decoded {
    Waiting,
    Refused(Seq<char>),
    Frame(ApduData),
}

/// The control information at the front of a stream.
pub open spec fn apci_at(b: Seq<u8>) -> Apci {
    Apci {
        start: b[0],
        apdu_length: b[1],
        ctrl1: b[2],
        ctrl2: b[3],
        ctrl3: b[4],
        ctrl4: b[5],
    }
}

/// The ASDU that bytes stand for, if they stand for one.
pub open spec fn asdu_of(b: Seq<u8>) -> Option<AsduData> {
    match decoded(b) {
        Ok(a) => Some(a),
        Err(_) => None,
    }
}

/// What is read from a stream and what stays on it. A frame with a wrong
/// start is refused when its control information is off the stream; an
/// information frame whose ASDU cannot be read comes without it; the other
/// frames take their control information only.
pub open spec fn read_frame(b: Seq<u8>) -> (Decoded, Seq<u8>) {
    if b.len() < 6 {
        (Decoded::Waiting, b)
    } else if !(6 <= frame_len(b) <= 255) {
        (Decoded::Refused("Invalid APDU length:"@ + decimal(frame_len(b) as nat)), b)
    } else if b.len() < frame_len(b) {
        (Decoded::Waiting, b)
    } else if b[0] != START_FRAME {
        (Decoded::Refused("Invalid start frame:"@ + decimal(b[0] as nat)), b.skip(6))
    } else if kind_of(apci_at(b)) is I {
        (
            Decoded::Frame(
                ApduData { apci: apci_at(b), asdu: asdu_of(b.subrange(6, frame_len(b))) },
            ),
            b.skip(frame_len(b)),
        )
    } else {
        (Decoded::Frame(ApduData { apci: apci_at(b), asdu: None }), b.skip(6))
    }
}

impl Codec {
    /// Append a frame to the stream.
    pub fn encode(&mut self, apdu: Apdu, buf: &mut BytesMut) -> (r: Result<(), String>)
        ensures
            r is Ok,
            buf_content(*final(buf)) == buf_content(*old(buf)) + apdu@.encoded(),
    {
        let ghost b0 = buf_content(*buf);
        let apci = apdu.apci;
        buf_put_u8(buf, apci.start);
        buf_put_u8(buf, apci.apdu_length);
        buf_put_u8(buf, apci.ctrl1);
        buf_put_u8(buf, apci.ctrl2);
        buf_put_u8(buf, apci.ctrl3);
        buf_put_u8(buf, apci.ctrl4);
        assert(buf_content(*buf) =~= b0 + apci.encoded());
        match &apdu.asdu {
            Some(asdu) => {
                buf_put_u8(buf, asdu.identifier.type_id.code());
                buf_put_u8(buf, asdu.identifier.variable_struct.raw());
                buf_put_u8(buf, asdu.identifier.cot.raw());
                buf_put_u8(buf, asdu.identifier.orig_addr);
                buf_put_u16_le(buf, asdu.identifier.common_addr);
                buf_extend(buf, bytes_as_slice(&asdu.raw));
                assert(buf_content(*buf) =~= b0 + (apci.encoded() + asdu@.encoded()));
            },
            None => {},
        }
        Ok(())
    }

    /// Take a frame off the stream.
    pub fn decode(&mut self, buf: &mut BytesMut) -> (r: Result<Option<Apdu>, String>)
        ensures
            buf_content(*final(buf)) == read_frame(buf_content(*old(buf))).1,
            match read_frame(buf_content(*old(buf))).0 {
                Decoded::Waiting => r matches Ok(None),
                Decoded::Refused(text) => r matches Err(e) && e@ == text,
                Decoded::Frame(f) => r matches Ok(Some(a)) && a@ == f,
            },
    {
        let ghost b = buf_content(*buf);
        let have: usize = buf_as_slice(buf).len();
        if have < APCI_FIELD_SIZE {
            return Ok(None);
        }
        let len: usize = buf_as_slice(buf)[1] as usize + 2;
        if len < APCI_FIELD_SIZE || len > APDU_SIZE_MAX {
            let n = decimal_text(len as u64);
            let e = text3("Invalid APDU length:", n.as_str(), "");
            proof {
                reveal_strlit("");
                assert(e@ =~= "Invalid APDU length:"@ + decimal(len as nat));
            }
            return Err(e);
        }
        if have < len {
            return Ok(None);
        }
        let head = buf_split_to(buf, APCI_FIELD_SIZE);
        let h = buf_as_slice(&head);
        if h[0] != START_FRAME {
            let n = decimal_text(h[0] as u64);
            let e = text3("Invalid start frame:", n.as_str(), "");
            proof {
                reveal_strlit("");
                assert(e@ =~= "Invalid start frame:"@ + decimal(b[0] as nat));
            }
            return Err(e);
        }
        let apci = Apci {
            start: h[0],
            apdu_length: h[1],
            ctrl1: h[2],
            ctrl2: h[3],
            ctrl3: h[4],
            ctrl4: h[5],
        };
        assert(apci == apci_at(b));
        match ApciKind::from(apci) {
            ApciKind::I(_) => {
                let data = buf_freeze(buf_split_to(buf, len - APCI_FIELD_SIZE));
                proof {
                    assert(bytes_content(data) =~= b.subrange(6, len as int));
                    assert(buf_content(*buf) =~= b.skip(len as int));
                }
                match Asdu::try_from(data) {
                    Ok(asdu) => Ok(Some(Apdu { apci, asdu: Some(asdu) })),
                    Err(_) => Ok(Some(Apdu { apci, asdu: None })),
                }
            },
            _ => Ok(Some(Apdu { apci, asdu: None })),
        }
    }
}

/// A frame that the session sends: an information frame whose objects fit, a
/// supervisory or an unnumbered frame.
pub open spec fn is_sent(f: ApduData) -> bool {
    ||| exists|a: AsduData, s: u16, r: u16|
        a.raw.len() <= 243 && s < 32768 && f == #[trigger] iframe(a, s, r)
    ||| exists|r: u16| f == #[trigger] sframe(r)
    ||| exists|u: u8| f == #[trigger] uframe(u)
}

/// What is sent is what is read, and the next frame follows: of a stream that
/// starts with a sent frame, that frame is read and the rest stays.
pub proof fn sent_frame_is_read_back(f: ApduData, rest: Seq<u8>)
    requires
        is_sent(f),
    ensures
        read_frame(f.encoded() + rest) == (Decoded::Frame(f), rest),
{
    let b = f.encoded() + rest;
    assert(f.apci.encoded().len() == 6);
    assert(forall|i: int| 0 <= i < 6 ==> b[i] == f.apci.encoded()[i]);
    assert(apci_at(b) == f.apci);
    match f.asdu {
        Some(a) => {
            lemma_le2(a.identifier.common_addr as nat);
            assert(a.encoded().len() == 6 + a.raw.len());
            assert(b.subrange(6, frame_len(b)) =~= a.encoded());
            assert(b.skip(frame_len(b)) =~= rest);
            written_asdu_is_read_back(a);
        },
        None => {
            assert(b.skip(6) =~= rest);
        },
    }
}

} // verus!
