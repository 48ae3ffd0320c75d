//! Frames of the protocol.

pub mod apci;
pub mod asdu;
pub mod cproc;
pub mod format;
pub mod layout;
pub mod mproc;
pub mod msys;
pub mod objects;
pub mod quality;
pub mod time;

use apci::Apci;
use asdu::{Asdu, AsduData};
use crate::text::all_bracketed;
use vstd::prelude::*;

verus! {

/// A frame: control information and, in information frames, an ASDU.
#[derive(Debug)]
pub struct Apdu {
    pub apci: Apci,
    pub asdu: Option<Asdu>,
}

/// A frame as mathematical data.
pub struct ApduData {
    pub apci: Apci,
    pub asdu: Option<AsduData>,
}

/// An optional ASDU as mathematical data.
pub open spec fn asdu_view(asdu: Option<Asdu>) -> Option<AsduData> {
    match asdu {
        Some(a) => Some(a@),
        None => None,
    }
}

impl View for Apdu {
    type V = ApduData;

    open spec fn view(&self) -> ApduData {
        ApduData { apci: self.apci, asdu: asdu_view(self.asdu) }
    }
}

impl ApduData {
    /// The bytes on the wire.
    pub open spec fn encoded(self) -> Seq<u8> {
        match self.asdu {
            Some(a) => self.apci.encoded() + a.encoded(),
            None => self.apci.encoded(),
        }
    }
}

impl Apdu {
    /// The frame as text: every byte in brackets.
    pub fn to_text(&self) -> (r: String)
        ensures
            r@ == all_bracketed(self.apci.encoded(), ""@) + match self.asdu {
                Some(asdu) => asdu@.text(),
                None => Seq::empty(),
            },
    {
        let mut out = self.apci.to_text();
        let ghost head = out@;
        match &self.asdu {
            Some(asdu) => {
                let rest = asdu.to_text();
                out.append(rest.as_str());
            },
            None => {
                assert(head + Seq::<char>::empty() =~= head);
            },
        }
        out
    }
}

} // verus!
