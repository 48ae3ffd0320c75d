//! MC soft devices: addressing class, notation, wire codes.

use crate::text::{
    chars_of, has_prefix, starts_with, to_upper, trim_start, trimmed_start, upper_text,
};
use vstd::prelude::*;
use vstd::string::*;
use vstd::utf8::{
    decode_utf8, encode_utf8, encode_utf8_decode_utf8, is_ascii_chars, is_char_boundary,
};

verus! {

/// Numeric notation used by MC soft devices.
#[derive(Debug, Clone, Copy, PartialEq, Eq, Structural)]
pub enum McNotation {
    /// Decimal addressing (base 10).
    Dec,
    /// Hexadecimal addressing (base 16).
    Hex,
}

/// MC soft device code (Mitsubishi terminology): the commonly used
/// bit/word/dword soft elements.
#[derive(Debug, Clone, Copy, PartialEq, Eq, Structural)]
pub enum McDeviceType {
    // Special relay/register
    SM,
    SD,
    // Inputs / outputs
    X,
    Y,
    // Internal relays
    M,
    L,
    F,
    V,
    // Link relays/registers
    B,
    // Data register
    D,
    W,
    // Timers / counters (contacts/coils/current values)
    TS,
    TC,
    TN,
    LTS,
    LTC,
    LTN,
    STS,
    STC,
    STN,
    LSTS,
    LSTC,
    LSTN,
    CS,
    CC,
    CN,
    LCS,
    LCC,
    LCN,
    // Link special relay/register
    SB,
    SW,
    // Direct access
    DX,
    DY,
    // Index registers
    Z,
    LZ,
    // File registers
    R,
    ZR,
    RD,
}

impl McDeviceType {
    /// The bit-addressed devices.
    pub open spec fn bit_spec(self) -> bool {
        ||| self is SM
        ||| self is X
        ||| self is Y
        ||| self is M
        ||| self is L
        ||| self is F
        ||| self is V
        ||| self is B
        ||| self is TS
        ||| self is TC
        ||| self is LTS
        ||| self is LTC
        ||| self is STS
        ||| self is STC
        ||| self is LSTS
        ||| self is LSTC
        ||| self is CS
        ||| self is CC
        ||| self is LCS
        ||| self is LCC
        ||| self is SB
        ||| self is DX
        ||| self is DY
    }

    /// Return true if this device is bit-addressed.
    pub fn is_bit(&self) -> (r: bool)
        ensures
            r == self.bit_spec(),
    {
        matches!(
            self,
            McDeviceType::SM
                | McDeviceType::X
                | McDeviceType::Y
                | McDeviceType::M
                | McDeviceType::L
                | McDeviceType::F
                | McDeviceType::V
                | McDeviceType::B
                | McDeviceType::TS
                | McDeviceType::TC
                | McDeviceType::LTS
                | McDeviceType::LTC
                | McDeviceType::STS
                | McDeviceType::STC
                | McDeviceType::LSTS
                | McDeviceType::LSTC
                | McDeviceType::CS
                | McDeviceType::CC
                | McDeviceType::LCS
                | McDeviceType::LCC
                | McDeviceType::SB
                | McDeviceType::DX
                | McDeviceType::DY
        )
    }

    /// The word-addressed devices (16-bit units).
    pub open spec fn word_spec(self) -> bool {
        ||| self is SD
        ||| self is D
        ||| self is W
        ||| self is TN
        ||| self is STN
        ||| self is CN
        ||| self is SW
        ||| self is Z
        ||| self is R
        ||| self is ZR
        ||| self is RD
    }

    /// Return true if this device is word-addressed (16-bit units).
    pub fn is_word(&self) -> (r: bool)
        ensures
            r == self.word_spec(),
    {
        matches!(
            self,
            McDeviceType::SD
                | McDeviceType::D
                | McDeviceType::W
                | McDeviceType::TN
                | McDeviceType::STN
                | McDeviceType::CN
                | McDeviceType::SW
                | McDeviceType::Z
                | McDeviceType::R
                | McDeviceType::ZR
                | McDeviceType::RD
        )
    }

    /// The dword-addressed devices (32-bit units).
    pub open spec fn dword_spec(self) -> bool {
        ||| self is LTN
        ||| self is LSTN
        ||| self is LCN
        ||| self is LZ
    }

    /// Return true if this device is dword-addressed (32-bit units).
    pub fn is_dword(&self) -> (r: bool)
        ensures
            r == self.dword_spec(),
    {
        matches!(
            self,
            McDeviceType::LTN
                | McDeviceType::LSTN
                | McDeviceType::LCN
                | McDeviceType::LZ
        )
    }

    /// The devices that a batch word read may not name: long timers
    /// (contacts/coils), long accumulated timers (contacts/coils) and the long
    /// index register.
    pub open spec fn no_batch_read_spec(self) -> bool {
        ||| self is LTS
        ||| self is LTC
        ||| self is LSTS
        ||| self is LSTC
        ||| self is LZ
    }

    /// Return true if this device type is forbidden for batch word read
    /// operations.
    pub fn is_forbidden_batch_word_read(&self) -> (r: bool)
        ensures
            r == self.no_batch_read_spec(),
    {
        matches!(
            self,
            McDeviceType::LTS
                | McDeviceType::LTC
                | McDeviceType::LSTS
                | McDeviceType::LSTC
                | McDeviceType::LZ
        )
    }

    /// The devices that a batch word write may not name: long timers and long
    /// accumulated timers (contacts/coils/current) and the long index register.
    pub open spec fn no_batch_write_spec(self) -> bool {
        ||| self is LTS
        ||| self is LTC
        ||| self is LTN
        ||| self is LSTS
        ||| self is LSTC
        ||| self is LSTN
        ||| self is LZ
    }

    /// Return true if this device type is forbidden for batch word write
    /// operations.
    pub fn is_forbidden_batch_word_write(&self) -> (r: bool)
        ensures
            r == self.no_batch_write_spec(),
    {
        matches!(
            self,
            McDeviceType::LTS
                | McDeviceType::LTC
                | McDeviceType::LTN
                | McDeviceType::LSTS
                | McDeviceType::LSTC
                | McDeviceType::LSTN
                | McDeviceType::LZ
        )
    }

    /// The devices whose numbers are written in hexadecimal; all others are
    /// written in decimal.
    pub open spec fn hex_spec(self) -> bool {
        ||| self is X
        ||| self is Y
        ||| self is B
        ||| self is W
        ||| self is SB
        ||| self is SW
        ||| self is DX
        ||| self is DY
        ||| self is ZR
    }

    /// Numeric notation of a device.
    pub open spec fn notation_spec(self) -> McNotation {
        if self.hex_spec() {
            McNotation::Hex
        } else {
            McNotation::Dec
        }
    }

    /// Return numeric notation (decimal/hex) used for this device type.
    pub fn notation(&self) -> (r: McNotation)
        ensures
            r == self.notation_spec(),
    {
        match self {
            McDeviceType::X
            | McDeviceType::Y
            | McDeviceType::B
            | McDeviceType::W
            | McDeviceType::SB
            | McDeviceType::SW
            | McDeviceType::DX
            | McDeviceType::DY
            | McDeviceType::ZR => McNotation::Hex,
            _ => McNotation::Dec,
        }
    }

    /// Bytes of one unit: 4 for dword devices, 2 for word devices, else 1.
    pub open spec fn unit_spec(self) -> nat {
        if self.dword_spec() {
            4
        } else if self.word_spec() {
            2
        } else {
            1
        }
    }

    /// Return the size of the unit for this device type.
    pub fn unit_size(&self) -> (r: usize)
        ensures
            r == self.unit_spec(),
    {
        if self.is_dword() {
            4
        } else if self.is_word() {
            2
        } else {
            1
        }
    }

    /// Position of the device in the declaration, by which plans are ordered.
    pub open spec fn rank_spec(self) -> u8 {
        match self {
            McDeviceType::SM => 0,
            McDeviceType::SD => 1,
            McDeviceType::X => 2,
            McDeviceType::Y => 3,
            McDeviceType::M => 4,
            McDeviceType::L => 5,
            McDeviceType::F => 6,
            McDeviceType::V => 7,
            McDeviceType::B => 8,
            McDeviceType::D => 9,
            McDeviceType::W => 10,
            McDeviceType::TS => 11,
            McDeviceType::TC => 12,
            McDeviceType::TN => 13,
            McDeviceType::LTS => 14,
            McDeviceType::LTC => 15,
            McDeviceType::LTN => 16,
            McDeviceType::STS => 17,
            McDeviceType::STC => 18,
            McDeviceType::STN => 19,
            McDeviceType::LSTS => 20,
            McDeviceType::LSTC => 21,
            McDeviceType::LSTN => 22,
            McDeviceType::CS => 23,
            McDeviceType::CC => 24,
            McDeviceType::CN => 25,
            McDeviceType::LCS => 26,
            McDeviceType::LCC => 27,
            McDeviceType::LCN => 28,
            McDeviceType::SB => 29,
            McDeviceType::SW => 30,
            McDeviceType::DX => 31,
            McDeviceType::DY => 32,
            McDeviceType::Z => 33,
            McDeviceType::LZ => 34,
            McDeviceType::R => 35,
            McDeviceType::ZR => 36,
            McDeviceType::RD => 37,
        }
    }

    /// Position of the device in the declaration, by which plans are ordered.
    pub fn rank(&self) -> (r: u8)
        ensures
            r == self.rank_spec(),
    {
        match self {
            McDeviceType::SM => 0,
            McDeviceType::SD => 1,
            McDeviceType::X => 2,
            McDeviceType::Y => 3,
            McDeviceType::M => 4,
            McDeviceType::L => 5,
            McDeviceType::F => 6,
            McDeviceType::V => 7,
            McDeviceType::B => 8,
            McDeviceType::D => 9,
            McDeviceType::W => 10,
            McDeviceType::TS => 11,
            McDeviceType::TC => 12,
            McDeviceType::TN => 13,
            McDeviceType::LTS => 14,
            McDeviceType::LTC => 15,
            McDeviceType::LTN => 16,
            McDeviceType::STS => 17,
            McDeviceType::STC => 18,
            McDeviceType::STN => 19,
            McDeviceType::LSTS => 20,
            McDeviceType::LSTC => 21,
            McDeviceType::LSTN => 22,
            McDeviceType::CS => 23,
            McDeviceType::CC => 24,
            McDeviceType::CN => 25,
            McDeviceType::LCS => 26,
            McDeviceType::LCC => 27,
            McDeviceType::LCN => 28,
            McDeviceType::SB => 29,
            McDeviceType::SW => 30,
            McDeviceType::DX => 31,
            McDeviceType::DY => 32,
            McDeviceType::Z => 33,
            McDeviceType::LZ => 34,
            McDeviceType::R => 35,
            McDeviceType::ZR => 36,
            McDeviceType::RD => 37,
        }
    }

    /// The canonical symbol prefix of a device in textual addresses.
    pub open spec fn symbol_spec(self) -> Seq<char> {
        match self {
            McDeviceType::SM => seq!['S', 'M'],
            McDeviceType::SD => seq!['S', 'D'],
            McDeviceType::X => seq!['X'],
            McDeviceType::Y => seq!['Y'],
            McDeviceType::M => seq!['M'],
            McDeviceType::L => seq!['L'],
            McDeviceType::F => seq!['F'],
            McDeviceType::V => seq!['V'],
            McDeviceType::B => seq!['B'],
            McDeviceType::D => seq!['D'],
            McDeviceType::W => seq!['W'],
            McDeviceType::TS => seq!['T', 'S'],
            McDeviceType::TC => seq!['T', 'C'],
            McDeviceType::TN => seq!['T', 'N'],
            McDeviceType::LTS => seq!['L', 'T', 'S'],
            McDeviceType::LTC => seq!['L', 'T', 'C'],
            McDeviceType::LTN => seq!['L', 'T', 'N'],
            McDeviceType::STS => seq!['S', 'T', 'S'],
            McDeviceType::STC => seq!['S', 'T', 'C'],
            McDeviceType::STN => seq!['S', 'T', 'N'],
            McDeviceType::LSTS => seq!['L', 'S', 'T', 'S'],
            McDeviceType::LSTC => seq!['L', 'S', 'T', 'C'],
            McDeviceType::LSTN => seq!['L', 'S', 'T', 'N'],
            McDeviceType::CS => seq!['C', 'S'],
            McDeviceType::CC => seq!['C', 'C'],
            McDeviceType::CN => seq!['C', 'N'],
            McDeviceType::LCS => seq!['L', 'C', 'S'],
            McDeviceType::LCC => seq!['L', 'C', 'C'],
            McDeviceType::LCN => seq!['L', 'C', 'N'],
            McDeviceType::SB => seq!['S', 'B'],
            McDeviceType::SW => seq!['S', 'W'],
            McDeviceType::DX => seq!['D', 'X'],
            McDeviceType::DY => seq!['D', 'Y'],
            McDeviceType::Z => seq!['Z'],
            McDeviceType::LZ => seq!['L', 'Z'],
            McDeviceType::R => seq!['R'],
            McDeviceType::ZR => seq!['Z', 'R'],
            McDeviceType::RD => seq!['R', 'D'],
        }
    }

    /// Return the canonical symbol prefix used in textual addresses.
    pub fn symbol(&self) -> (r: &'static str)
        ensures
            r@ == self.symbol_spec(),
    {
        proof {
            reveal_strlit("SM");
            reveal_strlit("SD");
            reveal_strlit("X");
            reveal_strlit("Y");
            reveal_strlit("M");
            reveal_strlit("L");
            reveal_strlit("F");
            reveal_strlit("V");
            reveal_strlit("B");
            reveal_strlit("D");
            reveal_strlit("W");
            reveal_strlit("TS");
            reveal_strlit("TC");
            reveal_strlit("TN");
            reveal_strlit("LTS");
            reveal_strlit("LTC");
            reveal_strlit("LTN");
            reveal_strlit("STS");
            reveal_strlit("STC");
            reveal_strlit("STN");
            reveal_strlit("LSTS");
            reveal_strlit("LSTC");
            reveal_strlit("LSTN");
            reveal_strlit("CS");
            reveal_strlit("CC");
            reveal_strlit("CN");
            reveal_strlit("LCS");
            reveal_strlit("LCC");
            reveal_strlit("LCN");
            reveal_strlit("SB");
            reveal_strlit("SW");
            reveal_strlit("DX");
            reveal_strlit("DY");
            reveal_strlit("Z");
            reveal_strlit("LZ");
            reveal_strlit("R");
            reveal_strlit("ZR");
            reveal_strlit("RD");
        }
        let r = match self {
            McDeviceType::SM => "SM",
            McDeviceType::SD => "SD",
            McDeviceType::X => "X",
            McDeviceType::Y => "Y",
            McDeviceType::M => "M",
            McDeviceType::L => "L",
            McDeviceType::F => "F",
            McDeviceType::V => "V",
            McDeviceType::B => "B",
            McDeviceType::D => "D",
            McDeviceType::W => "W",
            McDeviceType::TS => "TS",
            McDeviceType::TC => "TC",
            McDeviceType::TN => "TN",
            McDeviceType::LTS => "LTS",
            McDeviceType::LTC => "LTC",
            McDeviceType::LTN => "LTN",
            McDeviceType::STS => "STS",
            McDeviceType::STC => "STC",
            McDeviceType::STN => "STN",
            McDeviceType::LSTS => "LSTS",
            McDeviceType::LSTC => "LSTC",
            McDeviceType::LSTN => "LSTN",
            McDeviceType::CS => "CS",
            McDeviceType::CC => "CC",
            McDeviceType::CN => "CN",
            McDeviceType::LCS => "LCS",
            McDeviceType::LCC => "LCC",
            McDeviceType::LCN => "LCN",
            McDeviceType::SB => "SB",
            McDeviceType::SW => "SW",
            McDeviceType::DX => "DX",
            McDeviceType::DY => "DY",
            McDeviceType::Z => "Z",
            McDeviceType::LZ => "LZ",
            McDeviceType::R => "R",
            McDeviceType::ZR => "ZR",
            McDeviceType::RD => "RD",
        };
        assert(r@ =~= self.symbol_spec());
        r
    }

    /// The device that is tried at step `i` when a symbol is looked for:
    /// longer symbols come first.
    pub open spec fn tried_spec(i: int) -> McDeviceType {
        if i == 0 {
            McDeviceType::LSTS
        } else if i == 1 {
            McDeviceType::LSTC
        } else if i == 2 {
            McDeviceType::LSTN
        } else if i == 3 {
            McDeviceType::LCS
        } else if i == 4 {
            McDeviceType::LCC
        } else if i == 5 {
            McDeviceType::LCN
        } else if i == 6 {
            McDeviceType::LTS
        } else if i == 7 {
            McDeviceType::LTC
        } else if i == 8 {
            McDeviceType::LTN
        } else if i == 9 {
            McDeviceType::STS
        } else if i == 10 {
            McDeviceType::STC
        } else if i == 11 {
            McDeviceType::STN
        } else if i == 12 {
            McDeviceType::TS
        } else if i == 13 {
            McDeviceType::TC
        } else if i == 14 {
            McDeviceType::TN
        } else if i == 15 {
            McDeviceType::CS
        } else if i == 16 {
            McDeviceType::CC
        } else if i == 17 {
            McDeviceType::CN
        } else if i == 18 {
            McDeviceType::SM
        } else if i == 19 {
            McDeviceType::SD
        } else if i == 20 {
            McDeviceType::SB
        } else if i == 21 {
            McDeviceType::SW
        } else if i == 22 {
            McDeviceType::DX
        } else if i == 23 {
            McDeviceType::DY
        } else if i == 24 {
            McDeviceType::ZR
        } else if i == 25 {
            McDeviceType::RD
        } else if i == 26 {
            McDeviceType::LZ
        } else if i == 27 {
            McDeviceType::Z
        } else if i == 28 {
            McDeviceType::R
        } else if i == 29 {
            McDeviceType::D
        } else if i == 30 {
            McDeviceType::X
        } else if i == 31 {
            McDeviceType::Y
        } else if i == 32 {
            McDeviceType::M
        } else if i == 33 {
            McDeviceType::L
        } else if i == 34 {
            McDeviceType::F
        } else if i == 35 {
            McDeviceType::V
        } else if i == 36 {
            McDeviceType::B
        } else {
            McDeviceType::W
        }
    }

    fn tried(i: usize) -> (r: McDeviceType)
        ensures
            r == Self::tried_spec(i as int),
    {
        match i {
            0 => McDeviceType::LSTS,
            1 => McDeviceType::LSTC,
            2 => McDeviceType::LSTN,
            3 => McDeviceType::LCS,
            4 => McDeviceType::LCC,
            5 => McDeviceType::LCN,
            6 => McDeviceType::LTS,
            7 => McDeviceType::LTC,
            8 => McDeviceType::LTN,
            9 => McDeviceType::STS,
            10 => McDeviceType::STC,
            11 => McDeviceType::STN,
            12 => McDeviceType::TS,
            13 => McDeviceType::TC,
            14 => McDeviceType::TN,
            15 => McDeviceType::CS,
            16 => McDeviceType::CC,
            17 => McDeviceType::CN,
            18 => McDeviceType::SM,
            19 => McDeviceType::SD,
            20 => McDeviceType::SB,
            21 => McDeviceType::SW,
            22 => McDeviceType::DX,
            23 => McDeviceType::DY,
            24 => McDeviceType::ZR,
            25 => McDeviceType::RD,
            26 => McDeviceType::LZ,
            27 => McDeviceType::Z,
            28 => McDeviceType::R,
            29 => McDeviceType::D,
            30 => McDeviceType::X,
            31 => McDeviceType::Y,
            32 => McDeviceType::M,
            33 => McDeviceType::L,
            34 => McDeviceType::F,
            35 => McDeviceType::V,
            36 => McDeviceType::B,
            _ => McDeviceType::W,
        }
    }

    /// Step at which the device is tried.
    pub open spec fn try_step(self) -> int {
        match self {
            McDeviceType::LSTS => 0,
            McDeviceType::LSTC => 1,
            McDeviceType::LSTN => 2,
            McDeviceType::LCS => 3,
            McDeviceType::LCC => 4,
            McDeviceType::LCN => 5,
            McDeviceType::LTS => 6,
            McDeviceType::LTC => 7,
            McDeviceType::LTN => 8,
            McDeviceType::STS => 9,
            McDeviceType::STC => 10,
            McDeviceType::STN => 11,
            McDeviceType::TS => 12,
            McDeviceType::TC => 13,
            McDeviceType::TN => 14,
            McDeviceType::CS => 15,
            McDeviceType::CC => 16,
            McDeviceType::CN => 17,
            McDeviceType::SM => 18,
            McDeviceType::SD => 19,
            McDeviceType::SB => 20,
            McDeviceType::SW => 21,
            McDeviceType::DX => 22,
            McDeviceType::DY => 23,
            McDeviceType::ZR => 24,
            McDeviceType::RD => 25,
            McDeviceType::LZ => 26,
            McDeviceType::Z => 27,
            McDeviceType::R => 28,
            McDeviceType::D => 29,
            McDeviceType::X => 30,
            McDeviceType::Y => 31,
            McDeviceType::M => 32,
            McDeviceType::L => 33,
            McDeviceType::F => 34,
            McDeviceType::V => 35,
            McDeviceType::B => 36,
            McDeviceType::W => 37,
        }
    }

    /// The first device from step `i` on whose symbol stands at the front of
    /// the text.
    pub open spec fn found_from(upper: Seq<char>, i: int) -> Option<McDeviceType>
        decreases 38 - i,
    {
        if i >= 38 {
            None
        } else if starts_with(upper, Self::tried_spec(i).symbol_spec()) {
            Some(Self::tried_spec(i))
        } else {
            Self::found_from(upper, i + 1)
        }
    }

    /// The device that an address text names, in any case and with white
    /// space before it.
    pub open spec fn named_by(addr: Seq<char>) -> Option<McDeviceType> {
        Self::found_from(upper_text(trimmed_start(addr)), 0)
    }

    /// The symbol of the named device ends between two characters of the text
    /// without the white space before it. This always holds of ASCII text.
    pub open spec fn symbol_ends_at_char(addr: Seq<char>) -> bool {
        match Self::named_by(addr) {
            Some(d) => is_char_boundary(
                encode_utf8(trimmed_start(addr)),
                d.symbol_spec().len() as int,
            ),
            None => true,
        }
    }

    /// What follows the symbol of the device in an address text with white
    /// space before it, up to the end of the text.
    pub open spec fn behind_symbol(self, addr: Seq<char>) -> Seq<char> {
        decode_utf8(encode_utf8(trimmed_start(addr)).skip(self.symbol_spec().len() as int))
    }

    fn find(addr: &str) -> (r: Option<McDeviceType>)
        ensures
            r == Self::named_by(addr@),
    {
        let upper = chars_of(to_upper(trim_start(addr)).as_str());
        for i in 0..38usize
            invariant
                upper@ == upper_text(trimmed_start(addr@)),
                Self::found_from(upper@, 0) == Self::found_from(upper@, i as int),
        {
            let d = Self::tried(i);
            let sym = chars_of(d.symbol());
            if has_prefix(&upper, &sym) {
                return Some(d);
            }
        }
        None
    }

    /// Identify a device from the beginning of an address text and return it
    /// with the remaining suffix: what follows the symbol up to the end of the
    /// text. White space before the symbol is passed over.
    ///
    /// A text in which the length of the symbol falls inside of a character
    /// cannot be cut and is left out.
    pub fn identify_by_prefix(addr: &str) -> (r: Option<(McDeviceType, &str)>)
        requires
            Self::symbol_ends_at_char(addr@),
        ensures
            match r {
                None => Self::named_by(addr@) is None,
                Some((d, rest)) => Self::named_by(addr@) == Some(d) && rest@ == d.behind_symbol(
                    addr@,
                ),
            },
    {
        match Self::find(addr) {
            None => None,
            Some(d) => {
                let sym = chars_of(d.symbol());
                let rest = trim_start(addr).split_at(sym.len()).1;
                proof {
                    encode_utf8_decode_utf8(rest@);
                }
                Some((d, rest))
            },
        }
    }

    /// `identify_by_prefix` for any text: `None` where the symbol would end
    /// inside of a character.
    pub fn try_identify_by_prefix(addr: &str) -> (r: Option<Option<(McDeviceType, &str)>>)
        ensures
            match r {
                None => !Self::symbol_ends_at_char(addr@),
                Some(None) => Self::named_by(addr@) is None,
                Some(Some((d, rest))) => {
                    &&& Self::named_by(addr@) == Some(d)
                    &&& Self::symbol_ends_at_char(addr@)
                    &&& rest@ == d.behind_symbol(addr@)
                },
            },
    {
        if let Some(d) = Self::find(addr) {
            let sym = chars_of(d.symbol());
            if !trim_start(addr).is_char_boundary(sym.len()) {
                return None;
            }
        }
        Some(Self::identify_by_prefix(addr))
    }

    /// 1E device code of a device, where the 1E frame knows it.
    pub open spec fn code_1e_spec(self) -> Option<u16> {
        match self {
            McDeviceType::X => Some(0x5820),
            McDeviceType::Y => Some(0x5920),
            McDeviceType::M => Some(0x4D20),
            McDeviceType::L => Some(0x4C20),
            McDeviceType::F => Some(0x4620),
            McDeviceType::B => Some(0x4220),
            McDeviceType::D => Some(0x4420),
            McDeviceType::W => Some(0x5720),
            McDeviceType::TN => Some(0x544E),
            McDeviceType::TC => Some(0x5443),
            McDeviceType::TS => Some(0x5453),
            McDeviceType::CN => Some(0x434E),
            McDeviceType::CC => Some(0x4343),
            McDeviceType::CS => Some(0x4353),
            McDeviceType::R => Some(0x5220),
            _ => None,
        }
    }

    /// Return the 1E frame binary device code for this device type; `None`
    /// for the devices that 1E frames do not support.
    pub fn device_code_1e(&self) -> (r: Option<u16>)
        ensures
            r == self.code_1e_spec(),
    {
        match self {
            McDeviceType::X => Some(0x5820),
            McDeviceType::Y => Some(0x5920),
            McDeviceType::M => Some(0x4D20),
            McDeviceType::L => Some(0x4C20),
            McDeviceType::F => Some(0x4620),
            McDeviceType::B => Some(0x4220),
            McDeviceType::D => Some(0x4420),
            McDeviceType::W => Some(0x5720),
            McDeviceType::TN => Some(0x544E),
            McDeviceType::TC => Some(0x5443),
            McDeviceType::TS => Some(0x5453),
            McDeviceType::CN => Some(0x434E),
            McDeviceType::CC => Some(0x4343),
            McDeviceType::CS => Some(0x4353),
            McDeviceType::R => Some(0x5220),
            _ => None,
        }
    }

    /// 3E/4E device code of a device.
    pub open spec fn code_3e_spec(self) -> u16 {
        match self {
            McDeviceType::SM => 0x0091,
            McDeviceType::SD => 0x00A9,
            McDeviceType::X => 0x009C,
            McDeviceType::Y => 0x009D,
            McDeviceType::M => 0x0090,
            McDeviceType::L => 0x0092,
            McDeviceType::F => 0x0093,
            McDeviceType::V => 0x0094,
            McDeviceType::B => 0x00A0,
            McDeviceType::D => 0x00A8,
            McDeviceType::W => 0x00B4,
            McDeviceType::TS => 0x00C1,
            McDeviceType::TC => 0x00C0,
            McDeviceType::TN => 0x00C2,
            McDeviceType::LTS => 0x0051,
            McDeviceType::LTC => 0x0050,
            McDeviceType::LTN => 0x0052,
            McDeviceType::STS => 0x00C7,
            McDeviceType::STC => 0x00C6,
            McDeviceType::STN => 0x00C8,
            McDeviceType::LSTS => 0x0059,
            McDeviceType::LSTC => 0x0058,
            McDeviceType::LSTN => 0x005A,
            McDeviceType::CS => 0x00C4,
            McDeviceType::CC => 0x00C3,
            McDeviceType::CN => 0x00C5,
            McDeviceType::LCS => 0x0055,
            McDeviceType::LCC => 0x0054,
            McDeviceType::LCN => 0x0056,
            McDeviceType::SB => 0x00A1,
            McDeviceType::SW => 0x00B5,
            McDeviceType::DX => 0x00A2,
            McDeviceType::DY => 0x00A3,
            McDeviceType::Z => 0x00CC,
            McDeviceType::LZ => 0x0062,
            McDeviceType::R => 0x00AF,
            McDeviceType::ZR => 0x00B0,
            McDeviceType::RD => 0x002C,
        }
    }

    /// Return the 3E/4E frame binary device code for this device type. Every
    /// device has one.
    pub fn device_code_3e(&self) -> (r: Option<u16>)
        ensures
            r == Some(self.code_3e_spec()),
    {
        match self {
            McDeviceType::SM => Some(0x0091),
            McDeviceType::SD => Some(0x00A9),
            McDeviceType::X => Some(0x009C),
            McDeviceType::Y => Some(0x009D),
            McDeviceType::M => Some(0x0090),
            McDeviceType::L => Some(0x0092),
            McDeviceType::F => Some(0x0093),
            McDeviceType::V => Some(0x0094),
            McDeviceType::B => Some(0x00A0),
            McDeviceType::D => Some(0x00A8),
            McDeviceType::W => Some(0x00B4),
            McDeviceType::TS => Some(0x00C1),
            McDeviceType::TC => Some(0x00C0),
            McDeviceType::TN => Some(0x00C2),
            McDeviceType::LTS => Some(0x0051),
            McDeviceType::LTC => Some(0x0050),
            McDeviceType::LTN => Some(0x0052),
            McDeviceType::STS => Some(0x00C7),
            McDeviceType::STC => Some(0x00C6),
            McDeviceType::STN => Some(0x00C8),
            McDeviceType::LSTS => Some(0x0059),
            McDeviceType::LSTC => Some(0x0058),
            McDeviceType::LSTN => Some(0x005A),
            McDeviceType::CS => Some(0x00C4),
            McDeviceType::CC => Some(0x00C3),
            McDeviceType::CN => Some(0x00C5),
            McDeviceType::LCS => Some(0x0055),
            McDeviceType::LCC => Some(0x0054),
            McDeviceType::LCN => Some(0x0056),
            McDeviceType::SB => Some(0x00A1),
            McDeviceType::SW => Some(0x00B5),
            McDeviceType::DX => Some(0x00A2),
            McDeviceType::DY => Some(0x00A3),
            McDeviceType::Z => Some(0x00CC),
            McDeviceType::LZ => Some(0x0062),
            McDeviceType::R => Some(0x00AF),
            McDeviceType::ZR => Some(0x00B0),
            McDeviceType::RD => Some(0x002C),
        }
    }
}

/// Each device belongs to exactly one of the addressing classes.
pub proof fn device_classes_partition(d: McDeviceType)
    ensures
        d.bit_spec() ==> !d.word_spec() && !d.dword_spec(),
        d.word_spec() ==> !d.dword_spec(),
        d.bit_spec() || d.word_spec() || d.dword_spec(),
{
}

/// No two devices share a 3E/4E device code.
pub proof fn device_codes_are_distinct(a: McDeviceType, b: McDeviceType)
    requires
        a.code_3e_spec() == b.code_3e_spec(),
    ensures
        a == b,
{
}

proof fn lemma_tried(d: McDeviceType)
    ensures
        0 <= d.try_step() < 38,
        McDeviceType::tried_spec(d.try_step()) == d,
        d.symbol_spec().len() == if d.try_step() < 3 {
            4nat
        } else if d.try_step() < 12 {
            3
        } else if d.try_step() < 27 {
            2
        } else {
            1
        },
{
}

proof fn lemma_found(upper: Seq<char>, i: int, d: McDeviceType)
    requires
        0 <= i <= d.try_step(),
        starts_with(upper, d.symbol_spec()),
    ensures
        McDeviceType::found_from(upper, i) matches Some(f) && f.try_step() <= d.try_step(),
    decreases 38 - i,
{
    lemma_tried(d);
    if !starts_with(upper, McDeviceType::tried_spec(i).symbol_spec()) {
        lemma_found(upper, i + 1, d);
    } else {
        assert(McDeviceType::tried_spec(i).try_step() == i);
    }
}

proof fn lemma_found_symbol(upper: Seq<char>, i: int)
    requires
        0 <= i <= 38,
    ensures
        McDeviceType::found_from(upper, i) matches Some(d) ==> starts_with(upper, d.symbol_spec()),
    decreases 38 - i,
{
    if i < 38 && !starts_with(upper, McDeviceType::tried_spec(i).symbol_spec()) {
        lemma_found_symbol(upper, i + 1);
    }
}

/// The device that a text names is the one with the longest symbol at its
/// front, in any case: where a device is named its symbol stands there and no
/// longer one does, and where none is named no symbol stands there.
pub proof fn longest_symbol_wins(addr: Seq<char>)
    ensures
        ({
            let upper = upper_text(trimmed_start(addr));
            match McDeviceType::named_by(addr) {
                Some(f) => starts_with(upper, f.symbol_spec()) && forall|d: McDeviceType|
                    starts_with(upper, #[trigger] d.symbol_spec()) ==> d.symbol_spec().len()
                        <= f.symbol_spec().len(),
                None => forall|d: McDeviceType| !starts_with(upper, #[trigger] d.symbol_spec()),
            }
        }),
{
    let upper = upper_text(trimmed_start(addr));
    lemma_found_symbol(upper, 0);
    assert forall|d: McDeviceType| starts_with(upper, #[trigger] d.symbol_spec()) implies (
    McDeviceType::named_by(addr) matches Some(f) && d.symbol_spec().len()
        <= f.symbol_spec().len()) by {
        lemma_tried(d);
        lemma_found(upper, 0, d);
        lemma_tried(McDeviceType::named_by(addr)->0);
    }
}

proof fn lemma_ascii_cut(t: Seq<char>, n: int)
    requires
        is_ascii_chars(t),
        0 <= n <= t.len(),
    ensures
        is_char_boundary(encode_utf8(t), n),
        decode_utf8(encode_utf8(t).skip(n)) == t.skip(n),
{
    broadcast use vstd::utf8::is_ascii_chars_encode_utf8;

    vstd::utf8::encode_utf8_valid_utf8(t);
    let b = encode_utf8(t);
    if n < b.len() {
        vstd::utf8::is_char_boundary_iff_not_is_continuation_byte(b, n);
        assert(t[n] as u32 <= 127);
        assert(b[n] as u32 <= 127);
    } else {
        vstd::utf8::is_char_boundary_start_end_of_seq(b);
    }
    let u = t.skip(n);
    assert forall|i: int| 0 <= i < u.len() implies '\0' <= #[trigger] u[i] <= '\u{7f}' by {
        assert(u[i] == t[i + n]);
    }
    assert(is_ascii_chars(u));
    assert forall|i: int| 0 <= i < u.len() implies encode_utf8(u)[i] == b.skip(n)[i] by {
        assert(u[i] == t[i + n]);
        assert(encode_utf8(u)[i] == u[i] as u8);
        assert(b[i + n] == t[i + n] as u8);
    }
    assert(encode_utf8(u) =~= b.skip(n));
    encode_utf8_decode_utf8(u);
}

/// An ASCII text can always be cut behind the symbol of the named device, and
/// what follows is the rest of its characters.
pub proof fn ascii_text_can_be_cut(addr: Seq<char>)
    requires
        is_ascii_chars(trimmed_start(addr)),
    ensures
        McDeviceType::symbol_ends_at_char(addr),
        McDeviceType::named_by(addr) matches Some(d) ==> d.behind_symbol(addr) == trimmed_start(
            addr,
        ).skip(d.symbol_spec().len() as int),
{
    if let Some(d) = McDeviceType::named_by(addr) {
        lemma_found_symbol(upper_text(trimmed_start(addr)), 0);
        lemma_ascii_cut(trimmed_start(addr), d.symbol_spec().len() as int);
    }
}

proof fn lemma_symbols_apart(d: McDeviceType, e: McDeviceType)
    requires
        d != e,
    ensures
        d.symbol_spec() != e.symbol_spec(),
{
    if d.symbol_spec() == e.symbol_spec() {
        assert(d.symbol_spec().len() == e.symbol_spec().len());
        assert(d.symbol_spec()[0] == e.symbol_spec()[0]);
        if d.symbol_spec().len() > 1 {
            assert(d.symbol_spec()[1] == e.symbol_spec()[1]);
        }
        if d.symbol_spec().len() > 2 {
            assert(d.symbol_spec()[2] == e.symbol_spec()[2]);
        }
        if d.symbol_spec().len() > 3 {
            assert(d.symbol_spec()[3] == e.symbol_spec()[3]);
        }
    }
}

proof fn lemma_longer_symbol(d: McDeviceType, e: McDeviceType)
    requires
        starts_with(e.symbol_spec(), d.symbol_spec()),
        d.symbol_spec().len() < e.symbol_spec().len(),
    ensures
        ({
            let c = e.symbol_spec()[d.symbol_spec().len() as int];
            &&& !('0' <= c <= '9')
            &&& d.hex_spec() ==> !('A' <= c <= 'F')
        }),
{
    let s = d.symbol_spec();
    let t = e.symbol_spec();
    let n = s.len() as int;
    assert(t.take(n)[0] == t[0]);
    if n > 1 {
        assert(t.take(n)[1] == t[1]);
    }
    if n > 2 {
        assert(t.take(n)[2] == t[2]);
    }
}

proof fn lemma_first_found(upper: Seq<char>, i: int, d: McDeviceType)
    requires
        0 <= i <= d.try_step(),
        starts_with(upper, d.symbol_spec()),
        upper.len() > d.symbol_spec().len(),
        ({
            let c = upper[d.symbol_spec().len() as int];
            '0' <= c <= '9' || d.hex_spec() && 'A' <= c <= 'F'
        }),
    ensures
        McDeviceType::found_from(upper, i) == Some(d),
    decreases 38 - i,
{
    lemma_tried(d);
    let e = McDeviceType::tried_spec(i);
    if i < d.try_step() {
        assert(e.try_step() == i);
        lemma_tried(e);
        if starts_with(upper, e.symbol_spec()) {
            let n = d.symbol_spec().len() as int;
            let m = e.symbol_spec().len() as int;
            assert(e.symbol_spec().take(n) =~= upper.take(n)) by {
                assert(upper.take(m) == e.symbol_spec());
            }
            if m == n {
                assert(e.symbol_spec().take(n) =~= e.symbol_spec());
                lemma_symbols_apart(d, e);
            } else {
                lemma_longer_symbol(d, e);
                assert(upper.take(m)[n] == upper[n]);
            }
        }
        lemma_first_found(upper, i + 1, d);
    }
}

/// A text that starts with the symbol of a device and goes on with a digit of
/// its notation names that device.
pub proof fn symbol_before_a_digit_names_its_device(addr: Seq<char>, d: McDeviceType)
    requires
        ({
            let upper = upper_text(trimmed_start(addr));
            let n = d.symbol_spec().len() as int;
            &&& starts_with(upper, d.symbol_spec())
            &&& upper.len() > n
            &&& '0' <= upper[n] <= '9' || d.hex_spec() && 'A' <= upper[n] <= 'F'
        }),
    ensures
        McDeviceType::named_by(addr) == Some(d),
{
    lemma_tried(d);
    lemma_first_found(upper_text(trimmed_start(addr)), 0, d);
}

} // verus!
