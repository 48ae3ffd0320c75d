//! Logical MC addresses.

use super::device::{
    ascii_text_can_be_cut, symbol_before_a_digit_names_its_device, McDeviceType, McNotation,
};
use crate::text::{
    ascii_upper, digit_value, digits_value, first_index, hex_char, message, number, parse_u32,
    parse_u8, parts_text, split_once, starts_with, trim, trimmed, trimmed_text_stays, u32_error_text,
    u8_error_text, upper_text, white_space, white_space_around_is_trimmed,
};
use vstd::prelude::*;
use vstd::string::*;
use vstd::utf8::is_ascii_chars;

verus! {

/// Parsed MC logical address (device + head + optional bit index).
#[derive(Debug, Clone, Copy, PartialEq, Eq, Structural)]
pub struct McLogicalAddress {
    /// Device type (e.g. X, Y, M, D, R, ...).
    pub device: McDeviceType,
    /// Head device number (already parsed according to device notation).
    pub head: u32,
    /// Optional bit index inside the word, for bit addressing like D20.2.
    pub bit: Option<u8>,
}

impl McLogicalAddress {
    /// Order of addresses in plans: by device, then by head number.
    pub open spec fn order_spec(self) -> int {
        self.device.rank_spec() as int * 0x1_0000_0000 + self.head as int
    }

    /// Order of addresses in plans: by device, then by head number.
    pub fn order(&self) -> (k: u64)
        ensures
            k == self.order_spec(),
    {
        self.device.rank() as u64 * 0x1_0000_0000 + self.head as u64
    }
}

/// The radix of a notation.
pub open spec fn radix_of(n: McNotation) -> u32 {
    match n {
        McNotation::Dec => 10,
        McNotation::Hex => 16,
    }
}

/// The address that a trimmed text with a known device stands for: the head
/// number in the notation of the device up to the first dot, and the decimal
/// bit index behind it.
pub open spec fn parsed_behind(t: Seq<char>, d: McDeviceType) -> Result<
    McLogicalAddress,
    Seq<char>,
> {
    let rest = d.behind_symbol(t);
    let dot = first_index(rest, '.');
    let num = trimmed(rest.take(dot));
    let radix = radix_of(d.notation_spec());
    if num.len() == 0 {
        Err("missing head device number in address: "@ + t)
    } else if number(num, radix) is None || number(num, radix)->0 > u32::MAX {
        Err(
            "invalid head number '"@ + num + "' in address '"@ + t + "': "@ + u32_error_text(
                num,
                radix,
            ),
        )
    } else if dot >= rest.len() {
        Ok(McLogicalAddress { device: d, head: number(num, radix)->0 as u32, bit: None })
    } else {
        let bit = trimmed(rest.skip(dot + 1));
        if bit.len() == 0 {
            Err("empty bit index in address: "@ + t)
        } else if number(bit, 10) is None || number(bit, 10)->0 > u8::MAX {
            Err(
                "invalid bit index '"@ + bit + "' in address '"@ + t + "': "@ + u8_error_text(
                    bit,
                    10,
                ),
            )
        } else {
            Ok(
                McLogicalAddress {
                    device: d,
                    head: number(num, radix)->0 as u32,
                    bit: Some(number(bit, 10)->0 as u8),
                },
            )
        }
    }
}

/// The address that a text stands for, or the text of the error.
pub open spec fn parsed(raw: Seq<char>) -> Result<McLogicalAddress, Seq<char>> {
    let t = trimmed(raw);
    if t.len() == 0 {
        Err("address is empty"@)
    } else {
        match McDeviceType::named_by(t) {
            None => Err("unknown MC device prefix in address: "@ + t),
            Some(d) => parsed_behind(t, d),
        }
    }
}

/// A parse result as mathematical data.
pub open spec fn outcome(r: Result<McLogicalAddress, String>) -> Result<
    McLogicalAddress,
    Seq<char>,
> {
    match r {
        Ok(a) => Ok(a),
        Err(e) => Err(e@),
    }
}

fn parse_behind(t: &str, device: McDeviceType, rest: &str) -> (r: Result<McLogicalAddress, String>)
    requires
        rest@ == device.behind_symbol(t@),
    ensures
        outcome(r) == parsed_behind(t@, device),
{
    let (num_text, bit_text) = split_once(rest, '.');
    let num = trim(num_text);
    if num.is_empty() {
        proof {
            reveal_with_fuel(parts_text, 3);
        }
        let e = message(&["missing head device number in address: ", t]);
        assert(e@ =~= "missing head device number in address: "@ + t@);
        return Err(e);
    }
    let radix: u32 = match device.notation() {
        McNotation::Dec => 10,
        McNotation::Hex => 16,
    };
    let head: u32 = match parse_u32(num, radix) {
        Ok(v) => v,
        Err(why) => {
            proof {
                reveal_with_fuel(parts_text, 7);
            }
            let e = message(
                &["invalid head number '", num, "' in address '", t, "': ", why.as_str()],
            );
            assert(e@ =~= "invalid head number '"@ + num@ + "' in address '"@ + t@ + "': "@
                + why@);
            return Err(e);
        },
    };
    let bit: Option<u8> = match bit_text {
        None => None,
        Some(b) => {
            let bit_str = trim(b);
            if bit_str.is_empty() {
                proof {
                    reveal_with_fuel(parts_text, 3);
                }
                let e = message(&["empty bit index in address: ", t]);
                assert(e@ =~= "empty bit index in address: "@ + t@);
                return Err(e);
            }
            match parse_u8(bit_str, 10) {
                Ok(v) => Some(v),
                Err(why) => {
                    proof {
                        reveal_with_fuel(parts_text, 7);
                    }
                    let e = message(
                        &["invalid bit index '", bit_str, "' in address '", t, "': ", why.as_str()],
                    );
                    assert(e@ =~= "invalid bit index '"@ + bit_str@ + "' in address '"@ + t@
                        + "': "@ + why@);
                    return Err(e);
                },
            }
        },
    };
    Ok(McLogicalAddress { device, head, bit })
}

impl McLogicalAddress {
    /// Parse a textual MC address such as "X10", "D20.2", "Y1A0".
    ///
    /// Only the syntax is checked. A text in which the symbol of the device
    /// ends inside of a character cannot be cut and is left out.
    pub fn parse(raw: &str) -> (r: Result<Self, String>)
        requires
            McDeviceType::symbol_ends_at_char(trimmed(raw@)),
        ensures
            outcome(r) == parsed(raw@),
    {
        let t = trim(raw);
        proof {
            trimmed_text_stays(raw@);
        }
        if t.is_empty() {
            return Err("address is empty".to_owned());
        }
        match McDeviceType::identify_by_prefix(t) {
            None => {
                proof {
                    reveal_with_fuel(parts_text, 3);
                }
                let e = message(&["unknown MC device prefix in address: ", t]);
                assert(e@ =~= "unknown MC device prefix in address: "@ + t@);
                Err(e)
            },
            Some((device, rest)) => parse_behind(t, device, rest),
        }
    }

    /// `parse` for any text: `None` where the symbol of the device would end
    /// inside of a character.
    pub fn try_parse(raw: &str) -> (r: Option<Result<Self, String>>)
        ensures
            match r {
                None => !McDeviceType::symbol_ends_at_char(trimmed(raw@)),
                Some(x) => McDeviceType::symbol_ends_at_char(trimmed(raw@)) && outcome(x) == parsed(
                    raw@,
                ),
            },
    {
        match McDeviceType::try_identify_by_prefix(trim(raw)) {
            None => None,
            Some(_) => Some(Self::parse(raw)),
        }
    }
}

/// The text is made of digits of a radix and stands for a number.
pub open spec fn is_numeral(s: Seq<char>, radix: u32, n: nat) -> bool {
    &&& s.len() > 0
    &&& forall|i: int| 0 <= i < s.len() ==> digit_value(#[trigger] s[i]) < radix
    &&& digits_value(s, radix) == n
}

/// An address in writing: the symbol of the device in either case, the head
/// number in the notation of the device with digits of either case, and behind
/// a dot the bit index in decimal notation, where there is one.
pub open spec fn is_address_text(s: Seq<char>, a: McLogicalAddress) -> bool {
    exists|symbol: Seq<char>, head: Seq<char>, bit: Seq<char>|
        #![trigger is_written(s, a, symbol, head, bit)]
        is_written(s, a, symbol, head, bit)
}

/// The text is an address in writing, made of these parts.
pub open spec fn is_written(
    s: Seq<char>,
    a: McLogicalAddress,
    symbol: Seq<char>,
    head: Seq<char>,
    bit: Seq<char>,
) -> bool {
    &&& symbol.map_values(|c: char| ascii_upper(c)) == a.device.symbol_spec()
    &&& is_numeral(head, radix_of(a.device.notation_spec()), a.head as nat)
    &&& match a.bit {
        Some(b) => is_numeral(bit, 10, b as nat) && s == symbol + head + seq!['.'] + bit,
        None => s == symbol + head,
    }
}

/// A number in a notation, with capital letters.
pub open spec fn numeral(n: nat, notation: McNotation) -> Seq<char>
    decreases n,
{
    match notation {
        McNotation::Dec => if n < 10 {
            seq![hex_char(n)]
        } else {
            numeral(n / 10, notation).push(hex_char(n % 10))
        },
        McNotation::Hex => if n < 16 {
            seq![hex_char(n)]
        } else {
            numeral(n / 16, notation).push(hex_char(n % 16))
        },
    }
}

/// The usual text of an address.
pub open spec fn address_text(a: McLogicalAddress) -> Seq<char> {
    let front = a.device.symbol_spec() + numeral(a.head as nat, a.device.notation_spec());
    match a.bit {
        Some(b) => front + seq!['.'] + numeral(b as nat, McNotation::Dec),
        None => front,
    }
}

proof fn lemma_no_dot(s: Seq<char>, rest: Seq<char>)
    requires
        forall|i: int| 0 <= i < s.len() ==> #[trigger] s[i] != '.',
        rest.len() > 0 ==> rest[0] == '.',
    ensures
        first_index(s + rest, '.') == s.len(),
    decreases s.len(),
{
    if s.len() == 0 {
        assert(s + rest =~= rest);
    } else {
        assert((s + rest)[0] == s[0]);
        assert((s + rest).skip(1) =~= s.skip(1) + rest);
        lemma_no_dot(s.skip(1), rest);
    }
}

proof fn lemma_numeral_chars(s: Seq<char>, radix: u32, n: nat)
    requires
        is_numeral(s, radix, n),
        radix <= 16,
    ensures
        forall|i: int|
            0 <= i < s.len() ==> (#[trigger] s[i]) != '.' && !white_space(s[i]) && s[i] != '+'
                && s[i] <= '\u{7f}',
        '0' <= ascii_upper(s[0]) <= '9' || radix > 10 && 'A' <= ascii_upper(s[0]) <= 'F',
        trimmed(s) == s,
        number(s, radix) == Some(n),
{
    assert forall|i: int| 0 <= i < s.len() implies (#[trigger] s[i]) != '.' && !white_space(s[i])
        && s[i] != '+' && s[i] <= '\u{7f}' by {
        assert(digit_value(s[i]) < radix);
    }
    assert(digit_value(s[0]) < radix);
    white_space_around_is_trimmed(Seq::empty(), s, Seq::empty());
    assert(Seq::<char>::empty() + s + Seq::<char>::empty() =~= s);
}

proof fn lemma_symbol_chars(symbol: Seq<char>, d: McDeviceType)
    requires
        symbol.map_values(|c: char| ascii_upper(c)) == d.symbol_spec(),
    ensures
        symbol.len() == d.symbol_spec().len(),
        symbol.len() > 0,
        forall|i: int|
            0 <= i < symbol.len() ==> !white_space(#[trigger] symbol[i]) && symbol[i]
                <= '\u{7f}',
{
    let m = symbol.map_values(|c: char| ascii_upper(c));
    assert(m.len() == symbol.len());
    assert forall|i: int| 0 <= i < symbol.len() implies !white_space(#[trigger] symbol[i])
        && symbol[i] <= '\u{7f}' by {
        assert(m[i] == ascii_upper(symbol[i]));
        assert('A' <= m[i] <= 'Z') by {
            assert(d.symbol_spec()[i] == m[i]);
            assert(i < 4);
            assert(i == 0 || i == 1 || i == 2 || i == 3);
        }
    }
}

proof fn lemma_written_names(
    s: Seq<char>,
    a: McLogicalAddress,
    symbol: Seq<char>,
    head: Seq<char>,
    bit: Seq<char>,
)
    requires
        is_written(s, a, symbol, head, bit),
    ensures
        is_ascii_chars(s),
        s.len() > 0,
        !white_space(s[0]),
        !white_space(s.last()),
        ({
            let n = a.device.symbol_spec().len() as int;
            let upper = upper_text(s);
            &&& starts_with(upper, a.device.symbol_spec())
            &&& upper.len() > n
            &&& '0' <= upper[n] <= '9' || a.device.hex_spec() && 'A' <= upper[n] <= 'F'
            &&& s.skip(n) == head + if a.bit is Some {
                seq!['.'] + bit
            } else {
                Seq::empty()
            }
        }),
{
    let d = a.device;
    let n = symbol.len() as int;
    lemma_symbol_chars(symbol, d);
    lemma_numeral_chars(head, radix_of(d.notation_spec()), a.head as nat);
    if a.bit is Some {
        lemma_numeral_chars(bit, 10, a.bit->0 as nat);
    }
    assert forall|i: int| 0 <= i < s.len() implies '\0' <= #[trigger] s[i] <= '\u{7f}' by {
        if i < n {
            assert(s[i] == symbol[i]);
        } else if i < n + head.len() {
            assert(s[i] == head[i - n]);
        } else if i == n + head.len() {
            assert(s[i] == '.');
        } else {
            assert(s[i] == bit[i - n - head.len() - 1]);
        }
    }
    assert(s[0] == symbol[0]);
    if a.bit is Some {
        assert(s.last() == bit[bit.len() - 1]);
        assert(s.skip(n) =~= head + (seq!['.'] + bit));
    } else {
        assert(s.last() == head[head.len() - 1]);
        assert(s.skip(n) =~= head + Seq::<char>::empty());
    }
    let upper = upper_text(s);
    assert(s[n] == head[0]);
    assert(upper[n] == ascii_upper(head[0]));
    let m = symbol.map_values(|c: char| ascii_upper(c));
    assert forall|i: int| 0 <= i < n implies upper.take(n)[i] == m[i] by {
        assert(s[i] == symbol[i]);
    }
    assert(upper.take(n) =~= m);
}

proof fn lemma_written_rest(
    s: Seq<char>,
    a: McLogicalAddress,
    symbol: Seq<char>,
    head: Seq<char>,
    bit: Seq<char>,
)
    requires
        is_written(s, a, symbol, head, bit),
        a.device.behind_symbol(s) == head + if a.bit is Some {
            seq!['.'] + bit
        } else {
            Seq::empty()
        },
    ensures
        parsed_behind(s, a.device) == Ok::<McLogicalAddress, Seq<char>>(a),
{
    let rest = a.device.behind_symbol(s);
    lemma_numeral_chars(head, radix_of(a.device.notation_spec()), a.head as nat);
    assert(rest.take(head.len() as int) =~= head);
    if a.bit is Some {
        lemma_numeral_chars(bit, 10, a.bit->0 as nat);
        lemma_no_dot(head, seq!['.'] + bit);
        assert(rest.skip(head.len() as int + 1) =~= bit);
    } else {
        lemma_no_dot(head, Seq::empty());
    }
}

/// An address that is written down is parsed back, whatever white space
/// surrounds it.
pub proof fn written_addresses_are_parsed(
    front: Seq<char>,
    s: Seq<char>,
    back: Seq<char>,
    a: McLogicalAddress,
)
    requires
        is_address_text(s, a),
        forall|i: int| 0 <= i < front.len() ==> white_space(#[trigger] front[i]),
        forall|i: int| 0 <= i < back.len() ==> white_space(#[trigger] back[i]),
    ensures
        McDeviceType::symbol_ends_at_char(trimmed(front + s + back)),
        parsed(front + s + back) == Ok::<McLogicalAddress, Seq<char>>(a),
{
    let (symbol, head, bit) = choose|symbol: Seq<char>, head: Seq<char>, bit: Seq<char>|
        #![trigger is_written(s, a, symbol, head, bit)]
        is_written(s, a, symbol, head, bit);
    let raw = front + s + back;
    lemma_written_names(s, a, symbol, head, bit);
    white_space_around_is_trimmed(front, s, back);
    trimmed_text_stays(raw);
    symbol_before_a_digit_names_its_device(s, a.device);
    ascii_text_can_be_cut(s);
    lemma_written_rest(s, a, symbol, head, bit);
}

proof fn lemma_numeral(n: nat, notation: McNotation)
    ensures
        is_numeral(numeral(n, notation), radix_of(notation), n),
    decreases n,
{
    let s = numeral(n, notation);
    let radix = radix_of(notation);
    let q = n / radix as nat;
    if n < radix {
        assert(s.drop_last() =~= Seq::empty());
        assert(digits_value(s.drop_last(), radix) == 0);
        assert(s.last() == hex_char(n));
    } else {
        lemma_numeral(q, notation);
        assert(s.drop_last() =~= numeral(q, notation));
        assert(s.last() == hex_char(n % radix as nat));
        assert forall|i: int| 0 <= i < s.len() implies digit_value(#[trigger] s[i]) < radix by {
            if i < s.len() - 1 {
                assert(s[i] == s.drop_last()[i]);
            }
        }
    }
}

pub proof fn lemma_symbol_is_upper(d: McDeviceType)
    ensures
        d.symbol_spec().map_values(|c: char| ascii_upper(c)) == d.symbol_spec(),
{
    let symbol = d.symbol_spec();
    let m = symbol.map_values(|c: char| ascii_upper(c));
    assert forall|i: int| 0 <= i < symbol.len() implies m[i] == symbol[i] by {
        assert(i == 0 || i == 1 || i == 2 || i == 3);
        assert('A' <= symbol[i] <= 'Z');
    }
    assert(m =~= symbol);
}

/// Every address has a text, and it is parsed back from it.
pub proof fn every_address_is_parsed_from_its_text(a: McLogicalAddress)
    ensures
        is_address_text(address_text(a), a),
        McDeviceType::symbol_ends_at_char(trimmed(address_text(a))),
        parsed(address_text(a)) == Ok::<McLogicalAddress, Seq<char>>(a),
{
    let symbol = a.device.symbol_spec();
    let head = numeral(a.head as nat, a.device.notation_spec());
    let bit = if a.bit is Some {
        numeral(a.bit->0 as nat, McNotation::Dec)
    } else {
        Seq::empty()
    };
    let s = address_text(a);
    lemma_numeral(a.head as nat, a.device.notation_spec());
    if a.bit is Some {
        lemma_numeral(a.bit->0 as nat, McNotation::Dec);
    }
    lemma_symbol_is_upper(a.device);
    assert(is_written(s, a, symbol, head, bit));
    written_addresses_are_parsed(Seq::empty(), s, Seq::empty(), a);
    assert(Seq::<char>::empty() + s + Seq::<char>::empty() =~= s);
}

/// Addresses compare equal in plan order exactly when device and head agree,
/// and a lower device rank comes first whatever the heads are.
pub proof fn address_order_is_lexicographic(a: McLogicalAddress, b: McLogicalAddress)
    ensures
        a.order_spec() == b.order_spec() <==> a.device == b.device && a.head == b.head,
        a.order_spec() < b.order_spec() <==> a.device.rank_spec() < b.device.rank_spec() || (
        a.device == b.device && a.head < b.head),
{
}

} // verus!
