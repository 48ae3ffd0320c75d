//! Text handling on sequences of characters: trimming, upper case, numbers,
//! and putting messages together.

use vstd::prelude::*;
use vstd::string::*;
use vstd::utf8::is_ascii_chars;

verus! {

/// Whether a character is white space: the characters with the property
/// `White_Space` of Unicode.
pub open spec fn white_space(c: char) -> bool {
    let n = c as u32;
    ||| 0x09 <= n <= 0x0D
    ||| n == 0x20
    ||| n == 0x85
    ||| n == 0xA0
    ||| n == 0x1680
    ||| 0x2000 <= n <= 0x200A
    ||| n == 0x2028
    ||| n == 0x2029
    ||| n == 0x202F
    ||| n == 0x205F
    ||| n == 0x3000
}

/// The upper case of a text in the sense of `str::to_uppercase`.
pub uninterp spec fn uppercase(s: Seq<char>) -> Seq<char>;

/// The text of the error with which `u32::from_str_radix` refuses a text.
pub uninterp spec fn u32_error_text(s: Seq<char>, radix: u32) -> Seq<char>;

/// The text of the error with which `u8::from_str_radix` refuses a text.
pub uninterp spec fn u8_error_text(s: Seq<char>, radix: u32) -> Seq<char>;

/// `char::is_whitespace`: the character has the property `White_Space` of
/// Unicode.
#[verifier::external_body]
pub(crate) fn is_white(c: char) -> (r: bool)
    ensures
        r == white_space(c),
{
    c.is_whitespace()
}

/// `str::to_uppercase`. In a text of ASCII characters each letter becomes its
/// capital and all else stays.
#[verifier::external_body]
pub(crate) fn to_upper(s: &str) -> (r: String)
    ensures
        r@ == if is_ascii_chars(s@) {
            s@.map_values(|c: char| ascii_upper(c))
        } else {
            uppercase(s@)
        },
{
    s.to_uppercase()
}

/// `u32::from_str_radix`: an optional plus sign and then digits only, at
/// least one, of a number that 32 bits hold. A radix outside of 2 to 36
/// panics and is left out. What the error says is not stated, only that it
/// depends on text and radix alone.
#[verifier::external_body]
pub(crate) fn parse_u32(s: &str, radix: u32) -> (r: Result<u32, String>)
    requires
        2 <= radix <= 36,
    ensures
        match r {
            Ok(v) => number(s@, radix) == Some(v as nat),
            Err(e) => (number(s@, radix) is None || number(s@, radix)->0 > u32::MAX) && e@
                == u32_error_text(s@, radix),
        },
{
    u32::from_str_radix(s, radix).map_err(|e| e.to_string())
}

/// `u8::from_str_radix`, as `u32::from_str_radix` for a number that 8 bits
/// hold.
#[verifier::external_body]
pub(crate) fn parse_u8(s: &str, radix: u32) -> (r: Result<u8, String>)
    requires
        2 <= radix <= 36,
    ensures
        match r {
            Ok(v) => number(s@, radix) == Some(v as nat),
            Err(e) => (number(s@, radix) is None || number(s@, radix)->0 > u8::MAX) && e@
                == u8_error_text(s@, radix),
        },
{
    u8::from_str_radix(s, radix).map_err(|e| e.to_string())
}

/// Capital of an ASCII letter; any other character as it is.
pub open spec fn ascii_upper(c: char) -> char {
    if 'a' <= c <= 'z' {
        (c as u32 - 32) as char
    } else {
        c
    }
}

/// A text in upper case: the capitals of its letters where all is ASCII.
pub open spec fn upper_text(s: Seq<char>) -> Seq<char> {
    if is_ascii_chars(s) {
        s.map_values(|c: char| ascii_upper(c))
    } else {
        uppercase(s)
    }
}

/// Value of a digit: 0-9, then the letters of either case from 10 on. 36 for
/// any other character.
pub open spec fn digit_value(c: char) -> nat {
    if '0' <= c <= '9' {
        (c as u32 - '0' as u32) as nat
    } else if 'a' <= c <= 'z' {
        (c as u32 - 'a' as u32 + 10) as nat
    } else if 'A' <= c <= 'Z' {
        (c as u32 - 'A' as u32 + 10) as nat
    } else {
        36
    }
}

/// Value of a text of digits.
pub open spec fn digits_value(s: Seq<char>, radix: u32) -> nat
    decreases s.len(),
{
    if s.len() == 0 {
        0
    } else {
        digits_value(s.drop_last(), radix) * radix as nat + digit_value(s.last())
    }
}

/// The number that a text stands for: an optional plus sign, then at least
/// one digit and nothing but digits of the radix.
pub open spec fn number(s: Seq<char>, radix: u32) -> Option<nat> {
    let d = if s.len() > 0 && s[0] == '+' {
        s.skip(1)
    } else {
        s
    };
    if d.len() > 0 && forall|i: int| 0 <= i < d.len() ==> digit_value(#[trigger] d[i]) < radix {
        Some(digits_value(d, radix))
    } else {
        None
    }
}

/// `s` without the white space at its front.
pub open spec fn trimmed_start(s: Seq<char>) -> Seq<char>
    decreases s.len(),
{
    if s.len() > 0 && white_space(s[0]) {
        trimmed_start(s.skip(1))
    } else {
        s
    }
}

/// `s` without the white space at its end.
pub open spec fn trimmed_end(s: Seq<char>) -> Seq<char>
    decreases s.len(),
{
    if s.len() > 0 && white_space(s.last()) {
        trimmed_end(s.drop_last())
    } else {
        s
    }
}

/// `s` without the white space at both ends.
pub open spec fn trimmed(s: Seq<char>) -> Seq<char> {
    trimmed_end(trimmed_start(s))
}

proof fn lemma_trimmed_start(front: Seq<char>, s: Seq<char>)
    requires
        forall|i: int| 0 <= i < front.len() ==> white_space(#[trigger] front[i]),
        s.len() > 0 ==> !white_space(s[0]),
    ensures
        trimmed_start(front + s) == s,
    decreases front.len(),
{
    if front.len() == 0 {
        assert(front + s =~= s);
    } else {
        assert((front + s)[0] == front[0]);
        assert((front + s).skip(1) =~= front.skip(1) + s);
        lemma_trimmed_start(front.skip(1), s);
    }
}

proof fn lemma_trimmed_end(s: Seq<char>, back: Seq<char>)
    requires
        forall|i: int| 0 <= i < back.len() ==> white_space(#[trigger] back[i]),
        s.len() > 0 ==> !white_space(s.last()),
    ensures
        trimmed_end(s + back) == s,
    decreases back.len(),
{
    if back.len() == 0 {
        assert(s + back =~= s);
    } else {
        assert((s + back).last() == back[back.len() - 1]);
        assert((s + back).drop_last() =~= s + back.drop_last());
        lemma_trimmed_end(s, back.drop_last());
    }
}

/// White space around a text that neither starts nor ends with it is taken
/// off, and nothing else.
pub proof fn white_space_around_is_trimmed(front: Seq<char>, s: Seq<char>, back: Seq<char>)
    requires
        forall|i: int| 0 <= i < front.len() ==> white_space(#[trigger] front[i]),
        forall|i: int| 0 <= i < back.len() ==> white_space(#[trigger] back[i]),
        s.len() > 0,
        !white_space(s[0]),
        !white_space(s.last()),
    ensures
        trimmed(front + s + back) == s,
{
    assert(front + s + back =~= front + (s + back));
    lemma_trimmed_start(front, s + back);
    lemma_trimmed_end(s, back);
}

proof fn lemma_start_trimmed(s: Seq<char>)
    ensures
        trimmed_start(s).len() > 0 ==> !white_space(trimmed_start(s)[0]),
    decreases s.len(),
{
    if s.len() > 0 && white_space(s[0]) {
        lemma_start_trimmed(s.skip(1));
    }
}

proof fn lemma_end_trimmed(s: Seq<char>)
    ensures
        trimmed_end(s).len() > 0 ==> !white_space(trimmed_end(s).last()) && trimmed_end(s)[0]
            == s[0],
    decreases s.len(),
{
    if s.len() > 0 && white_space(s.last()) {
        lemma_end_trimmed(s.drop_last());
    }
}

/// A trimmed text stays as it is when it is trimmed again.
pub proof fn trimmed_text_stays(s: Seq<char>)
    ensures
        trimmed(trimmed(s)) == trimmed(s),
        trimmed_start(trimmed(s)) == trimmed(s),
{
    let t = trimmed(s);
    lemma_start_trimmed(s);
    lemma_end_trimmed(trimmed_start(s));
    if t.len() > 0 {
        white_space_around_is_trimmed(Seq::empty(), t, Seq::empty());
        assert(Seq::<char>::empty() + t + Seq::<char>::empty() =~= t);
    }
}

/// The characters of a text.
pub(crate) fn chars_of(s: &str) -> (r: Vec<char>)
    ensures
        r@ == s@,
{
    let n: usize = s.unicode_len();
    let mut out: Vec<char> = Vec::with_capacity(n);
    for c in it: s.chars()
        invariant
            it.seq() == s@,
            out@ == it.seq().take(it.index() as int),
    {
        out.push(c);
        assert(out@ =~= it.seq().take(it.index() + 1));
    }
    assert(s@.take(s@.len() as int) =~= s@);
    out
}

/// The text without the white space at its front.
pub(crate) fn trim_start(s: &str) -> (r: &str)
    ensures
        r@ == trimmed_start(s@),
{
    let v = chars_of(s);
    let mut from: usize = 0;
    assert(v@.skip(0) =~= v@);
    while from < v.len() && is_white(v[from])
        invariant
            from <= v@.len(),
            trimmed_start(v@.skip(from as int)) == trimmed_start(v@),
        decreases v@.len() - from,
    {
        proof {
            assert(v@.skip(from as int).skip(1) =~= v@.skip(from + 1));
        }
        from += 1;
    }
    let n: usize = v.len();
    assert(v@.subrange(from as int, n as int) =~= v@.skip(from as int));
    s.substring_char(from, n)
}

/// The text without the white space at both ends.
pub(crate) fn trim(s: &str) -> (r: &str)
    ensures
        r@ == trimmed(s@),
{
    let v = chars_of(s);
    let mut from: usize = 0;
    assert(v@.skip(0) =~= v@);
    while from < v.len() && is_white(v[from])
        invariant
            from <= v@.len(),
            trimmed_start(v@.skip(from as int)) == trimmed_start(v@),
        decreases v@.len() - from,
    {
        proof {
            assert(v@.skip(from as int).skip(1) =~= v@.skip(from + 1));
        }
        from += 1;
    }
    let ghost t = v@.skip(from as int);
    assert(t == trimmed_start(v@));
    let mut to: usize = v.len();
    assert(v@.subrange(from as int, to as int) =~= t);
    while to > from && is_white(v[to - 1])
        invariant
            from <= to <= v@.len(),
            trimmed_end(v@.subrange(from as int, to as int)) == trimmed_end(t),
        decreases to,
    {
        proof {
            let u = v@.subrange(from as int, to as int);
            assert(u.last() == v@[to - 1]);
            assert(u.drop_last() =~= v@.subrange(from as int, to - 1));
        }
        to -= 1;
    }
    s.substring_char(from, to)
}

/// `prefix` stands at the front of `s`.
pub open spec fn starts_with(s: Seq<char>, prefix: Seq<char>) -> bool {
    prefix.len() <= s.len() && s.take(prefix.len() as int) == prefix
}

/// Whether the characters of `prefix` stand at the front of `v`.
pub(crate) fn has_prefix(v: &Vec<char>, prefix: &Vec<char>) -> (r: bool)
    ensures
        r == starts_with(v@, prefix@),
{
    if prefix.len() > v.len() {
        return false;
    }
    for i in 0..prefix.len()
        invariant
            prefix@.len() <= v@.len(),
            v@.take(i as int) == prefix@.take(i as int),
    {
        if v[i] != prefix[i] {
            assert(v@.take(prefix@.len() as int)[i as int] != prefix@[i as int]);
            return false;
        }
        assert(v@.take(i + 1) =~= v@.take(i as int).push(v@[i as int]));
        assert(prefix@.take(i + 1) =~= prefix@.take(i as int).push(prefix@[i as int]));
    }
    assert(prefix@.take(prefix@.len() as int) =~= prefix@);
    true
}

/// Position of the first `c` in `s`, or the length of `s` where there is none.
pub open spec fn first_index(s: Seq<char>, c: char) -> int
    decreases s.len(),
{
    if s.len() == 0 || s[0] == c {
        0
    } else {
        1 + first_index(s.skip(1), c)
    }
}

/// The text before and behind the first `c`; `None` behind where there is no
/// `c`.
pub(crate) fn split_once(s: &str, c: char) -> (r: (&str, Option<&str>))
    ensures
        ({
            let i = first_index(s@, c);
            &&& r.0@ == s@.take(i)
            &&& match r.1 {
                Some(t) => i < s@.len() && t@ == s@.skip(i + 1),
                None => i == s@.len(),
            }
        }),
{
    let v = chars_of(s);
    let mut i: usize = 0;
    assert(v@.skip(0) =~= v@);
    while i < v.len() && v[i] != c
        invariant
            i <= v@.len(),
            first_index(v@, c) == i + first_index(v@.skip(i as int), c),
        decreases v@.len() - i,
    {
        proof {
            assert(v@.skip(i as int).skip(1) =~= v@.skip(i + 1));
        }
        i += 1;
    }
    let n: usize = v.len();
    if i < n {
        let before = s.substring_char(0, i);
        let behind = s.substring_char(i + 1, n);
        assert(before@ =~= s@.take(i as int));
        assert(behind@ =~= s@.skip(i + 1));
        (before, Some(behind))
    } else {
        assert(s@.take(i as int) =~= s@);
        (s, None)
    }
}

/// Texts end to end.
pub(crate) fn message(parts: &[&str]) -> (r: String)
    ensures
        r@ == parts_text(parts@, parts@.len() as int),
{
    let mut out: String = String::new();
    for i in 0..parts.len()
        invariant
            out@ == parts_text(parts@, i as int),
    {
        out.append(parts[i]);
    }
    out
}

/// The first `n` texts end to end.
pub open spec fn parts_text(parts: Seq<&str>, n: int) -> Seq<char>
    decreases n,
{
    if n <= 0 {
        Seq::empty()
    } else {
        parts_text(parts, n - 1) + parts[n - 1]@
    }
}

/// Three texts end to end.
pub(crate) fn text3(a: &str, b: &str, c: &str) -> (r: String)
    ensures
        r@ == a@ + b@ + c@,
{
    let r = message(&[a, b, c]);
    proof {
        reveal_with_fuel(parts_text, 4);
        assert(r@ =~= a@ + b@ + c@);
    }
    r
}

/// Five texts end to end.
pub(crate) fn text5(a: &str, b: &str, c: &str, d: &str, e: &str) -> (r: String)
    ensures
        r@ == a@ + b@ + c@ + d@ + e@,
{
    let r = message(&[a, b, c, d, e]);
    proof {
        reveal_with_fuel(parts_text, 6);
        assert(r@ =~= a@ + b@ + c@ + d@ + e@);
    }
    r
}

/// The character of a decimal digit.
pub open spec fn digit_char(d: nat) -> char {
    if d == 0 {
        '0'
    } else if d == 1 {
        '1'
    } else if d == 2 {
        '2'
    } else if d == 3 {
        '3'
    } else if d == 4 {
        '4'
    } else if d == 5 {
        '5'
    } else if d == 6 {
        '6'
    } else if d == 7 {
        '7'
    } else if d == 8 {
        '8'
    } else {
        '9'
    }
}

/// A number in decimal notation.
pub open spec fn decimal(n: nat) -> Seq<char>
    decreases n,
{
    if n < 10 {
        seq![digit_char(n)]
    } else {
        decimal(n / 10).push(digit_char(n % 10))
    }
}

fn digit(d: u64) -> (r: &'static str)
    requires
        d < 10,
    ensures
        r@ == seq![digit_char(d as nat)],
{
    proof {
        reveal_strlit("0");
        reveal_strlit("1");
        reveal_strlit("2");
        reveal_strlit("3");
        reveal_strlit("4");
        reveal_strlit("5");
        reveal_strlit("6");
        reveal_strlit("7");
        reveal_strlit("8");
        reveal_strlit("9");
    }
    let r = if d == 0 {
        "0"
    } else if d == 1 {
        "1"
    } else if d == 2 {
        "2"
    } else if d == 3 {
        "3"
    } else if d == 4 {
        "4"
    } else if d == 5 {
        "5"
    } else if d == 6 {
        "6"
    } else if d == 7 {
        "7"
    } else if d == 8 {
        "8"
    } else {
        "9"
    };
    assert(r@ =~= seq![digit_char(d as nat)]);
    r
}

/// A number in decimal notation.
pub(crate) fn decimal_text(n: u64) -> (r: String)
    ensures
        r@ == decimal(n as nat),
    decreases n,
{
    if n < 10 {
        digit(n).to_owned()
    } else {
        let mut s = decimal_text(n / 10);
        s.append(digit(n % 10));
        assert(s@ =~= decimal((n / 10) as nat).push(digit_char((n % 10) as nat)));
        s
    }
}

/// The character of a hexadecimal digit.
pub open spec fn hex_char(d: nat) -> char {
    if d == 0 {
        '0'
    } else if d == 1 {
        '1'
    } else if d == 2 {
        '2'
    } else if d == 3 {
        '3'
    } else if d == 4 {
        '4'
    } else if d == 5 {
        '5'
    } else if d == 6 {
        '6'
    } else if d == 7 {
        '7'
    } else if d == 8 {
        '8'
    } else if d == 9 {
        '9'
    } else if d == 10 {
        'A'
    } else if d == 11 {
        'B'
    } else if d == 12 {
        'C'
    } else if d == 13 {
        'D'
    } else if d == 14 {
        'E'
    } else {
        'F'
    }
}

fn hex_digit(d: u8) -> (r: &'static str)
    requires
        d < 16,
    ensures
        r@ == seq![hex_char(d as nat)],
{
    proof {
        reveal_strlit("0");
        reveal_strlit("1");
        reveal_strlit("2");
        reveal_strlit("3");
        reveal_strlit("4");
        reveal_strlit("5");
        reveal_strlit("6");
        reveal_strlit("7");
        reveal_strlit("8");
        reveal_strlit("9");
        reveal_strlit("A");
        reveal_strlit("B");
        reveal_strlit("C");
        reveal_strlit("D");
        reveal_strlit("E");
        reveal_strlit("F");
    }
    let r = if d == 0 {
        "0"
    } else if d == 1 {
        "1"
    } else if d == 2 {
        "2"
    } else if d == 3 {
        "3"
    } else if d == 4 {
        "4"
    } else if d == 5 {
        "5"
    } else if d == 6 {
        "6"
    } else if d == 7 {
        "7"
    } else if d == 8 {
        "8"
    } else if d == 9 {
        "9"
    } else if d == 10 {
        "A"
    } else if d == 11 {
        "B"
    } else if d == 12 {
        "C"
    } else if d == 13 {
        "D"
    } else if d == 14 {
        "E"
    } else {
        "F"
    };
    assert(r@ =~= seq![hex_char(d as nat)]);
    r
}

/// The character of a hexadecimal digit, a small letter from 10 on.
pub open spec fn small_hex_char(d: nat) -> char {
    if d == 10 {
        'a'
    } else if d == 11 {
        'b'
    } else if d == 12 {
        'c'
    } else if d == 13 {
        'd'
    } else if d == 14 {
        'e'
    } else if d == 15 {
        'f'
    } else {
        digit_char(d)
    }
}

fn small_hex_digit(d: u64) -> (r: &'static str)
    requires
        d < 16,
    ensures
        r@ == seq![small_hex_char(d as nat)],
{
    proof {
        reveal_strlit("a");
        reveal_strlit("b");
        reveal_strlit("c");
        reveal_strlit("d");
        reveal_strlit("e");
        reveal_strlit("f");
    }
    let r = if d < 10 {
        digit(d)
    } else if d == 10 {
        "a"
    } else if d == 11 {
        "b"
    } else if d == 12 {
        "c"
    } else if d == 13 {
        "d"
    } else if d == 14 {
        "e"
    } else {
        "f"
    };
    assert(r@ =~= seq![small_hex_char(d as nat)]);
    r
}

/// A number of 16 bits with four hexadecimal digits behind `0x`.
pub open spec fn hex16(n: u16) -> Seq<char> {
    seq![
        '0',
        'x',
        small_hex_char((n / 4096) as nat),
        small_hex_char((n / 256 % 16) as nat),
        small_hex_char((n / 16 % 16) as nat),
        small_hex_char((n % 16) as nat),
    ]
}

/// A number of 16 bits with four hexadecimal digits behind `0x`.
pub(crate) fn hex16_text(n: u16) -> (r: String)
    ensures
        r@ == hex16(n),
{
    let r = message(
        &[
            "0x",
            small_hex_digit((n / 4096) as u64),
            small_hex_digit((n / 256 % 16) as u64),
            small_hex_digit((n / 16 % 16) as u64),
            small_hex_digit((n % 16) as u64),
        ],
    );
    proof {
        reveal_strlit("0x");
        reveal_with_fuel(parts_text, 6);
        assert(r@ =~= hex16(n));
    }
    r
}

/// A byte in brackets, in hexadecimal notation behind a mark.
pub open spec fn bracketed(b: u8, mark: Seq<char>) -> Seq<char> {
    "["@ + mark + seq![hex_char((b / 16) as nat), hex_char((b % 16) as nat)] + "]"@
}

/// Bytes, each in brackets.
pub open spec fn all_bracketed(bytes: Seq<u8>, mark: Seq<char>) -> Seq<char>
    decreases bytes.len(),
{
    if bytes.len() == 0 {
        Seq::empty()
    } else {
        all_bracketed(bytes.drop_last(), mark) + bracketed(bytes.last(), mark)
    }
}

/// Bytes, each in brackets, in hexadecimal notation behind a mark.
pub(crate) fn bytes_text(bytes: &[u8], mark: &str) -> (r: String)
    ensures
        r@ == all_bracketed(bytes@, mark@),
{
    let mut out = "".to_owned();
    proof {
        reveal_strlit("");
        assert(out@ =~= Seq::empty());
    }
    for i in 0..bytes.len()
        invariant
            out@ == all_bracketed(bytes@.take(i as int), mark@),
    {
        let b: u8 = bytes[i];
        let ghost before = out@;
        assert(bytes@.take(i + 1).drop_last() =~= bytes@.take(i as int));
        out.append("[");
        out.append(mark);
        out.append(hex_digit(b / 16));
        out.append(hex_digit(b % 16));
        out.append("]");
        assert(out@ =~= before + bracketed(b, mark@));
    }
    assert(bytes@.take(bytes@.len() as int) =~= bytes@);
    out
}

} // verus!
