//! Byte buffers and little-endian integers: the part of the `bytes` and
//! `byteorder` crates that the protocol code is written against.

use byteorder::{ByteOrder, LittleEndian};
use bytes::{BufMut, Bytes, BytesMut};
use vstd::prelude::*;
use vstd::slice::slice_subrange;

verus! {

/// `bytes::Bytes`, an immutable shared byte buffer.
#[verifier::external_type_specification]
#[verifier::external_body]
pub struct ExBytes(Bytes);

/// `bytes::BytesMut`, a growable byte buffer.
#[verifier::external_type_specification]
#[verifier::external_body]
pub struct ExBytesMut(BytesMut);

/// The bytes that a `Bytes` holds.
pub uninterp spec fn bytes_content(b: Bytes) -> Seq<u8>;

/// The bytes that a `BytesMut` holds.
pub uninterp spec fn buf_content(b: BytesMut) -> Seq<u8>;

/// `Bytes::from(Vec<u8>)`: the buffer holds the bytes of the vector.
#[verifier::external_body]
pub(crate) fn bytes_from_vec(v: Vec<u8>) -> (r: Bytes)
    ensures
        bytes_content(r) == v@,
{
    Bytes::from(v)
}

/// `Bytes::as_ref`: a view of all bytes of the buffer.
#[verifier::external_body]
pub(crate) fn bytes_as_slice(b: &Bytes) -> (r: &[u8])
    ensures
        r@ == bytes_content(*b),
{
    b.as_ref()
}

/// `Bytes::slice` over a half-open range: the bytes of that range. A range
/// that is reversed or ends behind the buffer panics and is left out.
#[verifier::external_body]
pub(crate) fn bytes_slice(b: &Bytes, start: usize, end: usize) -> (r: Bytes)
    requires
        start <= end <= bytes_content(*b).len(),
    ensures
        bytes_content(r) == bytes_content(*b).subrange(start as int, end as int),
{
    b.slice(start..end)
}

/// `Bytes::clone`: a second handle on the same bytes.
pub assume_specification[ <Bytes as Clone>::clone ](b: &Bytes) -> (r: Bytes)
    ensures
        bytes_content(r) == bytes_content(*b),
;

/// `BytesMut::new`: a buffer without bytes.
#[verifier::external_body]
pub(crate) fn buf_new() -> (r: BytesMut)
    ensures
        buf_content(r) == Seq::<u8>::empty(),
{
    BytesMut::new()
}

/// `BytesMut::as_ref`: a view of all bytes of the buffer.
#[verifier::external_body]
pub(crate) fn buf_as_slice(b: &BytesMut) -> (r: &[u8])
    ensures
        r@ == buf_content(*b),
{
    b.as_ref()
}

/// `BufMut::put_u8`: appends one byte.
#[verifier::external_body]
pub(crate) fn buf_put_u8(b: &mut BytesMut, v: u8)
    ensures
        buf_content(*final(b)) == buf_content(*old(b)).push(v),
{
    b.put_u8(v)
}

/// `BufMut::put_u16_le`: appends the two bytes of the value, low byte first.
#[verifier::external_body]
pub(crate) fn buf_put_u16_le(b: &mut BytesMut, v: u16)
    ensures
        buf_content(*final(b)) == buf_content(*old(b)) + le_bytes(v as nat, 2),
{
    b.put_u16_le(v)
}

/// `BufMut::put_uint_le`: appends the low `n` bytes of the value, low byte
/// first. More than eight bytes panic and are left out.
#[verifier::external_body]
pub(crate) fn buf_put_uint_le(b: &mut BytesMut, v: u64, n: usize)
    requires
        n <= 8,
    ensures
        buf_content(*final(b)) == buf_content(*old(b)) + le_bytes(v as nat, n as nat),
{
    b.put_uint_le(v, n)
}

/// `BytesMut::extend_from_slice`: appends the bytes of the slice.
#[verifier::external_body]
pub(crate) fn buf_extend(b: &mut BytesMut, s: &[u8])
    ensures
        buf_content(*final(b)) == buf_content(*old(b)) + s@,
{
    b.extend_from_slice(s)
}

/// `BytesMut::split_to`: takes the first `at` bytes off the buffer. A split
/// point behind the end panics and is left out.
#[verifier::external_body]
pub(crate) fn buf_split_to(b: &mut BytesMut, at: usize) -> (r: BytesMut)
    requires
        at <= buf_content(*old(b)).len(),
    ensures
        buf_content(r) == buf_content(*old(b)).take(at as int),
        buf_content(*final(b)) == buf_content(*old(b)).skip(at as int),
{
    b.split_to(at)
}

/// `BytesMut::freeze`: the same bytes, no longer growable.
#[verifier::external_body]
pub(crate) fn buf_freeze(b: BytesMut) -> (r: Bytes)
    ensures
        bytes_content(r) == buf_content(b),
{
    b.freeze()
}

/// `BytesMut::resize`: cuts the buffer to `n` bytes, or fills it up to `n`
/// bytes with `v`. A length that no buffer can have panics and is left out.
#[verifier::external_body]
pub(crate) fn buf_resize(b: &mut BytesMut, n: usize, v: u8)
    requires
        n <= isize::MAX,
    ensures
        buf_content(*final(b)) == resized(buf_content(*old(b)), n as nat, v),
{
    b.resize(n, v)
}

/// `BytesMut::deref_mut` with a copy into a range of it: the bytes from `at`
/// on become those of the slice. A range that ends behind the buffer panics
/// and is left out.
#[verifier::external_body]
pub(crate) fn buf_overwrite(b: &mut BytesMut, at: usize, s: &[u8])
    requires
        at + s@.len() <= buf_content(*old(b)).len(),
    ensures
        buf_content(*final(b)) == overwritten(buf_content(*old(b)), at as int, s@),
{
    b[at..][..s.len()].copy_from_slice(s)
}

/// `s` cut to `n` bytes, or filled up to `n` bytes with `v`.
pub open spec fn resized(s: Seq<u8>, n: nat, v: u8) -> Seq<u8> {
    Seq::new(
        n,
        |i: int|
            if i < s.len() {
                s[i]
            } else {
                v
            },
    )
}

/// `s` with the bytes from `at` on replaced by `t`.
pub open spec fn overwritten(s: Seq<u8>, at: int, t: Seq<u8>) -> Seq<u8> {
    s.take(at) + t + s.skip(at + t.len())
}

/// The `n` low bytes of `v`, low byte first.
pub open spec fn le_bytes(v: nat, n: nat) -> Seq<u8>
    decreases n,
{
    if n == 0 {
        Seq::empty()
    } else {
        seq![(v % 256) as u8] + le_bytes(v / 256, (n - 1) as nat)
    }
}

/// The 16-bit number at `i`, low byte first.
pub open spec fn le16(s: Seq<u8>, i: int) -> u16 {
    (s[i] + 256 * s[i + 1]) as u16
}

/// The 24-bit number at `i`, low byte first.
pub open spec fn le24(s: Seq<u8>, i: int) -> u32 {
    (s[i] + 256 * s[i + 1] + 65536 * s[i + 2]) as u32
}

/// The 32-bit number at `i`, low byte first.
pub open spec fn le32(s: Seq<u8>, i: int) -> u32 {
    (s[i] + 256 * s[i + 1] + 65536 * s[i + 2] + 16777216 * s[i + 3]) as u32
}

pub broadcast proof fn lemma_le_bytes_len(v: nat, n: nat)
    ensures
        #[trigger] le_bytes(v, n).len() == n,
    decreases n,
{
    if n > 0 {
        lemma_le_bytes_len(v / 256, (n - 1) as nat);
    }
}

pub proof fn lemma_le2(v: nat)
    ensures
        le_bytes(v, 2) == seq![(v % 256) as u8, (v / 256 % 256) as u8],
{
    reveal_with_fuel(le_bytes, 3);
    assert(le_bytes(v, 2) =~= seq![(v % 256) as u8, (v / 256 % 256) as u8]);
}

pub proof fn lemma_le3(v: nat)
    ensures
        le_bytes(v, 3) == seq![(v % 256) as u8, (v / 256 % 256) as u8, (v / 65536 % 256) as u8],
{
    lemma_le2(v / 256);
    assert(v / 256 / 256 == v / 65536);
    assert(le_bytes(v, 3) =~= seq![(v % 256) as u8] + le_bytes(v / 256, 2));
    assert(le_bytes(v, 3) =~= seq![
        (v % 256) as u8,
        (v / 256 % 256) as u8,
        (v / 65536 % 256) as u8,
    ]);
}

pub proof fn lemma_le4(v: nat)
    ensures
        le_bytes(v, 4) == seq![
            (v % 256) as u8,
            (v / 256 % 256) as u8,
            (v / 65536 % 256) as u8,
            (v / 16777216 % 256) as u8,
        ],
{
    lemma_le3(v / 256);
    assert(v / 256 / 256 == v / 65536);
    assert(v / 256 / 65536 == v / 16777216);
    assert(le_bytes(v, 4) =~= seq![(v % 256) as u8] + le_bytes(v / 256, 3));
    assert(le_bytes(v, 4) =~= seq![
        (v % 256) as u8,
        (v / 256 % 256) as u8,
        (v / 65536 % 256) as u8,
        (v / 16777216 % 256) as u8,
    ]);
}

/// The 16-bit number at `i`, low byte first.
pub(crate) fn le16_at(b: &[u8], i: usize) -> (r: u16)
    requires
        i + 2 <= b@.len(),
    ensures
        r == le16(b@, i as int),
{
    b[i] as u16 + b[i + 1] as u16 * 256
}

/// The 32-bit number at `i`, low byte first.
pub(crate) fn le32_at(b: &[u8], i: usize) -> (r: u32)
    requires
        i + 4 <= b@.len(),
    ensures
        r == le32(b@, i as int),
{
    b[i] as u32 + b[i + 1] as u32 * 256 + b[i + 2] as u32 * 65536 + b[i + 3] as u32 * 16777216
}

/// The 64-bit number at `i`, low byte first.
pub open spec fn le64(s: Seq<u8>, i: int) -> u64 {
    (le32(s, i) + 0x1_0000_0000 * le32(s, i + 4)) as u64
}

/// The 64-bit number at `i`, low byte first.
pub(crate) fn le64_at(b: &[u8], i: usize) -> (r: u64)
    requires
        i + 8 <= b.len(),
    ensures
        r == le64(b@, i as int),
{
    le32_at(b, i) as u64 + le32_at(b, i + 4) as u64 * 0x1_0000_0000
}

/// The number that `v` stands for as two's complement in `bits` bits.
pub open spec fn signed(v: int, bits: nat) -> int {
    if v < half(bits) {
        v
    } else {
        v - 2 * half(bits)
    }
}

/// Half of the number of values that `bits` bits hold.
pub open spec fn half(bits: nat) -> int {
    if bits == 8 {
        0x80
    } else if bits == 16 {
        0x8000
    } else if bits == 32 {
        0x8000_0000
    } else {
        0x8000_0000_0000_0000
    }
}

/// The 64 bits that stand for `v` as two's complement.
pub open spec fn twos(v: int) -> nat {
    (v % 0x1_0000_0000_0000_0000) as nat
}

pub(crate) fn to_i8(v: u8) -> (r: i8)
    ensures
        r == signed(v as int, 8),
{
    if v < 0x80 {
        v as i8
    } else {
        (v as i16 - 0x100) as i8
    }
}

pub(crate) fn to_i16(v: u16) -> (r: i16)
    ensures
        r == signed(v as int, 16),
{
    if v < 0x8000 {
        v as i16
    } else {
        (v as i32 - 0x1_0000) as i16
    }
}

pub(crate) fn to_i32(v: u32) -> (r: i32)
    ensures
        r == signed(v as int, 32),
{
    if v < 0x8000_0000 {
        v as i32
    } else {
        (v as i64 - 0x1_0000_0000) as i32
    }
}

pub(crate) fn to_i64(v: u64) -> (r: i64)
    ensures
        r == signed(v as int, 64),
{
    if v < 0x8000_0000_0000_0000 {
        v as i64
    } else {
        (v as i128 - 0x1_0000_0000_0000_0000) as i64
    }
}

pub(crate) fn twos_of(v: i64) -> (r: u64)
    ensures
        r == twos(v as int),
{
    if v >= 0 {
        v as u64
    } else {
        (v as i128 + 0x1_0000_0000_0000_0000) as u64
    }
}

/// The `n` low bytes of `v`, low byte first.
pub(crate) fn le_vec(v: u64, n: usize) -> (r: Vec<u8>)
    ensures
        r@ == le_bytes(v as nat, n as nat),
{
    let mut out: Vec<u8> = Vec::new();
    let mut x: u64 = v;
    assert(Seq::<u8>::empty() + le_bytes(v as nat, n as nat) =~= le_bytes(v as nat, n as nat));
    for i in 0..n
        invariant
            out@ + le_bytes(x as nat, (n - i) as nat) == le_bytes(v as nat, n as nat),
    {
        let b: u8 = (x % 256) as u8;
        proof {
            let rest = le_bytes((x / 256) as nat, (n - i - 1) as nat);
            assert(out@ + (seq![b] + rest) =~= out@.push(b) + rest);
        }
        out.push(b);
        x = x / 256;
    }
    assert(out@ + Seq::<u8>::empty() =~= out@);
    out
}

proof fn lemma_le4_value(v: nat, p: Seq<u8>, at: int)
    requires
        0 <= at,
        at + 4 <= p.len(),
        p.subrange(at, at + 4) == le_bytes(v, 4),
    ensures
        le32(p, at) == v % 0x1_0000_0000,
{
    lemma_le4(v);
    let s = le_bytes(v, 4);
    let x1 = v / 256;
    let x2 = v / 65536;
    let x3 = v / 16777216;
    assert(p[at] == s[0] && p[at + 1] == s[1] && p[at + 2] == s[2] && p[at + 3] == s[3]) by {
        let t = p.subrange(at, at + 4);
        assert(t[0] == p[at] && t[1] == p[at + 1] && t[2] == p[at + 2] && t[3] == p[at + 3]);
    }
    assert(v % 256 + (x1 % 256) * 256 + (x2 % 256) * 65536 + (x3 % 256) * 16777216 == v
        % 0x1_0000_0000) by {
        assert(x1 / 256 == x2);
        assert(x2 / 256 == x3);
        assert(v == 256 * x1 + v % 256);
        assert(x1 == 256 * x2 + x1 % 256);
        assert(x2 == 256 * x3 + x2 % 256);
    }
}

proof fn lemma_le8_halves(v: nat)
    ensures
        le_bytes(v, 8) == le_bytes(v, 4) + le_bytes(v / 0x1_0000_0000, 4),
{
    let x1 = v / 256;
    let x2 = x1 / 256;
    let x3 = x2 / 256;
    let x4 = x3 / 256;
    assert(x4 == v / 0x1_0000_0000);
    let tail = le_bytes(x4, 4);
    assert(le_bytes(x3, 5) =~= seq![(x3 % 256) as u8] + tail);
    assert(le_bytes(x3, 1) =~= seq![(x3 % 256) as u8]) by {
        reveal_with_fuel(le_bytes, 2);
    }
    assert(le_bytes(x2, 6) =~= le_bytes(x2, 2) + tail);
    assert(le_bytes(x1, 7) =~= le_bytes(x1, 3) + tail);
    assert(le_bytes(v, 8) =~= le_bytes(v, 4) + tail);
}

/// The low bytes of a number, followed by anything, read as a number again.
pub proof fn lemma_le_read(v: nat, n: nat, rest: Seq<u8>)
    requires
        n == 1 || n == 2 || n == 4 || n == 8,
    ensures
        n == 1 ==> (le_bytes(v, n) + rest)[0] == v % 0x100,
        n == 2 ==> le16(le_bytes(v, n) + rest, 0) == v % 0x1_0000,
        n == 4 ==> le32(le_bytes(v, n) + rest, 0) == v % 0x1_0000_0000,
        n == 8 ==> le64(le_bytes(v, n) + rest, 0) == v % 0x1_0000_0000_0000_0000,
{
    let p = le_bytes(v, n) + rest;
    lemma_le_bytes_len(v, n);
    if n == 1 {
        assert(le_bytes(v, 1) =~= seq![(v % 256) as u8]) by {
            reveal_with_fuel(le_bytes, 2);
        }
    } else if n == 2 {
        lemma_le2(v);
    } else if n == 4 {
        assert(p.subrange(0, 4) =~= le_bytes(v, 4));
        lemma_le4_value(v, p, 0);
    } else {
        let w = v / 0x1_0000_0000;
        lemma_le8_halves(v);
        lemma_le_bytes_len(v, 4);
        lemma_le_bytes_len(w, 4);
        assert(p.subrange(0, 4) =~= le_bytes(v, 4));
        assert(p.subrange(4, 8) =~= le_bytes(w, 4));
        lemma_le4_value(v, p, 0);
        lemma_le4_value(w, p, 4);
    }
}

/// `LittleEndian::read_u16`: the first two bytes, low byte first. Fewer bytes
/// panic and are left out.
#[verifier::external_body]
fn read_le16(b: &[u8]) -> (r: u16)
    requires
        b@.len() >= 2,
    ensures
        r == le16(b@, 0),
{
    LittleEndian::read_u16(b)
}

/// `LittleEndian::read_u24`: the first three bytes, low byte first. Fewer
/// bytes panic and are left out.
#[verifier::external_body]
fn read_le24(b: &[u8]) -> (r: u32)
    requires
        b@.len() >= 3,
    ensures
        r == le24(b@, 0),
{
    LittleEndian::read_u24(b)
}

/// `LittleEndian::read_u32`: the first four bytes, low byte first. Fewer bytes
/// panic and are left out.
#[verifier::external_body]
fn read_le32(b: &[u8]) -> (r: u32)
    requires
        b@.len() >= 4,
    ensures
        r == le32(b@, 0),
{
    LittleEndian::read_u32(b)
}

/// A place in a run of bytes from which numbers are read one after the other.
pub struct Reader<'a> {
    pub data: &'a [u8],
    pub pos: usize,
}

impl<'a> Reader<'a> {
    /// The place lies within the bytes.
    pub open spec fn wf(self) -> bool {
        self.pos <= self.data@.len()
    }

    /// Number of bytes that are left.
    pub fn remaining(&self) -> (r: usize)
        requires
            self.wf(),
        ensures
            r == self.data@.len() - self.pos,
    {
        self.data.len() - self.pos
    }

    pub fn take_u8(&mut self) -> (r: u8)
        requires
            old(self).pos + 1 <= old(self).data@.len(),
        ensures
            final(self).data == old(self).data,
            final(self).pos == old(self).pos + 1,
            r == old(self).data@[old(self).pos as int],
    {
        let r: u8 = self.data[self.pos];
        self.pos = self.pos + 1;
        r
    }

    pub fn take_u16(&mut self) -> (r: u16)
        requires
            old(self).pos + 2 <= old(self).data@.len(),
        ensures
            final(self).data == old(self).data,
            final(self).pos == old(self).pos + 2,
            r == le16(old(self).data@, old(self).pos as int),
    {
        let r: u16 = read_le16(slice_subrange(self.data, self.pos, self.data.len()));
        self.pos = self.pos + 2;
        r
    }

    pub fn take_u24(&mut self) -> (r: u32)
        requires
            old(self).pos + 3 <= old(self).data@.len(),
        ensures
            final(self).data == old(self).data,
            final(self).pos == old(self).pos + 3,
            r == le24(old(self).data@, old(self).pos as int),
            r < 0x100_0000,
    {
        let r: u32 = read_le24(slice_subrange(self.data, self.pos, self.data.len()));
        self.pos = self.pos + 3;
        r
    }

    pub fn take_u32(&mut self) -> (r: u32)
        requires
            old(self).pos + 4 <= old(self).data@.len(),
        ensures
            final(self).data == old(self).data,
            final(self).pos == old(self).pos + 4,
            r == le32(old(self).data@, old(self).pos as int),
    {
        let r: u32 = read_le32(slice_subrange(self.data, self.pos, self.data.len()));
        self.pos = self.pos + 4;
        r
    }
}

/// The low bytes of a signed number, followed by anything, read as the number
/// again.
pub proof fn lemma_signed_read(v: int, n: nat, rest: Seq<u8>)
    requires
        n == 2 || n == 4,
        n == 2 ==> -0x8000 <= v < 0x8000,
        n == 4 ==> -0x8000_0000 <= v < 0x8000_0000,
    ensures
        n == 2 ==> signed(le16(le_bytes(twos(v), n) + rest, 0) as int, 16) == v,
        n == 4 ==> signed(le32(le_bytes(twos(v), n) + rest, 0) as int, 32) == v,
{
    lemma_le_read(twos(v), n, rest);
    let x = twos(v);
    if n == 2 {
        assert(x % 0x1_0000 == if v < 0 {
            v + 0x1_0000
        } else {
            v
        });
    } else {
        assert(x % 0x1_0000_0000 == if v < 0 {
            v + 0x1_0000_0000
        } else {
            v
        });
    }
}

} // verus!
