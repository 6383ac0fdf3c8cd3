//! Wire codec: fixed-width scalars in little-endian order, read through a
//! cursor over a received datagram and appended to an outgoing buffer.

use vstd::prelude::*;
use vstd::slice::slice_subrange;
use byteorder::{ByteOrder, LittleEndian, WriteBytesExt};
use crate::accd_error::ProtocolError;
use crate::accd_seq::views;

verus! {

/// The 16-bit value whose little-endian bytes are `b0`, `b1`.
pub open spec fn u16_from_le(b0: u8, b1: u8) -> u16 {
    (b0 as int + 256 * (b1 as int)) as u16
}

/// The 32-bit unsigned value whose little-endian bytes are `b0` .. `b3`.
pub open spec fn u32_from_le(b0: u8, b1: u8, b2: u8, b3: u8) -> u32 {
    (b0 as int + 256 * (b1 as int) + 65536 * (b2 as int) + 16777216 * (b3 as int)) as u32
}

/// The two's-complement reading of a 32-bit pattern.
pub open spec fn i32_from_bits(bits: u32) -> i32 {
    if bits < 0x8000_0000 {
        bits as i32
    } else {
        (bits as int - 0x1_0000_0000) as i32
    }
}

/// The 32-bit pattern that stands for `n` in two's complement.
pub open spec fn i32_to_bits(n: i32) -> u32 {
    if n >= 0 {
        n as u32
    } else {
        (n as int + 0x1_0000_0000) as u32
    }
}

/// The 32-bit signed value whose little-endian bytes are `b0` .. `b3`.
pub open spec fn i32_from_le(b0: u8, b1: u8, b2: u8, b3: u8) -> i32 {
    i32_from_bits(u32_from_le(b0, b1, b2, b3))
}

/// The little-endian bytes of a 16-bit value.
pub open spec fn u16_le_bytes(n: u16) -> Seq<u8> {
    seq![(n % 256) as u8, (n / 256) as u8]
}

/// The little-endian bytes of a 32-bit unsigned value.
pub open spec fn u32_le_bytes(n: u32) -> Seq<u8> {
    seq![
        (n % 256) as u8,
        (n / 256 % 256) as u8,
        (n / 65536 % 256) as u8,
        (n / 16777216) as u8,
    ]
}

/// The little-endian bytes of a 32-bit signed value.
pub open spec fn i32_le_bytes(n: i32) -> Seq<u8> {
    u32_le_bytes(i32_to_bits(n))
}

/// `byteorder::LittleEndian::read_u16` on a slice of at least two bytes:
/// the value of the first two, least significant first. The crate panics on
/// a shorter slice, which the precondition rules out.
#[verifier::external_body]
fn le_read_u16(buf: &[u8]) -> (v: u16)
    requires
        buf@.len() >= 2,
    ensures
        v == u16_from_le(buf@[0], buf@[1]),
{
    LittleEndian::read_u16(buf)
}

/// `byteorder::LittleEndian::read_u32` on a slice of at least four bytes:
/// the value of the first four, least significant first.
#[verifier::external_body]
fn le_read_u32(buf: &[u8]) -> (v: u32)
    requires
        buf@.len() >= 4,
    ensures
        v == u32_from_le(buf@[0], buf@[1], buf@[2], buf@[3]),
{
    LittleEndian::read_u32(buf)
}

/// `byteorder::LittleEndian::read_i32` on a slice of at least four bytes:
/// the first four, least significant first, read as two's complement.
#[verifier::external_body]
fn le_read_i32(buf: &[u8]) -> (v: i32)
    requires
        buf@.len() >= 4,
    ensures
        v == i32_from_le(buf@[0], buf@[1], buf@[2], buf@[3]),
{
    LittleEndian::read_i32(buf)
}

/// `byteorder::WriteBytesExt::write_u16` with `LittleEndian` on a `Vec<u8>`:
/// the two bytes of `n` are appended, least significant first. Writing to a
/// vector cannot fail.
#[verifier::external_body]
fn le_append_u16(buffer: &mut Vec<u8>, n: u16)
    ensures
        final(buffer)@ == old(buffer)@ + u16_le_bytes(n),
{
    buffer.write_u16::<LittleEndian>(n).unwrap();
}

/// `byteorder::WriteBytesExt::write_u32` with `LittleEndian` on a `Vec<u8>`:
/// the four bytes of `n` are appended, least significant first.
#[verifier::external_body]
fn le_append_u32(buffer: &mut Vec<u8>, n: u32)
    ensures
        final(buffer)@ == old(buffer)@ + u32_le_bytes(n),
{
    buffer.write_u32::<LittleEndian>(n).unwrap();
}

/// `byteorder::WriteBytesExt::write_i32` with `LittleEndian` on a `Vec<u8>`:
/// the four bytes of the two's-complement pattern of `n` are appended, least
/// significant first.
#[verifier::external_body]
fn le_append_i32(buffer: &mut Vec<u8>, n: i32)
    ensures
        final(buffer)@ == old(buffer)@ + i32_le_bytes(n),
{
    buffer.write_i32::<LittleEndian>(n).unwrap();
}

/// A 16-bit value is the one that its own two bytes spell.
pub proof fn lemma_u16_round_trip(n: u16)
    ensures
        u16_le_bytes(n).len() == 2,
        u16_from_le(u16_le_bytes(n)[0], u16_le_bytes(n)[1]) == n,
{
}

/// A 32-bit pattern is the one that its own four bytes spell.
pub proof fn lemma_u32_round_trip(n: u32)
    ensures
        u32_le_bytes(n).len() == 4,
        u32_from_le(
            u32_le_bytes(n)[0],
            u32_le_bytes(n)[1],
            u32_le_bytes(n)[2],
            u32_le_bytes(n)[3],
        ) == n,
{
}

/// A signed 32-bit value is the one that its own four bytes spell.
pub proof fn lemma_i32_round_trip(n: i32)
    ensures
        i32_le_bytes(n).len() == 4,
        i32_from_le(
            i32_le_bytes(n)[0],
            i32_le_bytes(n)[1],
            i32_le_bytes(n)[2],
            i32_le_bytes(n)[3],
        ) == n,
{
    lemma_u32_round_trip(i32_to_bits(n));
}

/// A single-precision number as it travels on the wire: its IEEE-754 bit
/// pattern, carried untouched.
#[derive(Clone, Copy, Debug, PartialEq, Eq, Structural)]
pub struct WireFloat {
    pub bits: u32,
}

impl View for WireFloat {
    type V = WireFloat;

    open spec fn view(&self) -> WireFloat {
        *self
    }
}

/// Whether `n` bytes lie in `s` from offset `at` on.
pub open spec fn has_bytes(s: Seq<u8>, at: int, n: int) -> bool {
    0 <= at && at + n <= s.len()
}

/// The 16-bit value spelled by the two bytes at `at`.
pub open spec fn u16_at(s: Seq<u8>, at: int) -> u16 {
    u16_from_le(s[at], s[at + 1])
}

/// The signed 32-bit value spelled by the four bytes at `at`.
pub open spec fn i32_at(s: Seq<u8>, at: int) -> i32 {
    i32_from_le(s[at], s[at + 1], s[at + 2], s[at + 3])
}

/// The single-precision bit pattern spelled by the four bytes at `at`.
pub open spec fn f32_at(s: Seq<u8>, at: int) -> WireFloat {
    WireFloat { bits: u32_from_le(s[at], s[at + 1], s[at + 2], s[at + 3]) }
}

/// The byte at `at` and the offset behind it.
pub open spec fn take_u8(s: Seq<u8>, at: int) -> Option<(u8, int)> {
    if has_bytes(s, at, 1) {
        Some((s[at], at + 1))
    } else {
        None
    }
}

/// The 16-bit value at `at` and the offset behind it.
pub open spec fn take_u16(s: Seq<u8>, at: int) -> Option<(u16, int)> {
    if has_bytes(s, at, 2) {
        Some((u16_at(s, at), at + 2))
    } else {
        None
    }
}

/// The signed 32-bit value at `at` and the offset behind it.
pub open spec fn take_i32(s: Seq<u8>, at: int) -> Option<(i32, int)> {
    if has_bytes(s, at, 4) {
        Some((i32_at(s, at), at + 4))
    } else {
        None
    }
}

/// The single-precision bit pattern at `at` and the offset behind it.
pub open spec fn take_f32(s: Seq<u8>, at: int) -> Option<(WireFloat, int)> {
    if has_bytes(s, at, 4) {
        Some((f32_at(s, at), at + 4))
    } else {
        None
    }
}

/// A read position in a received datagram.
#[derive(Clone, Copy, Debug)]
pub struct ByteCursor<'a> {
    pub data: &'a Vec<u8>,
    pub pos: usize,
}

/// What a read through a cursor owes its caller, given what the bytes hold
/// at the cursor (`want`): on a value, that value and the cursor behind it;
/// on nothing, `MalformedMessage` and the cursor where it was.
pub open spec fn reads<T: View>(
    before: ByteCursor,
    after: ByteCursor,
    got: Result<T, ProtocolError>,
    want: Option<(T::V, int)>,
) -> bool {
    &&& after.data == before.data
    &&& match want {
        Some((value, next)) => got matches Ok(v) && v@ == value && after.pos == next,
        None => got == Err::<T, ProtocolError>(ProtocolError::MalformedMessage) && after.pos
            == before.pos,
    }
}

/// What a read of a repeated group owes its caller: as [`reads`], with the
/// items taken by their values.
pub open spec fn reads_all<T: View>(
    before: ByteCursor,
    after: ByteCursor,
    got: Result<Vec<T>, ProtocolError>,
    want: Option<(Seq<T::V>, int)>,
) -> bool {
    &&& after.data == before.data
    &&& match want {
        Some((values, next)) => got matches Ok(v) && views(v@) == values && after.pos == next,
        None => got == Err::<Vec<T>, ProtocolError>(ProtocolError::MalformedMessage) && after.pos
            == before.pos,
    }
}

/// `n` items in a row from `at` on, each as `item` reads it, and the offset
/// behind the last; nothing if any of them is not there.
pub open spec fn take_many<V>(
    item: spec_fn(Seq<u8>, int) -> Option<(V, int)>,
    s: Seq<u8>,
    at: int,
    n: nat,
) -> Option<(Seq<V>, int)>
    decreases n,
{
    if n == 0 {
        Some((Seq::empty(), at))
    } else {
        match take_many(item, s, at, (n - 1) as nat) {
            Some((front, p)) => match item(s, p) {
                Some((x, q)) => Some((front.push(x), q)),
                None => None,
            },
            None => None,
        }
    }
}

/// Where fewer items cannot be read, more cannot either.
pub proof fn lemma_take_many_stays_none<V>(
    item: spec_fn(Seq<u8>, int) -> Option<(V, int)>,
    s: Seq<u8>,
    at: int,
    k: nat,
    n: nat,
)
    requires
        k <= n,
        take_many(item, s, at, k) is None,
    ensures
        take_many(item, s, at, n) is None,
    decreases n,
{
    if k < n {
        lemma_take_many_stays_none(item, s, at, k, (n - 1) as nat);
    }
}

impl<'a> ByteCursor<'a> {
    /// A cursor at the first byte of `data`.
    pub fn new(data: &'a Vec<u8>) -> (cur: Self)
        ensures
            cur.data == data,
            cur.pos == 0,
    {
        ByteCursor { data, pos: 0 }
    }

    /// The bytes from the cursor to the end.
    pub open spec fn rest(&self) -> Seq<u8> {
        if self.pos <= self.data@.len() {
            self.data@.subrange(self.pos as int, self.data@.len() as int)
        } else {
            Seq::empty()
        }
    }

    /// How many bytes are left to read.
    pub fn remaining(&self) -> (n: usize)
        ensures
            n == self.rest().len(),
            n == if self.pos <= self.data@.len() { self.data@.len() - self.pos } else { 0 },
            self.data@.len() <= usize::MAX,
    {
        if self.pos <= self.data.len() {
            self.data.len() - self.pos
        } else {
            0
        }
    }

    /// Reads one byte.
    pub fn read_u8(&mut self) -> (r: Result<u8, ProtocolError>)
        ensures
            reads(*old(self), *final(self), r, take_u8(old(self).data@, old(self).pos as int)),
    {
        if self.remaining() < 1 {
            return Err(ProtocolError::MalformedMessage);
        }
        let v: u8 = self.data[self.pos];
        self.pos = self.pos + 1;
        Ok(v)
    }

    /// Reads a 16-bit unsigned value.
    pub fn read_u16(&mut self) -> (r: Result<u16, ProtocolError>)
        ensures
            reads(*old(self), *final(self), r, take_u16(old(self).data@, old(self).pos as int)),
    {
        if self.remaining() < 2 {
            return Err(ProtocolError::MalformedMessage);
        }
        let v: u16 = le_read_u16(slice_subrange(self.data.as_slice(), self.pos, self.pos + 2));
        self.pos = self.pos + 2;
        Ok(v)
    }

    /// Reads a 32-bit signed value.
    pub fn read_i32(&mut self) -> (r: Result<i32, ProtocolError>)
        ensures
            reads(*old(self), *final(self), r, take_i32(old(self).data@, old(self).pos as int)),
    {
        if self.remaining() < 4 {
            return Err(ProtocolError::MalformedMessage);
        }
        let v: i32 = le_read_i32(slice_subrange(self.data.as_slice(), self.pos, self.pos + 4));
        self.pos = self.pos + 4;
        Ok(v)
    }

    /// Reads a single-precision number, kept as its bit pattern.
    pub fn read_f32(&mut self) -> (r: Result<WireFloat, ProtocolError>)
        ensures
            reads(*old(self), *final(self), r, take_f32(old(self).data@, old(self).pos as int)),
    {
        if self.remaining() < 4 {
            return Err(ProtocolError::MalformedMessage);
        }
        let bits: u32 = le_read_u32(slice_subrange(self.data.as_slice(), self.pos, self.pos + 4));
        self.pos = self.pos + 4;
        Ok(WireFloat { bits })
    }
}

/// Appends one byte.
pub fn write_u8(buffer: &mut Vec<u8>, n: u8)
    ensures
        final(buffer)@ == old(buffer)@.push(n),
{
    buffer.push(n);
}

/// Appends a 16-bit unsigned value.
pub fn write_u16(buffer: &mut Vec<u8>, n: u16)
    ensures
        final(buffer)@ == old(buffer)@ + u16_le_bytes(n),
{
    le_append_u16(buffer, n);
}

/// Appends a 32-bit signed value.
pub fn write_i32(buffer: &mut Vec<u8>, n: i32)
    ensures
        final(buffer)@ == old(buffer)@ + i32_le_bytes(n),
{
    le_append_i32(buffer, n);
}

/// Appends a single-precision number given by its bit pattern.
pub fn write_f32(buffer: &mut Vec<u8>, x: WireFloat)
    ensures
        final(buffer)@ == old(buffer)@ + u32_le_bytes(x.bits),
{
    le_append_u32(buffer, x.bits);
}

} // verus!
