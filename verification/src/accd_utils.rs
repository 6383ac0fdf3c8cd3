//! Length-prefixed strings: a 16-bit byte count, then that many bytes of
//! UTF-8.

use vstd::prelude::*;
use vstd::slice::{slice_subrange, slice_to_vec};
use vstd::utf8::{decode_utf8, encode_utf8, valid_utf8};
use crate::accd_error::ProtocolError;
use crate::accd_seq::views;
use crate::accd_wire::{
    has_bytes,
    lemma_take_many_stays_none,
    reads,
    reads_all,
    take_many,
    lemma_u16_round_trip,
    take_u16,
    u16_le_bytes,
    write_u16,
    ByteCursor,
};

verus! {

/// The string at `at` and the offset behind it: a length prefix, then that
/// many bytes, which must be well-formed UTF-8.
pub open spec fn take_string(s: Seq<u8>, at: int) -> Option<(Seq<char>, int)> {
    match take_u16(s, at) {
        Some((n, p)) => {
            if has_bytes(s, p, n as int) && valid_utf8(s.subrange(p, p + n)) {
                Some((decode_utf8(s.subrange(p, p + n)), p + n))
            } else {
                None
            }
        },
        None => None,
    }
}

/// The most bytes that a string on the wire can take.
pub const MAX_STRING_BYTES: usize = 65535;

/// Whether a string can go on the wire: its UTF-8 form takes no more bytes
/// than a 16-bit length can say.
pub open spec fn string_fits(s: Seq<char>) -> bool {
    encode_utf8(s).len() <= MAX_STRING_BYTES
}

/// The bytes that stand for a string on the wire: the number of bytes of
/// its UTF-8 form, then those bytes.
pub open spec fn string_wire(s: Seq<char>) -> Seq<u8>
    recommends
        string_fits(s),
{
    u16_le_bytes(encode_utf8(s).len() as u16) + encode_utf8(s)
}

/// `String::from_utf8`: a string exactly when the bytes are well-formed
/// UTF-8, and then the characters that they encode.
#[verifier::external_body]
fn string_from_utf8(bytes: Vec<u8>) -> (r: Option<String>)
    ensures
        r is Some <==> valid_utf8(bytes@),
        r matches Some(s) ==> s@ == decode_utf8(bytes@),
{
    match String::from_utf8(bytes) {
        Ok(s) => Some(s),
        Err(_) => None,
    }
}

/// Decodes `bytes` as UTF-8.
pub fn string_from_bytes(bytes: Vec<u8>) -> (r: Result<String, ProtocolError>)
    ensures
        match r {
            Ok(s) => valid_utf8(bytes@) && s@ == decode_utf8(bytes@),
            Err(e) => !valid_utf8(bytes@) && e == ProtocolError::MalformedMessage,
        },
{
    match string_from_utf8(bytes) {
        Some(s) => Ok(s),
        None => Err(ProtocolError::MalformedMessage),
    }
}

/// Reads a length-prefixed string.
pub fn read_string(cur: &mut ByteCursor) -> (r: Result<String, ProtocolError>)
    ensures
        reads(*old(cur), *final(cur), r, take_string(old(cur).data@, old(cur).pos as int)),
{
    let mut c = *cur;
    let n: u16 = c.read_u16()?;
    let len: usize = n as usize;
    if c.remaining() < len {
        return Err(ProtocolError::MalformedMessage);
    }
    let raw = slice_to_vec(slice_subrange(c.data.as_slice(), c.pos, c.pos + len));
    let s = string_from_bytes(raw)?;
    c.pos = c.pos + len;
    *cur = c;
    Ok(s)
}

/// `n` length-prefixed strings in a row from `at` on.
pub open spec fn take_strings(s: Seq<u8>, at: int, n: nat) -> Option<(Seq<Seq<char>>, int)> {
    take_many(|s: Seq<u8>, p: int| take_string(s, p), s, at, n)
}

/// Reads `count` length-prefixed strings in a row.
pub fn read_strings(cur: &mut ByteCursor, count: u8) -> (r: Result<Vec<String>, ProtocolError>)
    ensures
        reads_all(
            *old(cur),
            *final(cur),
            r,
            take_strings(old(cur).data@, old(cur).pos as int, count as nat),
        ),
{
    let mut c = *cur;
    let ghost s = cur.data@;
    let ghost at = cur.pos as int;
    let mut strings: Vec<String> = Vec::new();
    let mut i: u8 = 0;
    assert(views(strings@) =~= Seq::empty());
    while i < count
        invariant
            c.data == cur.data,
            s == cur.data@,
            at == cur.pos,
            *cur == *old(cur),
            i <= count,
            take_strings(s, at, i as nat) == Some((views(strings@), c.pos as int)),
        decreases count - i,
    {
        let ghost before = views(strings@);
        match read_string(&mut c) {
            Ok(string) => {
                strings.push(string);
            },
            Err(e) => {
                proof {
                    lemma_take_many_stays_none(
                        |s: Seq<u8>, p: int| take_string(s, p),
                        s,
                        at,
                        (i + 1) as nat,
                        count as nat,
                    );
                }
                return Err(e);
            },
        }
        i = i + 1;
        assert(views(strings@) =~= before.push(strings@.last()@));
    }
    *cur = c;
    Ok(strings)
}

/// Appends a length-prefixed string. A string of more than 65535 bytes is
/// refused, and the buffer stays as it was.
pub fn write_string(buffer: &mut Vec<u8>, s: &String) -> (r: Result<(), ProtocolError>)
    ensures
        match r {
            Ok(_) => string_fits(s@) && final(buffer)@ == old(buffer)@ + string_wire(s@),
            Err(e) => !string_fits(s@) && e == ProtocolError::StringTooLong && final(buffer)@
                == old(buffer)@,
        },
{
    let bytes = s.as_str().as_bytes();
    if bytes.len() > MAX_STRING_BYTES {
        return Err(ProtocolError::StringTooLong);
    }
    write_u16(buffer, bytes.len() as u16);
    let mut raw = slice_to_vec(bytes);
    buffer.append(&mut raw);
    assert(buffer@ =~= old(buffer)@ + string_wire(s@));
    Ok(())
}

/// Writing a string of at most 65535 bytes and reading at the place where
/// it was written gives the string back, with the cursor just behind it,
/// whatever stands before and after.
pub proof fn lemma_string_round_trip(head: Seq<u8>, s: Seq<char>, tail: Seq<u8>)
    requires
        string_fits(s),
    ensures
        take_string(head + string_wire(s) + tail, head.len() as int) == Some(
            (s, (head.len() + 2 + encode_utf8(s).len()) as int),
        ),
{
    broadcast use vstd::utf8::encode_utf8_valid_utf8, vstd::utf8::encode_utf8_decode_utf8;

    let raw = encode_utf8(s);
    let n = raw.len() as u16;
    let all = head + string_wire(s) + tail;
    let at = head.len() as int;
    lemma_u16_round_trip(n);
    assert(all[at] == u16_le_bytes(n)[0]);
    assert(all[at + 1] == u16_le_bytes(n)[1]);
    assert(all.subrange(at + 2, at + 2 + n) =~= raw);
}

} // verus!
