//! The byte cursor: bounds-checked reads of single fields from a buffer.
//!
//! Each read takes the buffer and the offset at which the field starts, and
//! gives back the field's value together with the offset just past it. A read
//! that would run past the end of the buffer fails with
//! [`DecodeError::TruncatedInput`] and reads nothing.

use vstd::prelude::*;
use vstd::slice::slice_subrange;
use vstd::utf8::{decode_utf8, encode_utf8, encode_utf8_decode_utf8, valid_utf8};
use crate::parser::error::{DecodeError, DecodeWarning};

verus! {

/// Whether `count` bytes starting at `start` lie inside `buf`.
pub open spec fn fits(buf: Seq<u8>, start: int, count: int) -> bool {
    0 <= start && 0 <= count && start + count <= buf.len()
}

/// The little-endian value of the two bytes at `at`.
pub open spec fn le_u16(buf: Seq<u8>, at: int) -> u16 {
    (buf[at] as int + 0x100 * (buf[at + 1] as int)) as u16
}

/// The little-endian value of the four bytes at `at`.
pub open spec fn le_u32(buf: Seq<u8>, at: int) -> u32 {
    (buf[at] as int + 0x100 * (buf[at + 1] as int) + 0x1_0000 * (buf[at + 2] as int) + 0x100_0000
        * (buf[at + 3] as int)) as u32
}

/// Reads one byte.
pub fn read_u8(buf: &[u8], start: usize) -> (r: Result<(u8, usize), DecodeError>)
    ensures
        match r {
            Ok((value, next)) => fits(buf@, start as int, 1) && value == buf@[start as int] && next
                == start + 1,
            Err(e) => !fits(buf@, start as int, 1) && e == DecodeError::TruncatedInput,
        },
{
    if start >= buf.len() {
        return Err(DecodeError::TruncatedInput);
    }
    Ok((buf[start], start + 1))
}

/// Reads a 16-bit little-endian integer.
pub fn read_u16(buf: &[u8], start: usize) -> (r: Result<(u16, usize), DecodeError>)
    ensures
        match r {
            Ok((value, next)) => fits(buf@, start as int, 2) && value == le_u16(buf@, start as int)
                && next == start + 2,
            Err(e) => !fits(buf@, start as int, 2) && e == DecodeError::TruncatedInput,
        },
{
    if start > buf.len() || buf.len() - start < 2 {
        return Err(DecodeError::TruncatedInput);
    }
    let b0: u16 = buf[start] as u16;
    let b1: u16 = buf[start + 1] as u16;
    Ok((b0 + 0x100 * b1, start + 2))
}

/// Reads a 32-bit little-endian integer.
pub fn read_u32(buf: &[u8], start: usize) -> (r: Result<(u32, usize), DecodeError>)
    ensures
        match r {
            Ok((value, next)) => fits(buf@, start as int, 4) && value == le_u32(buf@, start as int)
                && next == start + 4,
            Err(e) => !fits(buf@, start as int, 4) && e == DecodeError::TruncatedInput,
        },
{
    if start > buf.len() || buf.len() - start < 4 {
        return Err(DecodeError::TruncatedInput);
    }
    let b0: u32 = buf[start] as u32;
    let b1: u32 = buf[start + 1] as u32;
    let b2: u32 = buf[start + 2] as u32;
    let b3: u32 = buf[start + 3] as u32;
    Ok((b0 + 0x100 * b1 + 0x1_0000 * b2 + 0x100_0000 * b3, start + 4))
}

/// Reads a 32-bit little-endian IEEE 754 number and gives back its bit
/// pattern, which the caller turns into a number with `f32::from_bits`.
pub fn read_f32(buf: &[u8], start: usize) -> (r: Result<(u32, usize), DecodeError>)
    ensures
        match r {
            Ok((bits, next)) => fits(buf@, start as int, 4) && bits == le_u32(buf@, start as int)
                && next == start + 4,
            Err(e) => !fits(buf@, start as int, 4) && e == DecodeError::TruncatedInput,
        },
{
    read_u32(buf, start)
}

/// Borrows `bytes` bytes of the buffer, without copying them.
pub fn read_bytes(buf: &[u8], start: usize, bytes: usize) -> (r: Result<(&[u8], usize), DecodeError>)
    ensures
        match r {
            Ok((span, next)) => fits(buf@, start as int, bytes as int) && span@ == buf@.subrange(
                start as int,
                start + bytes,
            ) && next == start + bytes,
            Err(e) => !fits(buf@, start as int, bytes as int) && e == DecodeError::TruncatedInput,
        },
{
    if start > buf.len() || buf.len() - start < bytes {
        return Err(DecodeError::TruncatedInput);
    }
    let end: usize = start + bytes;
    Ok((slice_subrange(buf, start, end), end))
}

/// `core::str::Utf8Error`, which is passed on and never looked into.
#[verifier::external_type_specification]
#[verifier::external_body]
pub struct ExUtf8Error(core::str::Utf8Error);

/// `core::str::from_utf8` succeeds exactly on the byte strings that are
/// UTF-8, and the string slice it then returns is encoded by the very bytes
/// it was given.
pub assume_specification[ core::str::from_utf8 ](v: &[u8]) -> (r: Result<
    &str,
    core::str::Utf8Error,
>)
    ensures
        r is Ok <==> valid_utf8(v@),
        r matches Ok(s) ==> encode_utf8(s@) == v@,
;

/// The text that `bytes` stand for: their UTF-8 decoding, or the empty text
/// where they are not UTF-8.
pub open spec fn lenient_text(bytes: Seq<u8>) -> Seq<char> {
    if valid_utf8(bytes) {
        decode_utf8(bytes)
    } else {
        Seq::empty()
    }
}

/// What decoding the bytes `start..end` of `buf` as text adds to the log:
/// nothing if they are UTF-8, one [`DecodeWarning::InvalidText`] if not.
pub open spec fn text_warnings(buf: Seq<u8>, start: int, end: int) -> Seq<DecodeWarning> {
    if valid_utf8(buf.subrange(start, end)) {
        Seq::empty()
    } else {
        seq![(DecodeWarning::InvalidText { start: start as usize, end: end as usize })]
    }
}

/// Reads `length` bytes as UTF-8 text.
///
/// Bytes that are not UTF-8 do not stop the decoding: the text is then empty,
/// and the anomaly is appended to `log`.
pub fn read_charray(buf: &[u8], start: usize, length: usize, log: &mut Vec<DecodeWarning>) -> (r:
    Result<(String, usize), DecodeError>)
    ensures
        match r {
            Ok((text, next)) => {
                &&& fits(buf@, start as int, length as int)
                &&& text@ == lenient_text(buf@.subrange(start as int, start + length))
                &&& next == start + length
                &&& final(log)@ == old(log)@ + text_warnings(buf@, start as int, start + length)
            },
            Err(e) => {
                &&& !fits(buf@, start as int, length as int)
                &&& e == DecodeError::TruncatedInput
                &&& final(log)@ == old(log)@
            },
        },
{
    if start > buf.len() || buf.len() - start < length {
        return Err(DecodeError::TruncatedInput);
    }
    let end: usize = start + length;
    let chunk = slice_subrange(buf, start, end);
    match core::str::from_utf8(chunk) {
        Ok(s) => {
            proof {
                encode_utf8_decode_utf8(s@);
            }
            Ok((s.to_owned(), end))
        },
        Err(_) => {
            log.push(DecodeWarning::InvalidText { start, end });
            Ok((String::new(), end))
        },
    }
}

/// Reads a length-prefixed text: a 16-bit little-endian byte count, then that
/// many bytes of UTF-8, decoded as [`read_charray`] does.
pub fn read_w_string(buf: &[u8], start: usize, log: &mut Vec<DecodeWarning>) -> (r: Result<
    (String, usize),
    DecodeError,
>)
    ensures
        match r {
            Ok((text, next)) => {
                &&& w_string_fits(buf@, start as int)
                &&& text@ == w_string_text(buf@, start as int)
                &&& next == w_string_end(buf@, start as int)
                &&& final(log)@ == old(log)@ + w_string_warnings(buf@, start as int)
            },
            Err(e) => {
                &&& !w_string_fits(buf@, start as int)
                &&& e == DecodeError::TruncatedInput
                &&& final(log)@ == old(log)@
            },
        },
{
    let (length, body) = read_u16(buf, start)?;
    read_charray(buf, body, length as usize, log)
}

/// The offset just past the length-prefixed text that starts at `at`.
pub open spec fn w_string_end(buf: Seq<u8>, at: int) -> int {
    at + 2 + le_u16(buf, at)
}

/// Whether a length-prefixed text starting at `at` lies inside `buf`: its
/// prefix does, and so do the bytes that the prefix announces.
pub open spec fn w_string_fits(buf: Seq<u8>, at: int) -> bool {
    fits(buf, at, 2) && w_string_end(buf, at) <= buf.len()
}

/// The text of the length-prefixed field that starts at `at`.
pub open spec fn w_string_text(buf: Seq<u8>, at: int) -> Seq<char> {
    lenient_text(buf.subrange(at + 2, w_string_end(buf, at)))
}

/// What decoding the length-prefixed text at `at` adds to the log.
pub open spec fn w_string_warnings(buf: Seq<u8>, at: int) -> Seq<DecodeWarning> {
    text_warnings(buf, at + 2, w_string_end(buf, at))
}

} // verus!
