//! The save-file decoder: byte cursor, header, compression boundary, plugin
//! section, and the function that runs them in order.
//!
//! A save file is a magic token, the size of the header, the header, a
//! screenshot, two lengths, and the body. The body may be stored compressed;
//! once it is resolved into a flat buffer, every offset counts from the start
//! of that buffer, not of the file.

pub mod error;
pub mod guarantees;
pub mod header;
pub mod lz4;
pub mod plugin_info;
pub mod utils;

use vstd::prelude::*;
use vstd::slice::{slice_subrange, slice_to_vec};
use vstd::utf8::{
    encode_utf8,
    encode_utf8_decode_utf8,
    encode_utf8_valid_utf8,
    is_ascii_chars,
    is_ascii_chars_encode_utf8,
    valid_utf8,
};
use crate::parser::error::{DecodeError, DecodeWarning};
use crate::parser::header::{
    header_at,
    header_fits,
    header_layout,
    header_warnings,
    read_header,
    Header,
    HeaderView,
};
use crate::parser::lz4::{expand_block, expanded_block};
use crate::parser::plugin_info::{
    plugin_section_at,
    plugin_section_fits,
    plugin_section_warnings,
    read_plugin_section,
    PluginInfo,
    PluginInfoView,
    PluginSection,
};
use crate::parser::utils::{fits, le_u32, lenient_text, read_bytes, read_charray, read_u32};

verus! {

/// Everything that is decoded from a save file.
#[derive(Debug)]
pub struct SaveInfo {
    pub magic_string: String,
    /// The size that the file announces for its header. It is kept as read
    /// and bounds nothing.
    pub header_size: u32,
    pub header: Header,
    /// The screenshot's pixels, four bytes each, as stored.
    pub screenshot_data: Vec<u8>,
    pub uncompressed_length: u32,
    pub compressed_length: u32,
    pub form_version: u8,
    pub plugin_info_size: u32,
    pub plugin_info: PluginInfo,
    /// The anomalies that were absorbed on the way, in the order in which
    /// they were met.
    pub warnings: Vec<DecodeWarning>,
}

/// A [`SaveInfo`] as a mathematical value.
pub struct SaveInfoView {
    pub magic_string: Seq<char>,
    pub header_size: u32,
    pub header: HeaderView,
    pub screenshot_data: Seq<u8>,
    pub uncompressed_length: u32,
    pub compressed_length: u32,
    pub form_version: u8,
    pub plugin_info_size: u32,
    pub plugin_info: PluginInfoView,
    pub warnings: Seq<DecodeWarning>,
}

impl View for SaveInfo {
    type V = SaveInfoView;

    open spec fn view(&self) -> SaveInfoView {
        SaveInfoView {
            magic_string: self.magic_string@,
            header_size: self.header_size,
            header: self.header@,
            screenshot_data: self.screenshot_data@,
            uncompressed_length: self.uncompressed_length,
            compressed_length: self.compressed_length,
            form_version: self.form_version,
            plugin_info_size: self.plugin_info_size,
            plugin_info: self.plugin_info@,
            warnings: self.warnings@,
        }
    }
}

impl Clone for SaveInfo {
    fn clone(&self) -> (copy: SaveInfo)
        ensures
            copy@ == self@,
    {
        SaveInfo {
            magic_string: self.magic_string.clone(),
            header_size: self.header_size,
            header: self.header.clone(),
            screenshot_data: self.screenshot_data.clone(),
            uncompressed_length: self.uncompressed_length,
            compressed_length: self.compressed_length,
            form_version: self.form_version,
            plugin_info_size: self.plugin_info_size,
            plugin_info: self.plugin_info.clone(),
            warnings: self.warnings.clone(),
        }
    }
}

/// The length of the magic token.
pub const MAGIC_LENGTH: usize = 13;

/// The offset of the header: the magic token and the header's size come
/// before it.
pub const HEADER_OFFSET: usize = 17;

/// The bytes of the magic token, `TESV_SAVEGAME`.
pub open spec fn magic() -> Seq<u8> {
    seq![
        0x54u8, 0x45u8, 0x53u8, 0x56u8, 0x5Fu8, 0x53u8, 0x41u8, 0x56u8, 0x45u8, 0x47u8, 0x41u8,
        0x4Du8, 0x45u8,
    ]
}

/// The magic token as text.
pub open spec fn magic_text() -> Seq<char> {
    "TESV_SAVEGAME"@
}

/// The bytes of the magic token are UTF-8, and decode to the token's text.
pub proof fn lemma_magic_text()
    ensures
        valid_utf8(magic()),
        lenient_text(magic()) == magic_text(),
{
    reveal_strlit("TESV_SAVEGAME");
    let chars = magic_text();
    assert(is_ascii_chars(chars));
    is_ascii_chars_encode_utf8(chars);
    assert(encode_utf8(chars) =~= magic());
    encode_utf8_valid_utf8(chars);
    encode_utf8_decode_utf8(chars);
}

/// Tells whether `span` is the magic token.
pub fn is_magic(span: &[u8]) -> (b: bool)
    ensures
        b == (span@ == magic()),
{
    let b = span.len() == MAGIC_LENGTH && span[0] == 0x54 && span[1] == 0x45 && span[2] == 0x53
        && span[3] == 0x56 && span[4] == 0x5F && span[5] == 0x53 && span[6] == 0x41 && span[7]
        == 0x56 && span[8] == 0x45 && span[9] == 0x47 && span[10] == 0x41 && span[11] == 0x4D
        && span[12] == 0x45;
    proof {
        if b {
            assert(span@ =~= magic());
        } else if span@.len() == MAGIC_LENGTH {
            assert(magic()[0] == 0x54 && magic()[1] == 0x45 && magic()[2] == 0x53 && magic()[3]
                == 0x56 && magic()[4] == 0x5F && magic()[5] == 0x53 && magic()[6] == 0x41
                && magic()[7] == 0x56 && magic()[8] == 0x45 && magic()[9] == 0x47 && magic()[10]
                == 0x41 && magic()[11] == 0x4D && magic()[12] == 0x45);
        }
    }
    b
}

/// The size in bytes of a screenshot of the given dimensions: four bytes for
/// each pixel.
pub open spec fn screenshot_len(width: u32, height: u32) -> int {
    4 * (width as int) * (height as int)
}

/// Borrows the screenshot that starts at `start`.
///
/// Its size follows from the dimensions in the header. With a width or a
/// height of zero it is empty, which is no error. The size is compared with
/// what is left of the buffer before anything is taken, so dimensions that
/// announce more than the buffer holds are a
/// [`DecodeError::TruncatedInput`].
pub fn read_screenshot(buf: &[u8], start: usize, width: u32, height: u32) -> (r: Result<
    (&[u8], usize),
    DecodeError,
>)
    ensures
        match r {
            Ok((span, next)) => {
                &&& fits(buf@, start as int, screenshot_len(width, height))
                &&& span@ == buf@.subrange(start as int, start + screenshot_len(width, height))
                &&& next == start + screenshot_len(width, height)
            },
            Err(e) => !fits(buf@, start as int, screenshot_len(width, height)) && e
                == DecodeError::TruncatedInput,
        },
{
    if start > buf.len() {
        return Err(DecodeError::TruncatedInput);
    }
    let left: u64 = (buf.len() - start) as u64;
    assert((width as int) * (height as int) <= 0xFFFF_FFFF * 0xFFFF_FFFF) by (nonlinear_arith)
        requires
            0 <= width <= 0xFFFF_FFFF,
            0 <= height <= 0xFFFF_FFFF,
    ;
    let pixels: u64 = (width as u64) * (height as u64);
    assert(4 * pixels == screenshot_len(width, height)) by (nonlinear_arith)
        requires
            pixels == (width as int) * (height as int),
    ;
    if pixels > left / 4 {
        return Err(DecodeError::TruncatedInput);
    }
    let size: usize = (4 * pixels) as usize;
    read_bytes(buf, start, size)
}

/// What a compression tag adds to the log: nothing for the three tags that
/// the format defines, one [`DecodeWarning::UnknownCompression`] for any
/// other.
pub open spec fn resolver_warnings(compression_type: u16) -> Seq<DecodeWarning> {
    if compression_type > 2 {
        seq![(DecodeWarning::UnknownCompression { tag: compression_type })]
    } else {
        Seq::empty()
    }
}

/// The body of a save as a flat buffer, given the file, the tag that says how
/// the body is stored, the offset at which it starts, and the length it is
/// declared to have once expanded.
///
/// Tag 0 is a body stored as it is: the file from the offset to its end. Tag
/// 2 is a body stored as one LZ4 block, which must expand to exactly the
/// declared length. Tag 1 is the zlib scheme, which is not decoded. Any other
/// tag is taken as tag 0.
pub open spec fn resolved_body(buf: Seq<u8>, compression_type: u16, cursor: int, size: nat) -> Result<
    Seq<u8>,
    DecodeError,
> {
    if !(0 <= cursor <= buf.len()) {
        Err(DecodeError::TruncatedInput)
    } else if compression_type == 1 {
        Err(DecodeError::UnsupportedCompression)
    } else if compression_type == 2 {
        match expanded_block(buf.subrange(cursor, buf.len() as int), size) {
            Some(body) => Ok(body),
            None => Err(DecodeError::DecompressionFailure),
        }
    } else {
        Ok(buf.subrange(cursor, buf.len() as int))
    }
}

/// Resolves the body of a save into a flat buffer of its own, to be decoded
/// from offset 0.
///
/// A tag that the format does not define does not fail the decoding: the body
/// is taken as stored, and the tag is noted in `log`.
pub fn get_decompressed_buffer(
    buf: &[u8],
    compression_type: u16,
    cursor: usize,
    size: usize,
    log: &mut Vec<DecodeWarning>,
) -> (r: Result<Vec<u8>, DecodeError>)
    ensures
        match r {
            Ok(body) => {
                &&& resolved_body(buf@, compression_type, cursor as int, size as nat) == Ok::<
                    Seq<u8>,
                    DecodeError,
                >(body@)
                &&& final(log)@ == old(log)@ + resolver_warnings(compression_type)
            },
            Err(e) => {
                &&& resolved_body(buf@, compression_type, cursor as int, size as nat) == Err::<
                    Seq<u8>,
                    DecodeError,
                >(e)
                &&& final(log)@ == old(log)@
            },
        },
{
    if cursor > buf.len() {
        return Err(DecodeError::TruncatedInput);
    }
    let stored = slice_subrange(buf, cursor, buf.len());
    match compression_type {
        0 => Ok(slice_to_vec(stored)),
        1 => Err(DecodeError::UnsupportedCompression),
        2 => expand_block(stored, size),
        _ => {
            log.push(DecodeWarning::UnknownCompression { tag: compression_type });
            Ok(slice_to_vec(stored))
        },
    }
}

/// What stands before the screenshot: either the failure that ends the
/// decoding there, or nothing, where the magic token is the right one and
/// the header's size and the header fit in the buffer.
///
/// A buffer too short to hold the token is truncated; only a token that is
/// there and differs is a format error.
pub open spec fn preamble_error(buf: Seq<u8>) -> Option<DecodeError> {
    if !fits(buf, 0, MAGIC_LENGTH as int) {
        Some(DecodeError::TruncatedInput)
    } else if buf.subrange(0, MAGIC_LENGTH as int) != magic() {
        Some(DecodeError::Format)
    } else if !fits(buf, MAGIC_LENGTH as int, 4) || !header_fits(buf, HEADER_OFFSET as int) {
        Some(DecodeError::TruncatedInput)
    } else {
        None
    }
}

/// The header of the save file `buf`, or the failure that ends its decoding.
pub open spec fn decoded_header(buf: Seq<u8>) -> Result<HeaderView, DecodeError> {
    match preamble_error(buf) {
        Some(e) => Err(e),
        None => Ok(header_at(buf, HEADER_OFFSET as int)),
    }
}

/// The offset of the screenshot, which follows the header.
pub open spec fn screenshot_offset(buf: Seq<u8>) -> int {
    header_layout(buf, HEADER_OFFSET as int).end
}

/// The offset of the two lengths, which follow the screenshot.
pub open spec fn lengths_offset(buf: Seq<u8>) -> int {
    let header = header_at(buf, HEADER_OFFSET as int);
    screenshot_offset(buf) + screenshot_len(header.screenshot_width, header.screenshot_height)
}

/// The offset of the body, which follows the two lengths.
pub open spec fn body_offset(buf: Seq<u8>) -> int {
    lengths_offset(buf) + 8
}

/// The body of the save file `buf` as a flat buffer, where the file holds
/// everything up to the body.
pub open spec fn decoded_body(buf: Seq<u8>) -> Result<Seq<u8>, DecodeError> {
    resolved_body(
        buf,
        header_at(buf, HEADER_OFFSET as int).compression_type,
        body_offset(buf),
        le_u32(buf, lengths_offset(buf)) as nat,
    )
}

/// What decoding the save file `buf` gives: every field of the result, or the
/// failure that ends the decoding.
///
/// The file is read front to back, and the first part that does not fit
/// decides the failure. The plugin section is read from the resolved body,
/// from offset 0.
pub open spec fn decoded(buf: Seq<u8>) -> Result<SaveInfoView, DecodeError> {
    let header = header_at(buf, HEADER_OFFSET as int);
    if preamble_error(buf) is Some {
        Err(preamble_error(buf)->0)
    } else if !fits(
        buf,
        screenshot_offset(buf),
        screenshot_len(header.screenshot_width, header.screenshot_height),
    ) || !fits(buf, lengths_offset(buf), 8) {
        Err(DecodeError::TruncatedInput)
    } else {
        match decoded_body(buf) {
            Err(e) => Err(e),
            Ok(body) => if !plugin_section_fits(body) {
                Err(DecodeError::TruncatedInput)
            } else {
                Ok(
                    SaveInfoView {
                        magic_string: magic_text(),
                        header_size: le_u32(buf, MAGIC_LENGTH as int),
                        header,
                        screenshot_data: buf.subrange(screenshot_offset(buf), lengths_offset(buf)),
                        uncompressed_length: le_u32(buf, lengths_offset(buf)),
                        compressed_length: le_u32(buf, lengths_offset(buf) + 4),
                        form_version: plugin_section_at(body).form_version,
                        plugin_info_size: plugin_section_at(body).plugin_info_size,
                        plugin_info: plugin_section_at(body).plugin_info,
                        warnings: header_warnings(buf, HEADER_OFFSET as int) + resolver_warnings(
                            header.compression_type,
                        ) + plugin_section_warnings(body),
                    },
                )
            },
        }
    }
}

/// The result of a decoding as a mathematical value.
pub open spec fn outcome(r: Result<SaveInfo, DecodeError>) -> Result<SaveInfoView, DecodeError> {
    match r {
        Ok(info) => Ok(info@),
        Err(e) => Err(e),
    }
}

/// Decodes what stands before the screenshot: the magic token, the header's
/// size and the header. Gives them back with the offset of the screenshot.
///
/// The token is checked before anything else is read.
pub fn read_preamble(buf: &[u8], log: &mut Vec<DecodeWarning>) -> (r: Result<
    (String, u32, Header, usize),
    DecodeError,
>)
    ensures
        match r {
            Ok((magic_string, header_size, header, next)) => {
                &&& preamble_error(buf@) is None
                &&& magic_string@ == magic_text()
                &&& header_size == le_u32(buf@, MAGIC_LENGTH as int)
                &&& header@ == header_at(buf@, HEADER_OFFSET as int)
                &&& next == screenshot_offset(buf@)
                &&& final(log)@ == old(log)@ + header_warnings(buf@, HEADER_OFFSET as int)
            },
            Err(e) => preamble_error(buf@) == Some(e) && final(log)@ == old(log)@,
        },
{
    let mut noted: Vec<DecodeWarning> = Vec::new();
    let (magic_string, cursor) = read_charray(buf, 0, MAGIC_LENGTH, &mut noted)?;
    if !is_magic(slice_subrange(buf, 0, MAGIC_LENGTH)) {
        return Err(DecodeError::Format);
    }
    proof {
        lemma_magic_text();
    }
    let (header_size, cursor) = read_u32(buf, cursor)?;
    let (header, cursor) = read_header(buf, cursor, &mut noted)?;
    log.append(&mut noted);
    Ok((magic_string, header_size, header, cursor))
}

/// Decodes the header of a save file and nothing after it.
pub fn parse_header_only(buf: Vec<u8>, log: &mut Vec<DecodeWarning>) -> (r: Result<
    Header,
    DecodeError,
>)
    ensures
        match r {
            Ok(header) => {
                &&& decoded_header(buf@) == Ok::<HeaderView, DecodeError>(header@)
                &&& final(log)@ == old(log)@ + header_warnings(buf@, HEADER_OFFSET as int)
            },
            Err(e) => decoded_header(buf@) == Err::<HeaderView, DecodeError>(e) && final(log)@
                == old(log)@,
        },
{
    let (_, _, header, _) = read_preamble(buf.as_slice(), log)?;
    Ok(header)
}

/// Decodes a save file.
///
/// The steps, in order: the magic token, which must be `TESV_SAVEGAME`; the
/// header's size; the header; the screenshot, whose size follows from the
/// header; the two lengths; the body, resolved as the header's compression
/// tag says; and, from offset 0 of the resolved body, the plugin section.
///
/// A failure at any step ends the decoding, and nothing is returned but the
/// failure. What is merely odd is absorbed and listed in the result's
/// `warnings`.
pub fn parse(buf: Vec<u8>) -> (r: Result<SaveInfo, DecodeError>)
    ensures
        outcome(r) == decoded(buf@),
        r matches Ok(info) ==> info.plugin_info.consistent(),
{
    let buf = buf.as_slice();
    let mut warnings: Vec<DecodeWarning> = Vec::new();
    let (magic_string, header_size, header, cursor) = read_preamble(buf, &mut warnings)?;
    let (screenshot_data, cursor) = read_screenshot(
        buf,
        cursor,
        header.screenshot_width,
        header.screenshot_height,
    )?;
    let (uncompressed_length, cursor) = read_u32(buf, cursor)?;
    let (compressed_length, cursor) = read_u32(buf, cursor)?;

    let body = get_decompressed_buffer(
        buf,
        header.compression_type,
        cursor,
        uncompressed_length as usize,
        &mut warnings,
    )?;
    let (section, _) = read_plugin_section(body.as_slice(), &mut warnings)?;
    let PluginSection { form_version, plugin_info_size, plugin_info } = section;

    Ok(
        SaveInfo {
            magic_string,
            header_size,
            header,
            screenshot_data: slice_to_vec(screenshot_data),
            uncompressed_length,
            compressed_length,
            form_version,
            plugin_info_size,
            plugin_info,
            warnings,
        },
    )
}

} // verus!
