//! What holds of every decoding, stated over the functions that say what a
//! buffer decodes to.

use vstd::prelude::*;
use crate::parser::error::{DecodeError, DecodeWarning};
use crate::parser::header::{header_fits, header_layout, HeaderView};
use crate::parser::lz4::{block_admissible, lz4_block_expansion};
use crate::parser::plugin_info::{
    lemma_w_strings_end_bounds,
    plugin_info_at,
    plugin_info_end,
    plugin_info_fits,
    plugin_section_at,
    plugin_section_end,
    plugin_section_fits,
    w_strings_end,
    w_strings_fit,
    w_strings_text,
};
use crate::parser::utils::{fits, w_string_end, w_string_fits};
use crate::parser::{
    decoded,
    decoded_header,
    magic,
    outcome,
    resolved_body,
    resolver_warnings,
    screenshot_len,
    SaveInfo,
    SaveInfoView,
    HEADER_OFFSET,
    MAGIC_LENGTH,
};

verus! {

/// The magic token alone decides whether a buffer is refused as not being a
/// save file. A buffer that begins with the token is never refused for its
/// format, whatever else is wrong with it. A buffer that begins with 13 other
/// bytes always is, whatever follows them. A buffer shorter than the token is
/// truncated.
pub proof fn lemma_magic_decides_format(buf: Seq<u8>)
    ensures
        buf.len() >= MAGIC_LENGTH && buf.subrange(0, MAGIC_LENGTH as int) == magic() ==> decoded(buf)
            != Err::<SaveInfoView, DecodeError>(DecodeError::Format),
        buf.len() >= MAGIC_LENGTH && buf.subrange(0, MAGIC_LENGTH as int) != magic() ==> decoded(buf)
            == Err::<SaveInfoView, DecodeError>(DecodeError::Format),
        buf.len() < MAGIC_LENGTH ==> decoded(buf) == Err::<SaveInfoView, DecodeError>(
            DecodeError::TruncatedInput,
        ),
{
}

/// Decoding the same bytes twice gives the same result, field for field.
pub proof fn lemma_decoding_is_repeatable(
    buf: Seq<u8>,
    first: Result<SaveInfo, DecodeError>,
    second: Result<SaveInfo, DecodeError>,
)
    requires
        outcome(first) == decoded(buf),
        outcome(second) == decoded(buf),
    ensures
        outcome(first) == outcome(second),
{
}

/// A plugin section that announces no plugin holds an empty list and ends
/// after 6 bytes: the form version, the announced size and the count.
pub proof fn lemma_no_plugins(body: Seq<u8>)
    requires
        body.len() >= 6,
        body[5] == 0,
    ensures
        plugin_section_fits(body),
        plugin_section_at(body).plugin_info.plugin_count == 0,
        plugin_section_at(body).plugin_info.plugins == Seq::<Seq<char>>::empty(),
        plugin_section_end(body) == 6,
{
}

/// A plugin list holds exactly as many names as its count byte says.
pub proof fn lemma_plugin_count(buf: Seq<u8>, start: int)
    ensures
        plugin_info_at(buf, start).plugins.len() == plugin_info_at(buf, start).plugin_count,
{
    lemma_w_strings_text_len(buf, start + 1, buf[start] as nat);
}

/// `count` length-prefixed texts are `count` texts.
pub proof fn lemma_w_strings_text_len(buf: Seq<u8>, at: int, count: nat)
    ensures
        w_strings_text(buf, at, count).len() == count,
    decreases count,
{
    if count > 0 {
        lemma_w_strings_text_len(buf, w_string_end(buf, at), (count - 1) as nat);
    }
}

/// A screenshot without width or without height is empty, and reading it is
/// no error: it fits wherever the buffer has not ended.
pub proof fn lemma_zero_dimension(buf: Seq<u8>, start: int, width: u32, height: u32)
    requires
        width == 0 || height == 0,
    ensures
        screenshot_len(width, height) == 0,
        fits(buf, start, screenshot_len(width, height)) <==> 0 <= start <= buf.len(),
        0 <= start <= buf.len() ==> buf.subrange(start, start + screenshot_len(width, height))
            == Seq::<u8>::empty(),
{
    assert(screenshot_len(width, height) == 0) by (nonlinear_arith)
        requires
            width == 0 || height == 0,
    ;
}

/// The screenshot of a decoded save takes four bytes for each pixel that the
/// header announces.
pub proof fn lemma_screenshot_size(buf: Seq<u8>)
    requires
        decoded(buf) is Ok,
    ensures
        decoded(buf)->Ok_0.screenshot_data.len() == screenshot_len(
            decoded(buf)->Ok_0.header.screenshot_width,
            decoded(buf)->Ok_0.header.screenshot_height,
        ),
{
    assert(screenshot_len(
        decoded(buf)->Ok_0.header.screenshot_width,
        decoded(buf)->Ok_0.header.screenshot_height,
    ) >= 0) by (nonlinear_arith);
}

/// A body that is stored as it is resolves to the file's bytes from the
/// body's offset to the end, unchanged, and nothing is noted.
pub proof fn lemma_stored_body(buf: Seq<u8>, cursor: int, size: nat)
    requires
        0 <= cursor <= buf.len(),
    ensures
        resolved_body(buf, 0, cursor, size) == Ok::<Seq<u8>, DecodeError>(
            buf.subrange(cursor, buf.len() as int),
        ),
        resolver_warnings(0) == Seq::<DecodeWarning>::empty(),
{
}

/// A body of unknown compression resolves as a stored body does, and the tag
/// is noted.
pub proof fn lemma_unknown_compression(buf: Seq<u8>, tag: u16, cursor: int, size: nat)
    requires
        tag > 2,
    ensures
        resolved_body(buf, tag, cursor, size) == resolved_body(buf, 0, cursor, size),
        resolver_warnings(tag) == seq![(DecodeWarning::UnknownCompression { tag })],
{
}

/// A body stored as an LZ4 block resolves to exactly as many bytes as were
/// declared: the decoder's expansion if it has that length, and a
/// decompression failure if the decoder fails or its expansion has another
/// length.
pub proof fn lemma_block_body(buf: Seq<u8>, cursor: int, size: nat)
    requires
        0 <= cursor <= buf.len(),
    ensures
        resolved_body(buf, 2, cursor, size) matches Ok(body) ==> body.len() == size,
        ({
            let block = buf.subrange(cursor, buf.len() as int);
            match lz4_block_expansion(block, size) {
                Some(bytes) => if block_admissible(block, size) && bytes.len() == size {
                    resolved_body(buf, 2, cursor, size) == Ok::<Seq<u8>, DecodeError>(bytes)
                } else {
                    resolved_body(buf, 2, cursor, size) == Err::<Seq<u8>, DecodeError>(
                        DecodeError::DecompressionFailure,
                    )
                },
                None => resolved_body(buf, 2, cursor, size) == Err::<Seq<u8>, DecodeError>(
                    DecodeError::DecompressionFailure,
                ),
            }
        }),
{
}

/// The cursor only moves forward: a header that fits ends behind its start,
/// by at least the 48 bytes that a header with four empty texts takes, and
/// inside the buffer. So does a plugin list, by at least its count byte.
pub proof fn lemma_cursor_moves_forward(buf: Seq<u8>, start: int)
    ensures
        w_string_fits(buf, start) ==> start + 2 <= w_string_end(buf, start) <= buf.len(),
        header_fits(buf, start) ==> start + 48 <= header_layout(buf, start).end <= buf.len(),
        plugin_info_fits(buf, start) ==> start + 1 <= plugin_info_end(buf, start) <= buf.len(),
{
    if plugin_info_fits(buf, start) {
        lemma_w_strings_end_bounds(buf, start + 1, buf[start] as nat);
    }
}

/// A length-prefixed text whose prefix announces more bytes than the buffer
/// holds does not fit.
pub proof fn lemma_text_cut_short(buf: Seq<u8>, at: int)
    requires
        fits(buf, at, 2),
        w_string_end(buf, at) > buf.len(),
    ensures
        !w_string_fits(buf, at),
{
}

/// A save file that ends inside one of the header's texts is truncated.
pub proof fn lemma_header_text_cut_short(buf: Seq<u8>, field: int)
    requires
        buf.len() >= MAGIC_LENGTH,
        buf.subrange(0, MAGIC_LENGTH as int) == magic(),
        ({
            let at = header_layout(buf, HEADER_OFFSET as int);
            field == at.player_name || field == at.player_location || field == at.game_date
                || field == at.player_race_editor_id
        }),
        !w_string_fits(buf, field),
    ensures
        !header_fits(buf, HEADER_OFFSET as int),
        decoded_header(buf) == Err::<HeaderView, DecodeError>(
            DecodeError::TruncatedInput,
        ),
        decoded(buf) == Err::<SaveInfoView, DecodeError>(DecodeError::TruncatedInput),
{
}

/// A plugin list that ends inside one of its file names does not fit. The
/// name that is cut short is the one after the first `before` names.
pub proof fn lemma_plugin_name_cut_short(buf: Seq<u8>, at: int, count: nat, before: nat)
    requires
        before < count,
        !w_string_fits(buf, w_strings_end(buf, at, before)),
    ensures
        !w_strings_fit(buf, at, count),
    decreases before,
{
    if before > 0 {
        lemma_plugin_name_cut_short(
            buf,
            w_string_end(buf, at),
            (count - 1) as nat,
            (before - 1) as nat,
        );
    }
}

} // verus!
