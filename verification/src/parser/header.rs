//! The save header: who the player is, where and when the game was saved, and
//! how the rest of the file is stored.

use vstd::prelude::*;
use vstd::std_specs::convert::FromSpecImpl;
use crate::parser::error::{DecodeError, DecodeWarning};
use crate::parser::utils::{
    fits,
    le_u16,
    le_u32,
    read_f32,
    read_u16,
    read_u32,
    read_w_string,
    w_string_end,
    w_string_fits,
    w_string_text,
    w_string_warnings,
};

verus! {

/// The player character's sex.
#[derive(Debug, Clone, Copy, PartialEq, Eq, Structural)]
pub enum Sex {
    Male,
    Female,
    /// The file holds a tag other than 0 or 1.
    Undefined,
}

/// The sex that a 16-bit tag stands for.
pub open spec fn sex_of_tag(tag: u16) -> Sex {
    if tag == 0 {
        Sex::Male
    } else if tag == 1 {
        Sex::Female
    } else {
        Sex::Undefined
    }
}

impl From<u16> for Sex {
    fn from(sex_bit: u16) -> (sex: Sex) {
        match sex_bit {
            0 => Sex::Male,
            1 => Sex::Female,
            _ => Sex::Undefined,
        }
    }
}

impl FromSpecImpl<u16> for Sex {
    open spec fn obeys_from_spec() -> bool {
        true
    }

    open spec fn from_spec(v: u16) -> Sex {
        sex_of_tag(v)
    }
}

/// A Windows `FILETIME`, kept as its two halves and not interpreted.
#[derive(Debug, Clone, Copy, PartialEq, Eq, Structural)]
pub struct FileTime {
    pub dw_low: u32,
    pub dw_high: u32,
}

/// The `FILETIME` stored at `at`.
pub open spec fn filetime_at(buf: Seq<u8>, at: int) -> FileTime {
    FileTime { dw_low: le_u32(buf, at), dw_high: le_u32(buf, at + 4) }
}

/// Reads a `FILETIME`: two 32-bit little-endian integers, low half first.
pub fn read_filetime(buf: &[u8], start: usize) -> (r: Result<(FileTime, usize), DecodeError>)
    ensures
        match r {
            Ok((ft, next)) => fits(buf@, start as int, 8) && ft == filetime_at(buf@, start as int)
                && next == start + 8,
            Err(e) => !fits(buf@, start as int, 8) && e == DecodeError::TruncatedInput,
        },
{
    let (dw_low, cursor) = read_u32(buf, start)?;
    let (dw_high, cursor) = read_u32(buf, cursor)?;
    Ok((FileTime { dw_low, dw_high }, cursor))
}

/// The header of a save file.
#[derive(Debug)]
pub struct Header {
    pub version: u32,
    pub save_number: u32,
    pub player_name: String,
    pub player_level: u32,
    pub player_location: String,
    pub game_date: String,
    pub player_race_editor_id: String,
    pub player_sex: Sex,
    /// Bit pattern of a 32-bit IEEE 754 number.
    pub player_current_xp: u32,
    /// Bit pattern of a 32-bit IEEE 754 number.
    pub player_level_up_xp: u32,
    pub filetime: FileTime,
    pub screenshot_width: u32,
    pub screenshot_height: u32,
    /// How everything after the two compression lengths is stored:
    /// 0 as it is, 1 with zlib, 2 as one LZ4 block.
    pub compression_type: u16,
}

impl Clone for Header {
    fn clone(&self) -> (copy: Header)
        ensures
            copy@ == self@,
    {
        Header {
            version: self.version,
            save_number: self.save_number,
            player_name: self.player_name.clone(),
            player_level: self.player_level,
            player_location: self.player_location.clone(),
            game_date: self.game_date.clone(),
            player_race_editor_id: self.player_race_editor_id.clone(),
            player_sex: self.player_sex,
            player_current_xp: self.player_current_xp,
            player_level_up_xp: self.player_level_up_xp,
            filetime: self.filetime,
            screenshot_width: self.screenshot_width,
            screenshot_height: self.screenshot_height,
            compression_type: self.compression_type,
        }
    }
}

/// A [`Header`] as a mathematical value.
pub struct HeaderView {
    pub version: u32,
    pub save_number: u32,
    pub player_name: Seq<char>,
    pub player_level: u32,
    pub player_location: Seq<char>,
    pub game_date: Seq<char>,
    pub player_race_editor_id: Seq<char>,
    pub player_sex: Sex,
    pub player_current_xp: u32,
    pub player_level_up_xp: u32,
    pub filetime: FileTime,
    pub screenshot_width: u32,
    pub screenshot_height: u32,
    pub compression_type: u16,
}

impl View for Header {
    type V = HeaderView;

    open spec fn view(&self) -> HeaderView {
        HeaderView {
            version: self.version,
            save_number: self.save_number,
            player_name: self.player_name@,
            player_level: self.player_level,
            player_location: self.player_location@,
            game_date: self.game_date@,
            player_race_editor_id: self.player_race_editor_id@,
            player_sex: self.player_sex,
            player_current_xp: self.player_current_xp,
            player_level_up_xp: self.player_level_up_xp,
            filetime: self.filetime,
            screenshot_width: self.screenshot_width,
            screenshot_height: self.screenshot_height,
            compression_type: self.compression_type,
        }
    }
}

/// Where the fields of a header lie whose position depends on the length of
/// the texts before them.
pub struct HeaderLayout {
    pub player_name: int,
    pub player_level: int,
    pub player_location: int,
    pub game_date: int,
    pub player_race_editor_id: int,
    /// The sex tag, first of the 28 bytes of fixed-size fields that close the
    /// header.
    pub player_sex: int,
    /// The offset just past the header.
    pub end: int,
}

/// The layout of the header that starts at `start`.
///
/// An offset is meaningful only if the texts before it fit in the buffer.
pub open spec fn header_layout(buf: Seq<u8>, start: int) -> HeaderLayout {
    let player_name = start + 8;
    let player_level = w_string_end(buf, player_name);
    let player_location = player_level + 4;
    let game_date = w_string_end(buf, player_location);
    let player_race_editor_id = w_string_end(buf, game_date);
    let player_sex = w_string_end(buf, player_race_editor_id);
    HeaderLayout {
        player_name,
        player_level,
        player_location,
        game_date,
        player_race_editor_id,
        player_sex,
        end: player_sex + 28,
    }
}

/// Whether a whole header starting at `start` lies inside `buf`.
pub open spec fn header_fits(buf: Seq<u8>, start: int) -> bool {
    let at = header_layout(buf, start);
    &&& 0 <= start
    &&& w_string_fits(buf, at.player_name)
    &&& w_string_fits(buf, at.player_location)
    &&& w_string_fits(buf, at.game_date)
    &&& w_string_fits(buf, at.player_race_editor_id)
    &&& at.end <= buf.len()
}

/// The header that starts at `start`, where [`header_fits`] holds.
pub open spec fn header_at(buf: Seq<u8>, start: int) -> HeaderView {
    let at = header_layout(buf, start);
    HeaderView {
        version: le_u32(buf, start),
        save_number: le_u32(buf, start + 4),
        player_name: w_string_text(buf, at.player_name),
        player_level: le_u32(buf, at.player_level),
        player_location: w_string_text(buf, at.player_location),
        game_date: w_string_text(buf, at.game_date),
        player_race_editor_id: w_string_text(buf, at.player_race_editor_id),
        player_sex: sex_of_tag(le_u16(buf, at.player_sex)),
        player_current_xp: le_u32(buf, at.player_sex + 2),
        player_level_up_xp: le_u32(buf, at.player_sex + 6),
        filetime: filetime_at(buf, at.player_sex + 10),
        screenshot_width: le_u32(buf, at.player_sex + 18),
        screenshot_height: le_u32(buf, at.player_sex + 22),
        compression_type: le_u16(buf, at.player_sex + 26),
    }
}

/// What decoding the header at `start` adds to the log: the anomalies of its
/// four texts, in the order of the fields.
pub open spec fn header_warnings(buf: Seq<u8>, start: int) -> Seq<DecodeWarning> {
    let at = header_layout(buf, start);
    w_string_warnings(buf, at.player_name) + w_string_warnings(buf, at.player_location)
        + w_string_warnings(buf, at.game_date) + w_string_warnings(buf, at.player_race_editor_id)
}

/// Decodes the header that starts at `start`.
///
/// The fields are read in the order in which the file stores them. A text
/// that is not UTF-8 is decoded as the empty string and noted in `log`; a sex
/// tag other than 0 or 1 gives [`Sex::Undefined`]. The only failure is a
/// header that does not fit in the buffer, and then `log` is left as it was.
pub fn read_header(buf: &[u8], start: usize, log: &mut Vec<DecodeWarning>) -> (r: Result<
    (Header, usize),
    DecodeError,
>)
    ensures
        match r {
            Ok((header, next)) => {
                &&& header_fits(buf@, start as int)
                &&& header@ == header_at(buf@, start as int)
                &&& next == header_layout(buf@, start as int).end
                &&& final(log)@ == old(log)@ + header_warnings(buf@, start as int)
            },
            Err(e) => {
                &&& !header_fits(buf@, start as int)
                &&& e == DecodeError::TruncatedInput
                &&& final(log)@ == old(log)@
            },
        },
{
    let mut noted: Vec<DecodeWarning> = Vec::new();
    let (version, cursor) = read_u32(buf, start)?;
    let (save_number, cursor) = read_u32(buf, cursor)?;
    let (player_name, cursor) = read_w_string(buf, cursor, &mut noted)?;
    let (player_level, cursor) = read_u32(buf, cursor)?;
    let (player_location, cursor) = read_w_string(buf, cursor, &mut noted)?;
    let (game_date, cursor) = read_w_string(buf, cursor, &mut noted)?;
    let (player_race_editor_id, cursor) = read_w_string(buf, cursor, &mut noted)?;
    let (player_sex_bit, cursor) = read_u16(buf, cursor)?;
    let (player_current_xp, cursor) = read_f32(buf, cursor)?;
    let (player_level_up_xp, cursor) = read_f32(buf, cursor)?;
    let (filetime, cursor) = read_filetime(buf, cursor)?;
    let (screenshot_width, cursor) = read_u32(buf, cursor)?;
    let (screenshot_height, cursor) = read_u32(buf, cursor)?;
    let (compression_type, cursor) = read_u16(buf, cursor)?;

    let header = Header {
        version,
        save_number,
        player_name,
        player_level,
        player_location,
        game_date,
        player_race_editor_id,
        player_sex: Sex::from(player_sex_bit),
        player_current_xp,
        player_level_up_xp,
        filetime,
        screenshot_width,
        screenshot_height,
        compression_type,
    };
    log.append(&mut noted);
    Ok((header, cursor))
}

} // verus!
