//! One decoded field of a save file, ready to be listed.

use vstd::prelude::*;
use vstd::slice::slice_to_vec;
use crate::parser::error::{DecodeError, DecodeWarning};
use crate::sktypes::types::{listing_string, listing_text};
use crate::text::{decimal_string, decimal_text};
use crate::parser::utils::{
    fits,
    le_u16,
    le_u32,
    lenient_text,
    read_bytes,
    read_charray,
    read_f32,
    read_u16,
    read_u32,
    read_u8,
    read_w_string,
    text_warnings,
    w_string_end,
    w_string_fits,
    w_string_text,
    w_string_warnings,
};

verus! {

/// The types that a field of the file format can have.
#[derive(Debug, Clone, Copy, PartialEq, Eq, Structural)]
pub enum SkType {
    Char13,
    UInt8,
    UInt16,
    UInt32,
    Float32,
    WString,
    Unknown,
}

/// What a field holds, once it is decoded.
#[derive(Debug)]
pub enum FieldValue {
    Text(String),
    Integer(u32),
    /// Bit pattern of a 32-bit IEEE 754 number.
    Float(u32),
    /// The bytes of a field of unknown type, as stored.
    Bytes(Vec<u8>),
}

/// A [`FieldValue`] as a mathematical value.
pub enum FieldValueView {
    Text(Seq<char>),
    Integer(u32),
    Float(u32),
    Bytes(Seq<u8>),
}

impl View for FieldValue {
    type V = FieldValueView;

    open spec fn view(&self) -> FieldValueView {
        match *self {
            FieldValue::Text(s) => FieldValueView::Text(s@),
            FieldValue::Integer(n) => FieldValueView::Integer(n),
            FieldValue::Float(bits) => FieldValueView::Float(bits),
            FieldValue::Bytes(bytes) => FieldValueView::Bytes(bytes@),
        }
    }
}

/// The text that shows a value: a text as it is, an integer in decimal
/// notation, bytes as their listing. The text of a floating-point number is
/// not made here.
pub open spec fn shown_text(value: FieldValueView) -> Option<Seq<char>> {
    match value {
        FieldValueView::Text(text) => Some(text),
        FieldValueView::Integer(n) => Some(decimal_text(n as nat)),
        FieldValueView::Float(_) => None,
        FieldValueView::Bytes(bytes) => Some(listing_text(bytes)),
    }
}

impl FieldValue {
    /// Gives the text that shows the value, for every value but a
    /// floating-point number.
    pub fn to_text(&self) -> (r: Option<String>)
        ensures
            match r {
                Some(text) => shown_text(self@) == Some(text@),
                None => shown_text(self@) is None,
            },
    {
        match self {
            FieldValue::Text(text) => Some(text.clone()),
            FieldValue::Integer(n) => Some(decimal_string(*n)),
            FieldValue::Float(_) => None,
            FieldValue::Bytes(bytes) => Some(listing_string(bytes.as_slice())),
        }
    }
}

/// The number of bytes that are taken of a field of unknown type.
pub const UNKNOWN_WIDTH: usize = 8;

/// The number of bytes of a text of fixed width.
pub const CHAR13_WIDTH: usize = 13;

/// The offset just past the field of type `sk_type` that starts at `start`.
pub open spec fn field_end(buf: Seq<u8>, start: int, sk_type: SkType) -> int {
    match sk_type {
        SkType::Char13 => start + CHAR13_WIDTH,
        SkType::UInt8 => start + 1,
        SkType::UInt16 => start + 2,
        SkType::UInt32 => start + 4,
        SkType::Float32 => start + 4,
        SkType::WString => w_string_end(buf, start),
        SkType::Unknown => start + UNKNOWN_WIDTH,
    }
}

/// Whether a field of type `sk_type` starting at `start` lies inside `buf`.
pub open spec fn field_fits(buf: Seq<u8>, start: int, sk_type: SkType) -> bool {
    match sk_type {
        SkType::WString => w_string_fits(buf, start),
        _ => fits(buf, start, field_end(buf, start, sk_type) - start),
    }
}

/// The value of the field of type `sk_type` that starts at `start`, where
/// [`field_fits`] holds.
pub open spec fn field_at(buf: Seq<u8>, start: int, sk_type: SkType) -> FieldValueView {
    match sk_type {
        SkType::Char13 => FieldValueView::Text(
            lenient_text(buf.subrange(start, start + CHAR13_WIDTH)),
        ),
        SkType::UInt8 => FieldValueView::Integer(buf[start] as u32),
        SkType::UInt16 => FieldValueView::Integer(le_u16(buf, start) as u32),
        SkType::UInt32 => FieldValueView::Integer(le_u32(buf, start)),
        SkType::Float32 => FieldValueView::Float(le_u32(buf, start)),
        SkType::WString => FieldValueView::Text(w_string_text(buf, start)),
        SkType::Unknown => FieldValueView::Bytes(buf.subrange(start, start + UNKNOWN_WIDTH)),
    }
}

/// What decoding the field of type `sk_type` at `start` adds to the log: the
/// anomaly of its text, if it is a text and not UTF-8.
pub open spec fn field_warnings(buf: Seq<u8>, start: int, sk_type: SkType) -> Seq<DecodeWarning> {
    match sk_type {
        SkType::Char13 => text_warnings(buf, start, start + CHAR13_WIDTH),
        SkType::WString => w_string_warnings(buf, start),
        _ => Seq::empty(),
    }
}

/// Decodes the field of type `sk_type` that starts at `start`, and gives it
/// back with the offset just past it.
pub fn read_field(buf: &[u8], start: usize, sk_type: SkType, log: &mut Vec<DecodeWarning>) -> (r:
    Result<(FieldValue, usize), DecodeError>)
    ensures
        match r {
            Ok((value, next)) => {
                &&& field_fits(buf@, start as int, sk_type)
                &&& value@ == field_at(buf@, start as int, sk_type)
                &&& next == field_end(buf@, start as int, sk_type)
                &&& final(log)@ == old(log)@ + field_warnings(buf@, start as int, sk_type)
            },
            Err(e) => {
                &&& !field_fits(buf@, start as int, sk_type)
                &&& e == DecodeError::TruncatedInput
                &&& final(log)@ == old(log)@
            },
        },
{
    match sk_type {
        SkType::Char13 => {
            let (text, next) = read_charray(buf, start, CHAR13_WIDTH, log)?;
            Ok((FieldValue::Text(text), next))
        },
        SkType::UInt8 => {
            let (v, next) = read_u8(buf, start)?;
            Ok((FieldValue::Integer(v as u32), next))
        },
        SkType::UInt16 => {
            let (v, next) = read_u16(buf, start)?;
            Ok((FieldValue::Integer(v as u32), next))
        },
        SkType::UInt32 => {
            let (v, next) = read_u32(buf, start)?;
            Ok((FieldValue::Integer(v), next))
        },
        SkType::Float32 => {
            let (bits, next) = read_f32(buf, start)?;
            Ok((FieldValue::Float(bits), next))
        },
        SkType::WString => {
            let (text, next) = read_w_string(buf, start, log)?;
            Ok((FieldValue::Text(text), next))
        },
        SkType::Unknown => {
            let (span, next) = read_bytes(buf, start, UNKNOWN_WIDTH)?;
            Ok((FieldValue::Bytes(slice_to_vec(span)), next))
        },
    }
}

/// A field of a save file: its name, its type, and its value as text.
pub struct InfoItem {
    name: String,
    sk_type: SkType,
    value: String,
}

impl InfoItem {
    /// The name of the field.
    pub closed spec fn name_text(&self) -> Seq<char> {
        self.name@
    }

    /// The type of the field.
    pub closed spec fn kind(&self) -> SkType {
        self.sk_type
    }

    /// The value of the field, as text.
    pub closed spec fn value_text(&self) -> Seq<char> {
        self.value@
    }

    /// Makes the field called `name`, of the given type and with the given
    /// value.
    pub fn new(name: &str, sk_type: SkType, value: String) -> (r: InfoItem)
        ensures
            r.name_text() == name@,
            r.kind() == sk_type,
            r.value_text() == value@,
    {
        InfoItem { name: name.to_owned(), sk_type, value }
    }

    /// Gives the name of the field.
    pub fn get_name(&self) -> (s: String)
        ensures
            s@ == self.name_text(),
    {
        self.name.clone()
    }

    /// Gives the type of the field.
    pub fn get_type(&self) -> (t: SkType)
        ensures
            t == self.kind(),
    {
        self.sk_type
    }

    /// Gives the value of the field, as text.
    pub fn get_value_string(&self) -> (s: String)
        ensures
            s@ == self.value_text(),
    {
        self.value.clone()
    }
}

} // verus!
