//! The trait that every named value implements, and the smaller value types.

use vstd::prelude::*;
use vstd::string::StringExecFns;
use crate::text::{decimal_string, decimal_text};

verus! {

/// A named value that can be shown as text.
pub trait SkTypeReadable {
    /// The value, as it is shown.
    spec fn value_text(&self) -> Seq<char>;

    /// The name of the field.
    spec fn name_text(&self) -> Seq<char>;

    /// The name of the field's type in the file format.
    spec fn type_text(&self) -> Seq<char>;

    fn get_value_string(&self) -> (s: String)
        ensures
            s@ == self.value_text(),
    ;

    fn get_name(&self) -> (s: String)
        ensures
            s@ == self.name_text(),
    ;

    fn get_type(&self) -> (s: String)
        ensures
            s@ == self.type_text(),
    ;
}

/// A named 16-bit unsigned integer.
pub struct SkUint16 {
    name: String,
    value: u16,
}

impl SkUint16 {
    /// The integer that is held.
    pub closed spec fn value(&self) -> u16 {
        self.value
    }

    /// Makes the value called `name`.
    pub fn new(name: &str, value: u16) -> (r: SkUint16)
        ensures
            r.name_text() == name@,
            r.value() == value,
    {
        SkUint16 { name: name.to_owned(), value }
    }
}

impl SkTypeReadable for SkUint16 {
    open spec fn value_text(&self) -> Seq<char> {
        decimal_text(self.value() as nat)
    }

    closed spec fn name_text(&self) -> Seq<char> {
        self.name@
    }

    open spec fn type_text(&self) -> Seq<char> {
        "uint16"@
    }

    fn get_value_string(&self) -> (s: String) {
        decimal_string(self.value as u32)
    }

    fn get_name(&self) -> (s: String) {
        self.name.clone()
    }

    fn get_type(&self) -> (s: String) {
        "uint16".to_owned()
    }
}

/// A named 8-bit unsigned integer.
pub struct SkUint8 {
    name: String,
    pub value: u8,
}

impl Clone for SkUint8 {
    fn clone(&self) -> (copy: SkUint8)
        ensures
            copy.name_text() == self.name_text(),
            copy.value() == self.value(),
    {
        SkUint8 { name: self.name.clone(), value: self.value }
    }
}

impl SkUint8 {
    /// The integer that is held.
    pub closed spec fn value(&self) -> u8 {
        self.value
    }

    /// Makes the value called `name`.
    pub fn new(name: &str, value: u8) -> (r: SkUint8)
        ensures
            r.name_text() == name@,
            r.value() == value,
    {
        SkUint8 { name: name.to_owned(), value }
    }

    /// Gives the integer that is held.
    pub fn get_value(&self) -> (value: u8)
        ensures
            value == self.value(),
    {
        self.value
    }
}

impl SkTypeReadable for SkUint8 {
    open spec fn value_text(&self) -> Seq<char> {
        decimal_text(self.value() as nat)
    }

    closed spec fn name_text(&self) -> Seq<char> {
        self.name@
    }

    open spec fn type_text(&self) -> Seq<char> {
        "uint16"@
    }

    fn get_value_string(&self) -> (s: String) {
        decimal_string(self.value as u32)
    }

    fn get_name(&self) -> (s: String) {
        self.name.clone()
    }

    fn get_type(&self) -> (s: String) {
        "uint16".to_owned()
    }
}

/// The listing of `bytes` from index `from` on: each byte in decimal
/// notation, with `", "` before every byte but the first of all.
pub open spec fn listing_from(bytes: Seq<u8>, from: int) -> Seq<char>
    decreases bytes.len() - from,
{
    if from >= bytes.len() || from < 0 {
        Seq::empty()
    } else if from == 0 {
        decimal_text(bytes[from] as nat) + listing_from(bytes, from + 1)
    } else {
        ", "@ + decimal_text(bytes[from] as nat) + listing_from(bytes, from + 1)
    }
}

/// The listing of `bytes`: `[1, 2, 3]` for the bytes 1, 2 and 3, and `[]` for
/// none.
pub open spec fn listing_text(bytes: Seq<u8>) -> Seq<char> {
    "["@ + listing_from(bytes, 0) + "]"@
}

/// Writes the listing of `bytes`.
pub fn listing_string(bytes: &[u8]) -> (s: String)
    ensures
        s@ == listing_text(bytes@),
{
    let mut s: String = "[".to_owned();
    let mut i: usize = 0;
    while i < bytes.len()
        invariant
            i <= bytes@.len(),
            s@ + listing_from(bytes@, i as int) == "["@ + listing_from(bytes@, 0),
        decreases bytes@.len() - i,
    {
        let ghost before = s@;
        if i > 0 {
            s.append(", ");
        }
        let digits = decimal_string(bytes[i] as u32);
        s.append(digits.as_str());
        proof {
            if i > 0 {
                assert(s@ + listing_from(bytes@, i + 1) =~= before + (", "@ + decimal_text(
                    bytes@[i as int] as nat,
                ) + listing_from(bytes@, i + 1)));
            } else {
                assert(s@ + listing_from(bytes@, i + 1) =~= before + (decimal_text(
                    bytes@[i as int] as nat,
                ) + listing_from(bytes@, i + 1)));
            }
        }
        i = i + 1;
    }
    proof {
        assert(s@ + listing_from(bytes@, i as int) =~= s@);
    }
    s.append("]");
    s
}

/// A named value of a type that is not decoded. Its bytes are kept as a
/// listing, to help support the type one day.
pub struct SkUnknown {
    name: String,
    value: String,
}

impl SkUnknown {
    /// Makes the value called `name`, which holds the listing of `bytes`.
    pub fn new(name: &str, bytes: &[u8]) -> (r: SkUnknown)
        ensures
            r.name_text() == name@,
            r.value_text() == listing_text(bytes@),
    {
        SkUnknown { name: name.to_owned(), value: listing_string(bytes) }
    }
}

impl SkTypeReadable for SkUnknown {
    closed spec fn value_text(&self) -> Seq<char> {
        self.value@
    }

    closed spec fn name_text(&self) -> Seq<char> {
        self.name@
    }

    open spec fn type_text(&self) -> Seq<char> {
        "binary (dec)"@
    }

    fn get_value_string(&self) -> (s: String) {
        self.value.clone()
    }

    fn get_name(&self) -> (s: String) {
        self.name.clone()
    }

    fn get_type(&self) -> (s: String) {
        "binary (dec)".to_owned()
    }
}

} // verus!
