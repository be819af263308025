//! A named 32-bit unsigned integer.

use vstd::prelude::*;
use crate::sktypes::types::SkTypeReadable;
use crate::text::{decimal_string, decimal_text};

verus! {

/// A named 32-bit unsigned integer.
pub struct SkUint32 {
    name: String,
    value: u32,
}

impl Clone for SkUint32 {
    fn clone(&self) -> (copy: SkUint32)
        ensures
            copy.name_text() == self.name_text(),
            copy.value() == self.value(),
    {
        SkUint32 { name: self.name.clone(), value: self.value }
    }
}

impl SkUint32 {
    /// The integer that is held.
    pub closed spec fn value(&self) -> u32 {
        self.value
    }

    /// Makes the value called `name`.
    pub fn new(name: &str, value: u32) -> (r: SkUint32)
        ensures
            r.name_text() == name@,
            r.value() == value,
    {
        SkUint32 { name: name.to_owned(), value }
    }

    /// Gives the integer that is held.
    pub fn get_value(&self) -> (value: u32)
        ensures
            value == self.value(),
    {
        self.value
    }
}

impl SkTypeReadable for SkUint32 {
    open spec fn value_text(&self) -> Seq<char> {
        decimal_text(self.value() as nat)
    }

    closed spec fn name_text(&self) -> Seq<char> {
        self.name@
    }

    open spec fn type_text(&self) -> Seq<char> {
        "uint32"@
    }

    fn get_value_string(&self) -> (s: String) {
        decimal_string(self.value)
    }

    fn get_name(&self) -> (s: String) {
        self.name.clone()
    }

    fn get_type(&self) -> (s: String) {
        "uint32".to_owned()
    }
}

} // verus!
