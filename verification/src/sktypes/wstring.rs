//! A named length-prefixed text.

use vstd::prelude::*;
use crate::sktypes::types::SkTypeReadable;

verus! {

/// A named text that the file stores behind a 16-bit length.
pub struct SkWstring {
    name: String,
    value: String,
}

impl SkWstring {
    /// Makes the value called `name`.
    pub fn new(name: &str, value: String) -> (r: SkWstring)
        ensures
            r.name_text() == name@,
            r.value_text() == value@,
    {
        SkWstring { name: name.to_owned(), value }
    }
}

impl SkTypeReadable for SkWstring {
    closed spec fn value_text(&self) -> Seq<char> {
        self.value@
    }

    closed spec fn name_text(&self) -> Seq<char> {
        self.name@
    }

    open spec fn type_text(&self) -> Seq<char> {
        "wstring"@
    }

    fn get_value_string(&self) -> (s: String) {
        self.value.clone()
    }

    fn get_name(&self) -> (s: String) {
        self.name.clone()
    }

    fn get_type(&self) -> (s: String) {
        "wstring".to_owned()
    }
}

} // verus!
