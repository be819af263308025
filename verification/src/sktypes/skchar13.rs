//! A named text of fixed width.

use vstd::prelude::*;
use crate::sktypes::types::SkTypeReadable;

verus! {

/// A named text that the file stores in 13 bytes.
pub struct SkChar13 {
    name: String,
    value: String,
}

impl SkChar13 {
    /// Makes the value called `name`.
    pub fn new(name: &str, value: String) -> (r: SkChar13)
        ensures
            r.name_text() == name@,
            r.value_text() == value@,
    {
        SkChar13 { name: name.to_owned(), value }
    }
}

impl SkTypeReadable for SkChar13 {
    closed spec fn value_text(&self) -> Seq<char> {
        self.value@
    }

    closed spec fn name_text(&self) -> Seq<char> {
        self.name@
    }

    open spec fn type_text(&self) -> Seq<char> {
        "char[13]"@
    }

    fn get_value_string(&self) -> (s: String) {
        self.value.clone()
    }

    fn get_name(&self) -> (s: String) {
        self.name.clone()
    }

    fn get_type(&self) -> (s: String) {
        "char[13]".to_owned()
    }
}

} // verus!
