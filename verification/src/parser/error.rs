//! What can go wrong while decoding, and what is merely worth a remark.

use vstd::prelude::*;

verus! {

/// A failure that ends the decoding of a buffer. No partial result is produced.
#[derive(Debug, Clone, Copy, PartialEq, Eq, Structural)]
pub enum DecodeError {
    /// The buffer does not start with the container's magic token.
    Format,
    /// A field would extend past the end of the buffer.
    TruncatedInput,
    /// The body is stored with the alternate compression scheme, for which
    /// there is no decoder.
    UnsupportedCompression,
    /// The block-compressed body could not be expanded to its declared length.
    DecompressionFailure,
}

/// An anomaly that was absorbed while decoding. Decoding went on with a
/// substitute value.
#[derive(Debug, Clone, Copy, PartialEq, Eq, Structural)]
pub enum DecodeWarning {
    /// The bytes `start..end` of a text field are not UTF-8. The field was
    /// decoded as the empty string. The offsets count from the start of the
    /// buffer that was being read: the file for the texts of the header, the
    /// resolved body for the names of the plugins.
    InvalidText { start: usize, end: usize },
    /// The plugin list took `consumed` bytes although the section announced
    /// `declared` bytes.
    SizeMismatch { declared: u32, consumed: usize },
    /// The compression tag is not one this decoder knows. The body was taken
    /// as stored.
    UnknownCompression { tag: u16 },
}

} // verus!
