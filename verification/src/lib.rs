//! Decoder for the Skyrim `.ess` save-game container, together with the small
//! value types used to present what was decoded.
//!
//! The functions of this crate are verified: the contract of each states what
//! it returns for every input, and none of them panics. Three things are
//! taken on trust, each where it is called: the LZ4 block decoder of
//! `lz4_flex`, the percent-encoding of `urlencoding`, and
//! `core::str::from_utf8`.

pub mod mod_search;
pub mod parser;
pub mod saves;
pub mod sktypes;
pub mod text;
pub mod utils;
