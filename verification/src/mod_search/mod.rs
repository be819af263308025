//! Finding out more about the plugins of a save: where to search for a mod,
//! and what a mod manager on this machine knows about it.

pub mod vortex_scanner;

use vstd::prelude::*;
use vstd::string::StringExecFns;
use vstd::utf8::encode_utf8;
use crate::text::ascii_text;

verus! {

/// Whether a byte stands for itself in a percent-encoded text: the ASCII
/// letters and digits, and `-`, `.`, `_` and `~`.
pub open spec fn is_unreserved(b: u8) -> bool {
    ||| 0x30 <= b <= 0x39
    ||| 0x41 <= b <= 0x5A
    ||| 0x61 <= b <= 0x7A
    ||| b == 0x2D
    ||| b == 0x2E
    ||| b == 0x5F
    ||| b == 0x7E
}

/// The ASCII code of the hexadecimal digit `d`, in upper case.
pub open spec fn hex_digit(d: int) -> u8 {
    if d < 10 {
        (0x30 + d) as u8
    } else {
        (0x41 + d - 10) as u8
    }
}

/// A byte in percent-encoding: itself if it is unreserved, else `%` and its
/// two hexadecimal digits.
pub open spec fn percent_encoded_byte(b: u8) -> Seq<u8> {
    if is_unreserved(b) {
        seq![b]
    } else {
        seq![0x25u8, hex_digit(b as int / 16), hex_digit(b as int % 16)]
    }
}

/// A byte string in percent-encoding, byte by byte.
pub open spec fn percent_encoded(bytes: Seq<u8>) -> Seq<u8>
    decreases bytes.len(),
{
    if bytes.len() == 0 {
        Seq::empty()
    } else {
        percent_encoded_byte(bytes[0]) + percent_encoded(bytes.drop_first())
    }
}

/// Calls `urlencoding::encode`, which percent-encodes every byte of the
/// text's UTF-8 encoding except the ASCII letters and digits and `-`, `.`,
/// `_` and `~`, with upper-case hexadecimal digits. The result is ASCII.
#[verifier::external_body]
fn url_encode(data: &str) -> (r: String)
    ensures
        r@ == ascii_text(percent_encoded(encode_utf8(data@))),
{
    urlencoding::encode(data).into_owned()
}

/// What stands before the search term in a search address.
pub open spec fn search_prefix() -> Seq<char> {
    "https://search.nexusmods.com/mods?terms="@
}

/// What stands after the search term in a search address: the game, and the
/// filters.
pub open spec fn search_suffix() -> Seq<char> {
    "&game_id=1704&blocked_tags=1069&blocked_authors=&include_adult=1"@
}

/// The address at which Nexus Mods is searched for `term`.
pub open spec fn search_url(term: Seq<char>) -> Seq<char> {
    search_prefix() + ascii_text(percent_encoded(encode_utf8(term))) + search_suffix()
}

/// Gives the address at which Nexus Mods is searched for `term`, with the
/// term percent-encoded.
pub fn get_url_for_search(term: &str) -> (url: String)
    ensures
        url@ == search_url(term@),
{
    let encoded = url_encode(term);
    let mut url: String = "https://search.nexusmods.com/mods?terms=".to_owned();
    url.append(encoded.as_str());
    url.append("&game_id=1704&blocked_tags=1069&blocked_authors=&include_adult=1");
    url
}

} // verus!
