//! Working with text: comparing it, and writing numbers as text.

use vstd::prelude::*;
use vstd::utf8::{
    encode_utf8,
    encode_utf8_decode_utf8,
    encode_utf8_valid_utf8,
    is_ascii_chars,
    is_ascii_chars_encode_utf8,
};

verus! {

/// The texts that a sequence of strings holds.
pub open spec fn texts_of(strings: Seq<String>) -> Seq<Seq<char>> {
    Seq::new(strings.len(), |i: int| strings[i]@)
}

/// Tells whether two strings hold the same text.
pub fn same_text(a: &str, b: &str) -> (same: bool)
    ensures
        same == (a@ == b@),
{
    let x = a.as_bytes();
    let y = b.as_bytes();
    proof {
        encode_utf8_decode_utf8(a@);
        encode_utf8_decode_utf8(b@);
    }
    if x.len() != y.len() {
        return false;
    }
    let mut i: usize = 0;
    while i < x.len()
        invariant
            i <= x@.len(),
            x@.len() == y@.len(),
            x@ == encode_utf8(a@),
            y@ == encode_utf8(b@),
            forall|k: int| 0 <= k < i ==> x@[k] == y@[k],
        decreases x@.len() - i,
    {
        if x[i] != y[i] {
            return false;
        }
        i = i + 1;
    }
    assert(x@ =~= y@);
    true
}

/// Tells whether `text` begins with `prefix`.
pub fn starts_with(text: &str, prefix: &str) -> (b: bool)
    ensures
        b == prefix@.is_prefix_of(text@),
{
    let n = prefix.unicode_len();
    if text.unicode_len() < n {
        return false;
    }
    let mut i: usize = 0;
    while i < n
        invariant
            i <= n,
            n == prefix@.len(),
            n <= text@.len(),
            forall|k: int| 0 <= k < i ==> text@[k] == prefix@[k],
        decreases n - i,
    {
        if text.get_char(i) != prefix.get_char(i) {
            return false;
        }
        i = i + 1;
    }
    assert(prefix@ =~= text@.subrange(0, n as int));
    true
}

/// Gives the characters of a string.
pub fn chars_of(text: &str) -> (chars: Vec<char>)
    ensures
        chars@ == text@,
{
    let n = text.unicode_len();
    let mut chars: Vec<char> = Vec::new();
    let mut i: usize = 0;
    while i < n
        invariant
            i <= n,
            n == text@.len(),
            chars@ == text@.subrange(0, i as int),
        decreases n - i,
    {
        chars.push(text.get_char(i));
        assert(chars@ =~= text@.subrange(0, i + 1));
        i = i + 1;
    }
    assert(chars@ =~= text@);
    chars
}

/// Whether `pattern` occurs in `text` at `at`.
pub open spec fn occurs_at(text: Seq<char>, pattern: Seq<char>, at: int) -> bool {
    0 <= at && at + pattern.len() <= text.len() && text.subrange(at, at + pattern.len()) == pattern
}

/// Whether `pattern` occurs somewhere in `text`.
pub open spec fn occurs_in(text: Seq<char>, pattern: Seq<char>) -> bool {
    exists|at: int| occurs_at(text, pattern, at)
}

/// Tells whether `pattern` occurs in `text` at `at`.
pub fn matches_at(text: &[char], pattern: &[char], at: usize) -> (b: bool)
    ensures
        b == occurs_at(text@, pattern@, at as int),
{
    if at > text.len() || text.len() - at < pattern.len() {
        return false;
    }
    let mut k: usize = 0;
    while k < pattern.len()
        invariant
            k <= pattern@.len(),
            at + pattern@.len() <= text@.len() <= usize::MAX,
            forall|j: int| 0 <= j < k ==> text@[at + j] == pattern@[j],
        decreases pattern@.len() - k,
    {
        if text[at + k] != pattern[k] {
            assert(text@.subrange(at as int, at + pattern@.len())[k as int] != pattern@[k as int]);
            return false;
        }
        k = k + 1;
    }
    assert(text@.subrange(at as int, at + pattern@.len()) =~= pattern@);
    true
}

/// Tells whether `pattern` occurs somewhere in `text`.
pub fn contains(text: &[char], pattern: &[char]) -> (b: bool)
    ensures
        b == occurs_in(text@, pattern@),
{
    if text.len() < pattern.len() {
        return false;
    }
    let last: usize = text.len() - pattern.len();
    let mut at: usize = 0;
    while at < last
        invariant
            at <= last,
            last == text@.len() - pattern@.len(),
            forall|j: int| 0 <= j < at ==> !occurs_at(text@, pattern@, j),
        decreases last - at,
    {
        if matches_at(text, pattern, at) {
            return true;
        }
        at = at + 1;
    }
    matches_at(text, pattern, last)
}

/// The text whose characters are the given ASCII codes.
pub open spec fn ascii_text(bytes: Seq<u8>) -> Seq<char> {
    Seq::new(bytes.len(), |i: int| bytes[i] as char)
}

/// Whether every byte is an ASCII code.
pub open spec fn all_ascii(bytes: Seq<u8>) -> bool {
    forall|i: int| 0 <= i < bytes.len() ==> bytes[i] < 0x80
}

/// ASCII codes are the UTF-8 encoding of the text they spell.
pub proof fn lemma_ascii_is_utf8(bytes: Seq<u8>)
    requires
        all_ascii(bytes),
    ensures
        encode_utf8(ascii_text(bytes)) == bytes,
{
    let chars = ascii_text(bytes);
    assert(is_ascii_chars(chars));
    is_ascii_chars_encode_utf8(chars);
    assert(encode_utf8(chars) =~= bytes);
}

/// Makes a string of ASCII codes.
fn ascii_string(bytes: &[u8]) -> (s: String)
    requires
        all_ascii(bytes@),
    ensures
        s@ == ascii_text(bytes@),
{
    proof {
        lemma_ascii_is_utf8(bytes@);
        encode_utf8_valid_utf8(ascii_text(bytes@));
    }
    match core::str::from_utf8(bytes) {
        Ok(s) => {
            proof {
                encode_utf8_decode_utf8(s@);
                encode_utf8_decode_utf8(ascii_text(bytes@));
            }
            s.to_owned()
        },
        Err(_) => String::new(),
    }
}

/// The character that stands for the digit `d`.
pub open spec fn digit_char(d: nat) -> char {
    (0x30 + d) as u8 as char
}

/// The decimal notation of `n`: no sign, and no leading zero but for 0
/// itself.
pub open spec fn decimal_text(n: nat) -> Seq<char>
    decreases n,
{
    if n < 10 {
        seq![digit_char(n)]
    } else {
        decimal_text(n / 10).push(digit_char(n % 10))
    }
}

/// Writes `n` in decimal notation.
pub fn decimal_string(n: u32) -> (s: String)
    ensures
        s@ == decimal_text(n as nat),
{
    let mut low_first: Vec<u8> = Vec::new();
    let mut rest: u32 = n;
    while rest >= 10
        invariant
            all_ascii(low_first@),
            decimal_text(n as nat) == decimal_text(rest as nat) + ascii_text(low_first@).reverse(),
        decreases rest,
    {
        let ghost before = low_first@;
        low_first.push(0x30 + (rest % 10) as u8);
        proof {
            assert(ascii_text(low_first@).reverse() =~= seq![digit_char((rest % 10) as nat)]
                + ascii_text(before).reverse());
            assert(decimal_text(rest as nat) == decimal_text((rest / 10) as nat).push(
                digit_char((rest % 10) as nat),
            ));
            assert(decimal_text((rest / 10) as nat).push(digit_char((rest % 10) as nat))
                + ascii_text(before).reverse() =~= decimal_text((rest / 10) as nat) + (seq![
                digit_char((rest % 10) as nat),
            ] + ascii_text(before).reverse()));
        }
        rest = rest / 10;
    }
    let ghost tail = low_first@;
    low_first.push(0x30 + rest as u8);
    proof {
        assert(ascii_text(low_first@).reverse() =~= decimal_text(rest as nat) + ascii_text(
            tail,
        ).reverse());
    }

    let mut digits: Vec<u8> = Vec::new();
    let mut left: usize = low_first.len();
    while left > 0
        invariant
            left <= low_first@.len(),
            all_ascii(low_first@),
            all_ascii(digits@),
            digits@.len() == low_first@.len() - left,
            forall|k: int|
                0 <= k < digits@.len() ==> digits@[k] == low_first@[low_first@.len() - 1 - k],
        decreases left,
    {
        left = left - 1;
        digits.push(low_first[left]);
    }
    proof {
        assert(ascii_text(digits@) =~= ascii_text(low_first@).reverse());
    }
    ascii_string(digits.as_slice())
}

} // verus!
