//! Steam's list of library folders, `libraryfolders.vdf`, line by line.

use vstd::prelude::*;
use crate::text::{chars_of, contains, occurs_in};

verus! {

/// The index of the first `"` of `line` at or after `from`, or the length of
/// the line where there is none.
pub open spec fn next_quote(line: Seq<char>, from: int) -> int
    decreases line.len() - from,
{
    if from >= line.len() {
        line.len() as int
    } else if line[from] == '"' {
        from
    } else {
        next_quote(line, from + 1)
    }
}

/// The key under which a line names a library folder, quotes included.
pub open spec fn path_key() -> Seq<char> {
    "\"path\""@
}

/// The library folder that a line names: on a line that holds the key
/// `"path"`, what stands between the third `"` and the fourth, or the end of
/// the line where there is no fourth. A line without the key, or with fewer
/// than three `"`, names none.
pub open spec fn folder_in_line(line: Seq<char>) -> Option<Seq<char>> {
    let first = next_quote(line, 0);
    let second = next_quote(line, first + 1);
    let third = next_quote(line, second + 1);
    let fourth = next_quote(line, third + 1);
    if occurs_in(line, path_key()) && third < line.len() {
        Some(line.subrange(third + 1, fourth))
    } else {
        None
    }
}

/// Finds the first `"` of `line` at or after `from`.
fn find_quote(line: &[char], from: usize) -> (at: usize)
    ensures
        at == next_quote(line@, from as int),
        at <= line@.len(),
        from <= line@.len() ==> from <= at,
{
    let mut at: usize = from;
    while at < line.len() && line[at] != '"'
        invariant
            from <= at,
            next_quote(line@, from as int) == next_quote(line@, at as int),
        decreases line@.len() - at,
    {
        at = at + 1;
    }
    if at > line.len() {
        line.len()
    } else {
        at
    }
}

/// Finds the first `"` behind the one at `quote`, if there is one at `quote`.
fn find_quote_after(line: &[char], quote: usize) -> (at: usize)
    requires
        quote <= line@.len(),
    ensures
        at == next_quote(line@, quote + 1),
        at <= line@.len(),
        quote < line@.len() ==> quote < at,
{
    if quote < line.len() {
        find_quote(line, quote + 1)
    } else {
        line.len()
    }
}

/// Gives the library folder that a line of `libraryfolders.vdf` names, if it
/// names one.
pub fn library_folder_in_line(line: &str) -> (r: Option<String>)
    ensures
        match r {
            Some(folder) => folder_in_line(line@) == Some(folder@),
            None => folder_in_line(line@) is None,
        },
{
    let chars = chars_of(line);
    let key = chars_of("\"path\"");
    if !contains(chars.as_slice(), key.as_slice()) {
        return None;
    }
    let first = find_quote(chars.as_slice(), 0);
    let second = find_quote_after(chars.as_slice(), first);
    let third = find_quote_after(chars.as_slice(), second);
    if third >= chars.len() {
        return None;
    }
    let fourth = find_quote_after(chars.as_slice(), third);
    Some(line.substring_char(third + 1, fourth).to_owned())
}

} // verus!
