//! The LZ4 block decoder, which is the `lz4_flex` crate's, and what this
//! crate asks of it.

use vstd::prelude::*;
use lz4_flex::block::DecompressError;
use crate::parser::error::DecodeError;

verus! {

/// `lz4_flex::block::DecompressError`, which is passed on and never looked
/// into.
#[verifier::external_type_specification]
#[verifier::external_body]
pub struct ExDecompressError(DecompressError);

/// What `lz4_flex::decompress` makes of the block `input` when it is given
/// room for `capacity` bytes: the bytes that the block expands to, or `None`
/// where it reports an error.
pub uninterp spec fn lz4_block_expansion(input: Seq<u8>, capacity: nat) -> Option<Seq<u8>>;

/// The longest run of `0xFF` bytes that a block may hold and still be handed
/// to the decoder.
///
/// A length in an LZ4 block is extended by one byte for every 255 it grows,
/// and the decoder sums those bytes in a 32-bit counter. Below this limit the
/// sum, and every offset computed from it, stays in range.
pub const MAX_LENGTH_RUN: usize = 8_000_000;

/// The longest body that the format can declare: its lengths are 32-bit.
pub const MAX_DECLARED_LENGTH: usize = 0xFFFF_FFFF;

/// Whether the bytes `from..to` of `s` are all `0xFF`.
pub open spec fn all_ff(s: Seq<u8>, from: int, to: int) -> bool {
    forall|i: int| from <= i < to ==> s[i] == 0xFF
}

/// Whether `s` holds `run` consecutive `0xFF` bytes somewhere.
pub open spec fn has_ff_run(s: Seq<u8>, run: int) -> bool {
    exists|at: int| 0 <= at && at + run <= s.len() && #[trigger] all_ff(s, at, at + run)
}

/// Whether the decoder can be run on the block `input` with room for
/// `capacity` bytes: the room is no more than the format can declare and
/// than a buffer can hold, and no length in the block runs longer than
/// [`MAX_LENGTH_RUN`].
pub open spec fn block_admissible(input: Seq<u8>, capacity: nat) -> bool {
    &&& capacity <= MAX_DECLARED_LENGTH
    &&& capacity <= isize::MAX
    &&& !has_ff_run(input, MAX_LENGTH_RUN as int)
}

/// Calls `lz4_flex::decompress`.
///
/// The contract gives the function's result a name and claims nothing else
/// about it. The crate is built with its `safe-decode` feature, under which
/// the decoder checks every read and write against the two buffers and
/// reports an error in place of a panic. What is left to exclude is room
/// beyond what a buffer can hold, and a length that overflows the decoder's
/// counter.
#[verifier::external_body]
fn lz4_decompress(input: &[u8], capacity: usize) -> (r: Result<Vec<u8>, DecompressError>)
    requires
        block_admissible(input@, capacity as nat),
    ensures
        match r {
            Ok(bytes) => lz4_block_expansion(input@, capacity as nat) == Some(bytes@),
            Err(_) => lz4_block_expansion(input@, capacity as nat) is None,
        },
{
    lz4_flex::decompress(input, capacity)
}

/// Tells whether `input` holds [`MAX_LENGTH_RUN`] consecutive `0xFF` bytes.
pub fn has_long_run(input: &[u8]) -> (found: bool)
    ensures
        found == has_ff_run(input@, MAX_LENGTH_RUN as int),
{
    let mut current: usize = 0;
    let mut i: usize = 0;
    while i < input.len()
        invariant
            i <= input@.len(),
            current <= i,
            current < MAX_LENGTH_RUN,
            all_ff(input@, i - current, i as int),
            current < i ==> input@[i - current - 1] != 0xFF,
            forall|at: int|
                0 <= at && at + MAX_LENGTH_RUN <= i ==> !#[trigger] all_ff(
                    input@,
                    at,
                    at + MAX_LENGTH_RUN,
                ),
        decreases input@.len() - i,
    {
        if input[i] == 0xFF {
            current = current + 1;
            if current == MAX_LENGTH_RUN {
                assert(all_ff(input@, i + 1 - MAX_LENGTH_RUN, i + 1 - MAX_LENGTH_RUN + MAX_LENGTH_RUN));
                return true;
            }
        } else {
            current = 0;
        }
        i = i + 1;
        assert forall|at: int| 0 <= at && at + MAX_LENGTH_RUN <= i implies !#[trigger] all_ff(
            input@,
            at,
            at + MAX_LENGTH_RUN,
        ) by {
            if at + MAX_LENGTH_RUN == i {
                assert(at <= i - current - 1);
                assert(input@[i - current - 1] != 0xFF);
            }
        }
    }
    false
}

/// The expansion that is accepted for a body declared to be `declared` bytes
/// long: the one the decoder produced, if it produced one of that length.
pub open spec fn accepted_expansion(expansion: Option<Seq<u8>>, declared: nat) -> Option<Seq<u8>> {
    match expansion {
        Some(bytes) => if bytes.len() == declared {
            Some(bytes)
        } else {
            None
        },
        None => None,
    }
}

/// The decoder's result as a mathematical value.
pub open spec fn expansion_of(outcome: Result<Vec<u8>, DecompressError>) -> Option<Seq<u8>> {
    match outcome {
        Ok(bytes) => Some(bytes@),
        Err(_) => None,
    }
}

/// Judges what the decoder returned for a body declared to be `declared`
/// bytes long. The expansion is accepted if it has exactly that length;
/// a decoder error, or an expansion of another length, is a
/// [`DecodeError::DecompressionFailure`].
pub fn check_expansion(outcome: Result<Vec<u8>, DecompressError>, declared: usize) -> (r: Result<
    Vec<u8>,
    DecodeError,
>)
    ensures
        match r {
            Ok(body) => accepted_expansion(expansion_of(outcome), declared as nat) == Some(body@),
            Err(e) => accepted_expansion(expansion_of(outcome), declared as nat) is None && e
                == DecodeError::DecompressionFailure,
        },
{
    match outcome {
        Ok(bytes) => {
            if bytes.len() == declared {
                Ok(bytes)
            } else {
                Err(DecodeError::DecompressionFailure)
            }
        },
        Err(_) => Err(DecodeError::DecompressionFailure),
    }
}

/// What expanding the block `input` to `declared` bytes gives: the bytes, or
/// `None` where the block is refused, the decoder fails, or the expansion has
/// another length.
pub open spec fn expanded_block(input: Seq<u8>, declared: nat) -> Option<Seq<u8>> {
    if block_admissible(input, declared) {
        accepted_expansion(lz4_block_expansion(input, declared), declared)
    } else {
        None
    }
}

/// Expands the LZ4 block `input`, which is declared to hold `declared` bytes.
///
/// The decoder is given room for exactly `declared` bytes, so a hostile
/// length cannot make it produce more. Whatever goes wrong is a
/// [`DecodeError::DecompressionFailure`].
pub fn expand_block(input: &[u8], declared: usize) -> (r: Result<Vec<u8>, DecodeError>)
    ensures
        match r {
            Ok(body) => expanded_block(input@, declared as nat) == Some(body@),
            Err(e) => expanded_block(input@, declared as nat) is None && e
                == DecodeError::DecompressionFailure,
        },
        r matches Ok(body) ==> body@.len() == declared,
{
    if declared > MAX_DECLARED_LENGTH || declared > isize::MAX as usize || has_long_run(input) {
        return Err(DecodeError::DecompressionFailure);
    }
    check_expansion(lz4_decompress(input, declared), declared)
}

} // verus!
