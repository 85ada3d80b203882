//! Byte emission: how drawn words fill a byte buffer.
//!
//! The layer is the same for every engine. All it asks of one is to draw
//! words; `WordSource` says so.

use crate::model::{le_bytes, words_for, Registers};
use vstd::prelude::*;

verus! {

/// Anything that draws the generator's words one after the other.
pub trait WordSource {
    /// The registers that the next draw starts from.
    spec fn state(&self) -> Registers;

    /// Draws a word: one transition, then the word of the new state.
    fn draw32(&mut self) -> (w: u32)
        ensures
            (final(self).state(), w) == old(self).state().draw32(),
    ;
}

/// What one word contributes to a buffer: its little-endian bytes on
/// positions `at .. at + 4`, as far as the buffer reaches. All other
/// positions keep what they held.
pub open spec fn with_word(before: Seq<u8>, at: int, w: u32) -> Seq<u8> {
    Seq::new(
        before.len(),
        |i: int|
            if at <= i < at + 4 {
                le_bytes(w)[i - at]
            } else {
                before[i]
            },
    )
}

/// The four bytes of `w`, least significant first.
pub fn word_to_le_bytes(w: u32) -> (bytes: [u8; 4])
    ensures
        bytes@ == le_bytes(w),
{
    [(w & 0xff) as u8, ((w >> 8) & 0xff) as u8, ((w >> 16) & 0xff) as u8, ((w >> 24) & 0xff) as u8]
}

/// Writes `w` into `dest` from position `at` on, least significant byte
/// first. Where fewer than four positions are left, the low-order bytes
/// fill them and the rest of the word is dropped; at or past the end
/// nothing is written.
pub fn put_word(dest: &mut [u8], at: usize, w: u32)
    ensures
        final(dest)@ == with_word(old(dest)@, at as int, w),
{
    let bytes = word_to_le_bytes(w);
    let len: usize = dest.len();
    let room: usize = if at < len {
        len - at
    } else {
        0
    };
    let count: usize = if room < 4 {
        room
    } else {
        4
    };
    let mut k: usize = 0;
    while k < count
        invariant
            k <= count <= 4,
            count == 0 || at + count <= len,
            dest@.len() == len,
            len == old(dest)@.len(),
            bytes@ == le_bytes(w),
            forall|i: int|
                0 <= i < len ==> dest@[i] == if at <= i < at + k {
                    le_bytes(w)[i - at]
                } else {
                    old(dest)@[i]
                },
        decreases count - k,
    {
        dest[at + k] = bytes[k];
        k += 1;
    }
    assert(dest@ =~= with_word(old(dest)@, at as int, w));
}

/// Fills `dest` from the stream of `source`: word after word, each least
/// significant byte first. Where the length is no multiple of four, the
/// last word gives its low-order bytes and the rest of it is dropped.
/// The source moves on by one transition per word drawn; an empty buffer
/// draws none.
pub fn fill<G: WordSource>(source: &mut G, dest: &mut [u8])
    ensures
        final(dest)@ == old(source).state().stream_bytes(old(dest)@.len()),
        final(source).state() == old(source).state().advance_by(words_for(old(dest)@.len())),
{
    let len: usize = dest.len();
    let ghost start = source.state();
    let ghost mut drawn: nat = 0;
    let mut at: usize = 0;
    while at < len
        invariant
            dest@.len() == len,
            at <= len,
            at == len || at == 4 * drawn,
            drawn == words_for(at as nat),
            source.state() == start.advance_by(drawn),
            forall|i: int| 0 <= i < at ==> dest@[i] == le_bytes(start.word((i / 4) as nat))[i % 4],
        decreases len - at,
    {
        let w: u32 = source.draw32();
        put_word(dest, at, w);
        proof {
            assert(w == start.word(drawn));
            drawn = drawn + 1;
        }
        at = if len - at < 4 {
            len
        } else {
            at + 4
        };
    }
    assert(dest@ =~= start.stream_bytes(len as nat));
}

} // verus!
