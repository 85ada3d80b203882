//! What holds of the generator whichever engine runs it.

use crate::model::{
    join64, le_bytes, le_concat, step1, step2, step3, Registers, MIN_Z1, MIN_Z2, MIN_Z3,
};
use vstd::prelude::*;

verus! {

/// One transition keeps every register at or above its minimum: a state
/// that was seeded validly stays valid.
pub proof fn lemma_advance_keeps_valid(s: Registers)
    requires
        s.valid(),
    ensures
        s.advance().valid(),
{
    let a = s.z1;
    let b = s.z2;
    let c = s.z3;
    assert(a >= MIN_Z1 ==> step1(a) >= MIN_Z1) by (bit_vector);
    assert(b >= MIN_Z2 ==> step2(b) >= MIN_Z2) by (bit_vector);
    assert(c >= MIN_Z3 ==> step3(c) >= MIN_Z3) by (bit_vector);
}

/// Any number of transitions keeps a valid state valid.
pub proof fn lemma_advance_by_keeps_valid(s: Registers, n: nat)
    requires
        s.valid(),
    ensures
        s.advance_by(n).valid(),
    decreases n,
{
    if n > 0 {
        lemma_advance_by_keeps_valid(s, (n - 1) as nat);
        lemma_advance_keeps_valid(s.advance_by((n - 1) as nat));
    }
}

/// Transitions add up: `m` of them and then `n` more are `m + n`.
pub proof fn lemma_advance_by_add(s: Registers, m: nat, n: nat)
    ensures
        s.advance_by(m).advance_by(n) == s.advance_by(m + n),
    decreases n,
{
    if n > 0 {
        lemma_advance_by_add(s, m, (n - 1) as nat);
    }
}

/// Draw `i` from the state that one transition leaves is draw `i + 1`
/// from the state before it.
pub proof fn lemma_word_after_draw(s: Registers, i: nat)
    ensures
        s.advance().word(i) == s.word(i + 1),
{
    assert(s.advance_by(1) == s.advance()) by {
        reveal_with_fuel(Registers::advance_by, 2);
    }
    lemma_advance_by_add(s, 1, i + 1);
}

/// The words of a state are those of successive 32-bit draws: the first
/// is the word of one draw, the others are the words of the state that
/// this draw leaves.
pub proof fn lemma_words_are_successive_draws(s: Registers, n: nat)
    ensures
        s.words(n + 1) == seq![s.draw32().1] + s.draw32().0.words(n),
{
    let (after, first) = s.draw32();
    let rest = seq![first] + after.words(n);
    assert(s.advance_by(1) == s.advance()) by {
        reveal_with_fuel(Registers::advance_by, 2);
    }
    assert forall|i: int| 0 <= i < n + 1 implies #[trigger] s.words(n + 1)[i] == rest[i] by {
        if i > 0 {
            lemma_word_after_draw(s, (i - 1) as nat);
        }
    }
    assert(s.words(n + 1) =~= rest);
}

/// A 64-bit draw takes the words of draws 0 and 1 and leaves the state of
/// two transitions. Its upper half is the first word, its lower half the
/// second.
pub proof fn lemma_draw64_is_two_words(s: Registers)
    ensures
        s.draw64() == (s.advance_by(2), join64(s.word(0), s.word(1))),
        (s.draw64().1 >> 32) as u32 == s.word(0),
        (s.draw64().1 & 0xFFFF_FFFF) as u32 == s.word(1),
{
    reveal_with_fuel(Registers::advance_by, 3);
    let hi = s.word(0);
    let lo = s.word(1);
    assert((join64(hi, lo) >> 32) as u32 == hi && (join64(hi, lo) & 0xFFFF_FFFF) as u32 == lo)
        by (bit_vector);
}

/// Appending a word to a run appends its four bytes to the bytes of the
/// run.
pub proof fn lemma_le_concat_push(ws: Seq<u32>, w: u32)
    ensures
        le_concat(ws.push(w)) == le_concat(ws) + le_bytes(w),
{
    assert(le_concat(ws.push(w)) =~= le_concat(ws) + le_bytes(w));
}

/// Byte `i` of the stream is byte `i % 4`, counted from the least
/// significant, of the word of draw `i / 4`. It does not depend on how
/// many bytes are asked for.
pub proof fn lemma_stream_byte(s: Registers, n: nat, i: int)
    requires
        0 <= i < n,
    ensures
        s.stream_bytes(n).len() == n,
        s.stream_bytes(n)[i] == le_bytes(s.word((i / 4) as nat))[i % 4],
{
}

/// No valid state gives three zero words in a row.
pub proof fn lemma_three_words_not_all_zero(s: Registers)
    requires
        s.valid(),
    ensures
        s.word(0) != 0 || s.word(1) != 0 || s.word(2) != 0,
{
    reveal_with_fuel(Registers::advance_by, 4);
    let a = s.z1;
    let b = s.z2;
    let c = s.z3;
    assert(a >= MIN_Z1 && b >= MIN_Z2 && c >= MIN_Z3 ==> (step1(a) ^ step2(b) ^ step3(c)) != 0
        || (step1(step1(a)) ^ step2(step2(b)) ^ step3(step3(c))) != 0
        || (step1(step1(step1(a))) ^ step2(step2(step2(b))) ^ step3(step3(step3(c)))) != 0)
        by (bit_vector);
}

/// Non-degeneracy: a sample of twelve bytes or more, taken from a valid
/// state, holds a byte that is not zero. Since transitions keep a state
/// valid, this is so for every sample that a generator ever gives.
pub proof fn lemma_sample_not_all_zero(s: Registers, n: nat)
    requires
        s.valid(),
        n >= 12,
    ensures
        exists|i: int| 0 <= i < n && s.stream_bytes(n)[i] != 0,
{
    lemma_three_words_not_all_zero(s);
    let j: nat = if s.word(0) != 0 {
        0
    } else if s.word(1) != 0 {
        1
    } else {
        2
    };
    let w = s.word(j);
    assert(w != 0 ==> (w & 0xff) as u8 != 0 || ((w >> 8) & 0xff) as u8 != 0 || ((w >> 16)
        & 0xff) as u8 != 0 || ((w >> 24) & 0xff) as u8 != 0) by (bit_vector);
    let k: int = if le_bytes(w)[0] != 0 {
        0
    } else if le_bytes(w)[1] != 0 {
        1
    } else if le_bytes(w)[2] != 0 {
        2
    } else {
        3
    };
    let i = 4 * j + k;
    lemma_stream_byte(s, n, i);
    assert(s.stream_bytes(n)[i] != 0);
}

} // verus!
