//! The generator as mathematics: three registers, the recurrence that
//! advances them, and the stream of words and bytes that they give.
//!
//! Both engines are specified against this module, so whatever is stated
//! here holds of either.

use vstd::prelude::*;

verus! {

/// Least admissible value of the first register.
pub const MIN_Z1: u32 = 2;

/// Least admissible value of the second register.
pub const MIN_Z2: u32 = 8;

/// Least admissible value of the third register.
pub const MIN_Z3: u32 = 16;

/// One Tausworthe register update: the masked word shifted left by
/// `shl_masked`, xored with the feedback term `((z << shl_feed) ^ z) >> shr_feed`.
/// Shifts are logical and on 32 bits; bits shifted out are dropped.
pub open spec fn lfsr_step(
    z: u32,
    mask: u32,
    shl_masked: u32,
    shl_feed: u32,
    shr_feed: u32,
) -> u32 {
    ((z & mask) << shl_masked) ^ (((z << shl_feed) ^ z) >> shr_feed)
}

/// Update of the first register (31 significant bits).
pub open spec fn step1(z: u32) -> u32 {
    lfsr_step(z, 0xFFFF_FFFE, 12, 13, 19)
}

/// Update of the second register (29 significant bits).
pub open spec fn step2(z: u32) -> u32 {
    lfsr_step(z, 0xFFFF_FFF8, 4, 2, 25)
}

/// Update of the third register (28 significant bits).
pub open spec fn step3(z: u32) -> u32 {
    lfsr_step(z, 0xFFFF_FFF0, 17, 3, 11)
}

/// Two words joined into one of 64 bits, `hi` in the upper half.
pub open spec fn join64(hi: u32, lo: u32) -> u64 {
    ((hi as u64) << 32) | (lo as u64)
}

/// The four bytes of a word, least significant first.
pub open spec fn le_bytes(w: u32) -> Seq<u8> {
    seq![
        (w & 0xff) as u8,
        ((w >> 8) & 0xff) as u8,
        ((w >> 16) & 0xff) as u8,
        ((w >> 24) & 0xff) as u8,
    ]
}

/// The bytes of a run of words: word after word, each least significant
/// byte first.
pub open spec fn le_concat(ws: Seq<u32>) -> Seq<u8> {
    Seq::new(4 * ws.len(), |i: int| le_bytes(ws[i / 4])[i % 4])
}

/// How many words it takes to cover `n` bytes: `n / 4`, rounded up.
pub open spec fn words_for(n: nat) -> nat {
    (n + 3) / 4
}

/// The 96 bits of generator state.
#[derive(Clone, Copy, Debug, PartialEq, Eq, Structural)]
pub struct Registers {
    pub z1: u32,
    pub z2: u32,
    pub z3: u32,
}

impl Registers {
    /// Every register is at or above its minimum. A state that is not
    /// may sit on the all-zero fixed point of its recurrence.
    pub open spec fn valid(self) -> bool {
        self.z1 >= MIN_Z1 && self.z2 >= MIN_Z2 && self.z3 >= MIN_Z3
    }

    /// The state after one transition. Each register reads only its own
    /// previous value.
    pub open spec fn advance(self) -> Registers {
        Registers { z1: step1(self.z1), z2: step2(self.z2), z3: step3(self.z3) }
    }

    /// The word that a state shows: the xor of its registers.
    pub open spec fn output(self) -> u32 {
        self.z1 ^ self.z2 ^ self.z3
    }

    /// The state after `n` transitions.
    pub open spec fn advance_by(self, n: nat) -> Registers
        decreases n,
    {
        if n == 0 {
            self
        } else {
            self.advance_by((n - 1) as nat).advance()
        }
    }

    /// The word of draw number `i`, counted from 0: what the state shows
    /// after `i + 1` transitions.
    pub open spec fn word(self, i: nat) -> u32 {
        self.advance_by(i + 1).output()
    }

    /// The first `n` words drawn, in draw order.
    pub open spec fn words(self, n: nat) -> Seq<u32> {
        Seq::new(n, |i: int| self.word(i as nat))
    }

    /// A 32-bit draw: one transition, then the word of the new state.
    pub open spec fn draw32(self) -> (Registers, u32) {
        (self.advance(), self.advance().output())
    }

    /// A 64-bit draw: two 32-bit draws in a row, the first in the upper
    /// half of the result.
    pub open spec fn draw64(self) -> (Registers, u64) {
        let (after_hi, hi) = self.draw32();
        let (after_lo, lo) = after_hi.draw32();
        (after_lo, join64(hi, lo))
    }

    /// The first `n` bytes of the stream: the little-endian bytes of
    /// `words_for(n)` draws, cut off after `n`.
    pub open spec fn stream_bytes(self, n: nat) -> Seq<u8> {
        le_concat(self.words(words_for(n))).take(n as int)
    }
}

} // verus!
