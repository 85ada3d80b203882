//! The scalar engine: three words, each updated by its own formula.

use crate::emit::{fill, WordSource};
use crate::lemmas::{
    lemma_advance_by_keeps_valid, lemma_advance_keeps_valid, lemma_sample_not_all_zero,
};
use crate::model::{words_for, Registers};
use crate::seed::{
    first_below_minimum, registers_from_seed, registers_from_words, seed_registers, InvalidSeed,
};
use vstd::prelude::*;

verus! {

/// A Taus88 generator that keeps its state in three 32-bit words.
///
/// The words are at or above their minimums from construction on, so the
/// state never collapses.
pub struct Taus88 {
    z1: u32,
    z2: u32,
    z3: u32,
}

impl View for Taus88 {
    type V = Registers;

    closed spec fn view(&self) -> Registers {
        Registers { z1: self.z1, z2: self.z2, z3: self.z3 }
    }
}

impl Taus88 {
    #[verifier::type_invariant]
    spec fn seeded(self) -> bool {
        self@.valid()
    }

    fn from_registers(regs: Registers) -> (rng: Self)
        requires
            regs.valid(),
        ensures
            rng@ == regs,
    {
        Taus88 { z1: regs.z1, z2: regs.z2, z3: regs.z3 }
    }

    /// Strict seeding from three words. A word below its minimum
    /// (2, 8 and 16) is refused, not repaired.
    pub fn new(seed1: u32, seed2: u32, seed3: u32) -> (r: Result<Self, InvalidSeed>)
        ensures
            match r {
                Ok(rng) => first_below_minimum(seed1, seed2, seed3) is None && rng@ == (Registers {
                    z1: seed1,
                    z2: seed2,
                    z3: seed3,
                }) && rng@.valid(),
                Err(e) => first_below_minimum(seed1, seed2, seed3) == Some(e.word),
            },
    {
        match registers_from_words(seed1, seed2, seed3) {
            Ok(regs) => Ok(Self::from_registers(regs)),
            Err(e) => Err(e),
        }
    }

    /// Permissive seeding from twelve bytes: three little-endian words,
    /// each raised to its minimum where it is below.
    pub fn from_seed(seed: [u8; 12]) -> (rng: Self)
        ensures
            rng@ == seed_registers(seed@),
            rng@.valid(),
    {
        Self::from_registers(registers_from_seed(seed))
    }

    /// The current registers.
    pub fn registers(&self) -> (regs: Registers)
        ensures
            regs == self@,
            regs.valid(),
    {
        proof {
            use_type_invariant(self);
        }
        Registers { z1: self.z1, z2: self.z2, z3: self.z3 }
    }

    /// Draws a word: one transition, then the xor of the three registers.
    pub fn next_u32(&mut self) -> (w: u32)
        ensures
            (final(self)@, w) == old(self)@.draw32(),
            final(self)@.valid(),
    {
        proof {
            use_type_invariant(&*self);
            lemma_advance_keeps_valid(self@);
        }
        self.z1 = ((self.z1 & 0xFFFF_FFFE) << 12) ^ (((self.z1 << 13) ^ self.z1) >> 19);
        self.z2 = ((self.z2 & 0xFFFF_FFF8) << 4) ^ (((self.z2 << 2) ^ self.z2) >> 25);
        self.z3 = ((self.z3 & 0xFFFF_FFF0) << 17) ^ (((self.z3 << 3) ^ self.z3) >> 11);
        self.z1 ^ self.z2 ^ self.z3
    }

    /// Draws 64 bits: two words in a row, the first in the upper half.
    pub fn next_u64(&mut self) -> (w: u64)
        ensures
            (final(self)@, w) == old(self)@.draw64(),
            final(self)@.valid(),
    {
        let hi: u32 = self.next_u32();
        let lo: u32 = self.next_u32();
        ((hi as u64) << 32) | (lo as u64)
    }

    /// Fills `dest` from the stream: word after word, each least
    /// significant byte first. Where the length is no multiple of four,
    /// the last word gives its low-order bytes and the rest of it is
    /// dropped. The state moves on by one transition per word drawn.
    ///
    /// Twelve bytes or more are never all zero.
    pub fn fill_bytes(&mut self, dest: &mut [u8])
        ensures
            final(dest)@ == old(self)@.stream_bytes(old(dest)@.len()),
            final(self)@ == old(self)@.advance_by(words_for(old(dest)@.len())),
            final(self)@.valid(),
            old(dest)@.len() >= 12 ==> exists|i: int|
                0 <= i < old(dest)@.len() && final(dest)@[i] != 0,
    {
        proof {
            use_type_invariant(&*self);
            lemma_advance_by_keeps_valid(self@, words_for(dest@.len()));
            if dest@.len() >= 12 {
                lemma_sample_not_all_zero(self@, dest@.len());
            }
        }
        fill(self, dest);
    }
}

impl WordSource for Taus88 {
    open spec fn state(&self) -> Registers {
        self@
    }

    fn draw32(&mut self) -> (w: u32) {
        self.next_u32()
    }
}

} // verus!
