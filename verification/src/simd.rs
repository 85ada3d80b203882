//! The vector engine: the three words in one four-lane vector, updated by
//! one formula with a constant vector for each mask and shift amount.
//!
//! It is the same generator as the scalar engine, lane for register. The
//! fourth lane is padding: its mask and shift amounts are zero, so it is
//! zero after every transition and never reaches the output.

use crate::emit::{fill, WordSource};
use crate::lanes::{lanes_and, lanes_shl, lanes_shr, lanes_xor, U32x4};
use crate::lemmas::{
    lemma_advance_by_keeps_valid, lemma_advance_keeps_valid, lemma_sample_not_all_zero,
};
use crate::model::{lfsr_step, words_for, Registers};
use crate::seed::{
    first_below_minimum, registers_from_seed, registers_from_words, seed_registers, InvalidSeed,
};
use vstd::prelude::*;

verus! {

/// Per lane, the mask applied before the first left shift.
pub open spec fn lane_masks() -> Seq<u32> {
    seq![0xFFFF_FFFEu32, 0xFFFF_FFF8u32, 0xFFFF_FFF0u32, 0u32]
}

/// Per lane, by how much the masked word is shifted left.
pub open spec fn lane_shl_masked() -> Seq<u32> {
    seq![12u32, 4u32, 17u32, 0u32]
}

/// Per lane, by how much the word is shifted left in the feedback term.
pub open spec fn lane_shl_feed() -> Seq<u32> {
    seq![13u32, 2u32, 3u32, 0u32]
}

/// Per lane, by how much the feedback term is shifted right.
pub open spec fn lane_shr_feed() -> Seq<u32> {
    seq![19u32, 25u32, 11u32, 0u32]
}

/// One transition of the whole vector.
pub open spec fn vector_step(z: Seq<u32>) -> Seq<u32> {
    lanes_xor(
        lanes_shl(lanes_and(z, lane_masks()), lane_shl_masked()),
        lanes_shr(lanes_xor(lanes_shl(z, lane_shl_feed()), z), lane_shr_feed()),
    )
}

/// The word that a vector shows: the xor of its first three lanes.
pub open spec fn vector_output(z: Seq<u32>) -> u32 {
    z[0] ^ z[1] ^ z[2]
}

/// The vector after `n` transitions.
pub open spec fn vector_step_by(z: Seq<u32>, n: nat) -> Seq<u32>
    decreases n,
{
    if n == 0 {
        z
    } else {
        vector_step(vector_step_by(z, (n - 1) as nat))
    }
}

/// The registers as a vector: one lane each, and a zero padding lane.
pub open spec fn pack(regs: Registers) -> Seq<u32> {
    seq![regs.z1, regs.z2, regs.z3, 0u32]
}

/// Whatever the padding lane held, one transition leaves it zero; the
/// other lanes are the three register updates.
pub proof fn lemma_vector_step_lanes(z: Seq<u32>)
    requires
        z.len() == 4,
    ensures
        vector_step(z) == pack(Registers { z1: z[0], z2: z[1], z3: z[2] }.advance()),
{
    let pad = z[3];
    assert(lfsr_step(pad, 0, 0, 0, 0) == 0) by (bit_vector);
    assert(vector_step(z) =~= pack(Registers { z1: z[0], z2: z[1], z3: z[2] }.advance()));
}

/// One transition of the packed registers is the packed transition of
/// the registers, and both show the same word.
pub proof fn lemma_vector_step_is_scalar_step(regs: Registers)
    ensures
        vector_step(pack(regs)) == pack(regs.advance()),
        vector_output(pack(regs)) == regs.output(),
{
    lemma_vector_step_lanes(pack(regs));
}

/// Engine equivalence: from the same registers, the vector engine and the
/// scalar engine are in the same state after any number of transitions,
/// and so every word and every byte they give is the same.
pub proof fn lemma_vector_engine_is_scalar_engine(regs: Registers, n: nat)
    ensures
        vector_step_by(pack(regs), n) == pack(regs.advance_by(n)),
        vector_output(vector_step_by(pack(regs), n)) == regs.advance_by(n).output(),
    decreases n,
{
    if n > 0 {
        lemma_vector_engine_is_scalar_engine(regs, (n - 1) as nat);
        lemma_vector_step_is_scalar_step(regs.advance_by((n - 1) as nat));
    }
    lemma_vector_step_is_scalar_step(regs.advance_by(n));
}

/// A Taus88 generator that keeps its state in one four-lane vector.
///
/// Lanes 0 to 2 are the registers, at or above their minimums from
/// construction on; lane 3 is zero.
pub struct Taus88 {
    z: U32x4,
}

impl View for Taus88 {
    type V = Registers;

    closed spec fn view(&self) -> Registers {
        Registers { z1: self.z@[0], z2: self.z@[1], z3: self.z@[2] }
    }
}

impl Taus88 {
    #[verifier::type_invariant]
    spec fn seeded(self) -> bool {
        self.z@ == pack(self@) && self@.valid()
    }

    fn from_registers(regs: Registers) -> (rng: Self)
        requires
            regs.valid(),
        ensures
            rng@ == regs,
    {
        let z = U32x4::from_array([regs.z1, regs.z2, regs.z3, 0]);
        assert(z@ =~= pack(regs));
        Taus88 { z }
    }

    /// Strict seeding from three words. A word below its minimum
    /// (2, 8 and 16) is refused, not repaired.
    pub fn new(seed1: u32, seed2: u32, seed3: u32) -> (r: Result<Self, InvalidSeed>)
        ensures
            match r {
                Ok(rng) => first_below_minimum(seed1, seed2, seed3) is None && rng@ == (Registers {
                    z1: seed1,
                    z2: seed2,
                    z3: seed3,
                }) && rng@.valid(),
                Err(e) => first_below_minimum(seed1, seed2, seed3) == Some(e.word),
            },
    {
        match registers_from_words(seed1, seed2, seed3) {
            Ok(regs) => Ok(Self::from_registers(regs)),
            Err(e) => Err(e),
        }
    }

    /// Permissive seeding from twelve bytes: three little-endian words,
    /// each raised to its minimum where it is below.
    pub fn from_seed(seed: [u8; 12]) -> (rng: Self)
        ensures
            rng@ == seed_registers(seed@),
            rng@.valid(),
    {
        Self::from_registers(registers_from_seed(seed))
    }

    /// The current registers: lanes 0 to 2.
    pub fn registers(&self) -> (regs: Registers)
        ensures
            regs == self@,
            regs.valid(),
    {
        proof {
            use_type_invariant(self);
        }
        let lanes = self.z.to_array();
        Registers { z1: lanes[0], z2: lanes[1], z3: lanes[2] }
    }

    /// The current vector: the registers and the zero padding lane.
    pub fn lanes(&self) -> (lanes: [u32; 4])
        ensures
            lanes@ == pack(self@),
    {
        proof {
            use_type_invariant(self);
        }
        self.z.to_array()
    }

    /// Draws a word: one transition of the vector, then the xor of
    /// lanes 0 to 2.
    pub fn next_u32(&mut self) -> (w: u32)
        ensures
            pack(final(self)@) == vector_step(pack(old(self)@)),
            w == vector_output(pack(final(self)@)),
            (final(self)@, w) == old(self)@.draw32(),
            final(self)@.valid(),
    {
        proof {
            use_type_invariant(&*self);
            lemma_advance_keeps_valid(self@);
            lemma_vector_step_is_scalar_step(self@);
            lemma_vector_step_is_scalar_step(self@.advance());
        }
        let mask = U32x4::from_array([0xFFFF_FFFE, 0xFFFF_FFF8, 0xFFFF_FFF0, 0]);
        let shift1_l = U32x4::from_array([12, 4, 17, 0]);
        let shift2_l = U32x4::from_array([13, 2, 3, 0]);
        let shift2_r = U32x4::from_array([19, 25, 11, 0]);
        proof {
            assert(mask@ =~= lane_masks());
            assert(shift1_l@ =~= lane_shl_masked());
            assert(shift2_l@ =~= lane_shl_feed());
            assert(shift2_r@ =~= lane_shr_feed());
        }

        let z = self.z;
        let term1 = z.and(mask).shl(shift1_l);
        let term2_1 = z.shl(shift2_l);
        let term2_2 = term2_1.xor(z).shr(shift2_r);
        let new_z = term1.xor(term2_2);
        self.z = new_z;

        let new_z_lanes = new_z.to_array();
        new_z_lanes[0] ^ new_z_lanes[1] ^ new_z_lanes[2]
    }

    /// Draws 64 bits: two words in a row, the first in the upper half.
    pub fn next_u64(&mut self) -> (w: u64)
        ensures
            (final(self)@, w) == old(self)@.draw64(),
            final(self)@.valid(),
    {
        let hi: u32 = self.next_u32();
        let lo: u32 = self.next_u32();
        ((hi as u64) << 32) | (lo as u64)
    }

    /// Fills `dest` from the stream: word after word, each least
    /// significant byte first. Where the length is no multiple of four,
    /// the last word gives its low-order bytes and the rest of it is
    /// dropped. The state moves on by one transition per word drawn.
    ///
    /// Twelve bytes or more are never all zero.
    pub fn fill_bytes(&mut self, dest: &mut [u8])
        ensures
            final(dest)@ == old(self)@.stream_bytes(old(dest)@.len()),
            final(self)@ == old(self)@.advance_by(words_for(old(dest)@.len())),
            final(self)@.valid(),
            old(dest)@.len() >= 12 ==> exists|i: int|
                0 <= i < old(dest)@.len() && final(dest)@[i] != 0,
    {
        proof {
            use_type_invariant(&*self);
            lemma_advance_by_keeps_valid(self@, words_for(dest@.len()));
            if dest@.len() >= 12 {
                lemma_sample_not_all_zero(self@, dest@.len());
            }
        }
        fill(self, dest);
    }
}

impl WordSource for Taus88 {
    open spec fn state(&self) -> Registers {
        self@
    }

    fn draw32(&mut self) -> (w: u32) {
        self.next_u32()
    }
}

} // verus!
