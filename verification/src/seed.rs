//! Seeding: from raw seed material to a state that cannot collapse.
//!
//! Two disciplines. Twelve seed bytes are always accepted: a word below
//! its minimum is raised to it. Three explicit words are checked and
//! refused if any is below its minimum.

use crate::model::{Registers, MIN_Z1, MIN_Z2, MIN_Z3};
use vstd::prelude::*;

verus! {

/// Length of the seed in bytes: three words of four.
pub const SEED_LEN: usize = 12;

/// A seed word below the minimum of its register.
#[derive(Clone, Copy, Debug, PartialEq, Eq, Structural)]
pub struct InvalidSeed {
    /// Which word was refused: 1, 2 or 3. Where several are too small,
    /// the first of them.
    pub word: u8,
}

/// The 32-bit word that the four bytes from `at` on encode, least
/// significant byte first.
pub open spec fn le_word(bytes: Seq<u8>, at: int) -> u32 {
    (bytes[at] as u32) | ((bytes[at + 1] as u32) << 8) | ((bytes[at + 2] as u32) << 16) | ((bytes[at
        + 3] as u32) << 24)
}

/// `w`, raised to `min` where it is below.
pub open spec fn promote(w: u32, min: u32) -> u32 {
    if w < min {
        min
    } else {
        w
    }
}

/// The state that twelve seed bytes stand for: three little-endian words
/// at offsets 0, 4 and 8, each raised to its register's minimum.
pub open spec fn seed_registers(seed: Seq<u8>) -> Registers {
    Registers {
        z1: promote(le_word(seed, 0), MIN_Z1),
        z2: promote(le_word(seed, 4), MIN_Z2),
        z3: promote(le_word(seed, 8), MIN_Z3),
    }
}

/// The first of three seed words that is below its minimum, if any.
pub open spec fn first_below_minimum(seed1: u32, seed2: u32, seed3: u32) -> Option<u8> {
    if seed1 < MIN_Z1 {
        Some(1u8)
    } else if seed2 < MIN_Z2 {
        Some(2u8)
    } else if seed3 < MIN_Z3 {
        Some(3u8)
    } else {
        None
    }
}

/// Reads the little-endian word at byte offset `at` of a seed.
fn read_word(seed: &[u8; 12], at: usize) -> (w: u32)
    requires
        at + 4 <= SEED_LEN,
    ensures
        w == le_word(seed@, at as int),
{
    (seed[at] as u32) | ((seed[at + 1] as u32) << 8) | ((seed[at + 2] as u32) << 16) | ((seed[at
        + 3] as u32) << 24)
}

/// Raises `w` to `min` where it is below.
fn at_least(w: u32, min: u32) -> (r: u32)
    ensures
        r == promote(w, min),
{
    if w < min {
        min
    } else {
        w
    }
}

/// Permissive seeding: any twelve bytes give a valid state.
pub fn registers_from_seed(seed: [u8; 12]) -> (r: Registers)
    ensures
        r == seed_registers(seed@),
        r.valid(),
{
    let s1 = read_word(&seed, 0);
    let s2 = read_word(&seed, 4);
    let s3 = read_word(&seed, 8);
    Registers { z1: at_least(s1, MIN_Z1), z2: at_least(s2, MIN_Z2), z3: at_least(s3, MIN_Z3) }
}

/// Strict seeding: the three words as they are, or the first that is
/// below its minimum.
pub fn registers_from_words(seed1: u32, seed2: u32, seed3: u32) -> (r: Result<
    Registers,
    InvalidSeed,
>)
    ensures
        match r {
            Ok(regs) => first_below_minimum(seed1, seed2, seed3) is None && regs == (Registers {
                z1: seed1,
                z2: seed2,
                z3: seed3,
            }) && regs.valid(),
            Err(e) => first_below_minimum(seed1, seed2, seed3) == Some(e.word),
        },
{
    if seed1 < MIN_Z1 {
        Err(InvalidSeed { word: 1 })
    } else if seed2 < MIN_Z2 {
        Err(InvalidSeed { word: 2 })
    } else if seed3 < MIN_Z3 {
        Err(InvalidSeed { word: 3 })
    } else {
        Ok(Registers { z1: seed1, z2: seed2, z3: seed3 })
    }
}

} // verus!
