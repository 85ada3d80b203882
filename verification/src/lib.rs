#![allow(unused_imports)]

//! Taus88, the three-register Tausworthe generator: 32-bit words from a
//! 96-bit state, reproducible from a 12-byte seed. Not cryptographically
//! secure.
//!
//! `model` says what the generator is; `scalar` and `simd` are two
//! engines that compute it and are proved to give the same stream;
//! `seed` and `emit` are the seeding and byte emission that both share;
//! `lemmas` holds what is proved of the stream itself. `Taus88` at the
//! root is the scalar engine.

pub mod emit;
pub mod lanes;
pub mod lemmas;
pub mod model;
pub mod scalar;
pub mod seed;
pub mod simd;

pub use crate::scalar::Taus88;
