//! Deterministic core of a spinning-top battle game: value types, hashing,
//! RNG, input packing, save format, garage, screen flow, music scheduling
//! and the byte formats (PNG, WAV, PE import tables) the game reads and writes.
use vstd::prelude::*;

pub mod ai;
pub mod audio;
pub mod combat;
pub mod domain;
pub mod flow;
pub mod garage;
pub mod golden;
pub mod hash;
pub mod input;
pub mod minigame;
pub mod pe;
pub mod physics;
pub mod png;
pub mod rng;
pub mod roster;
pub mod save;
pub mod session;
pub mod wav;

verus! {
}
