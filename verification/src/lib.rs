//! Deterministic world generation and tick-indexed state history for a
//! multiplayer session core: every participant derives an identical world
//! from a shared 64-bit seed, and per-entity position history is kept in
//! fixed-capacity ring buffers fed by local prediction and network events.

pub mod buffer;
pub mod components;
pub mod lifecycle;
pub mod rng;
pub mod sync;
pub mod worldgen;
pub mod worldmap;
