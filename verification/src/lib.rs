//! Rules engine for a two-player subtraction ("pebbles") game between a
//! human player and an automated opponent.
//!
//! The engine owns the authoritative [`types::GameState`], decides who moves
//! first by a coin flip drawn from a [`rng::RandomSource`], validates and
//! applies human moves, computes the automated counter-move at one of two
//! difficulty levels, and detects the win condition. Every operation returns
//! the events it produced; delivering them to a caller is the transport
//! shell's concern.

pub mod types;
pub mod rng;
pub mod engine;
pub mod laws;
