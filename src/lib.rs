//! Guessing logic and console rendering for a five-letter word game.
//!
//! The library decides; the host performs. Word lists are parsed from text,
//! guesses are checked against the rules of a round, and every screen update
//! is returned as a list of console operations for the host to carry out.
pub mod config;
pub mod console;
pub mod feedback;
pub mod guess;
pub mod round;
pub mod words;
pub mod text;
