//! A small console game: a loading screen, an unlock mini-game driven by a
//! timed button sequence, and a lobby that derives words and a secret code
//! from a seed.
//!
//! The library holds the game's logic. Reading the gamepad and drawing text
//! belong to the host; the library takes the gamepad bitmask as a value and
//! describes each frame as a list of text items.

pub mod game;
pub mod input;
pub mod lobby;
pub mod random;
pub mod screen;
pub mod unlock;
