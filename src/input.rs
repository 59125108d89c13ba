//! Gamepad buttons, the keys of the unlock challenge and their icons.

use vstd::prelude::*;

verus! {

/// The primary action button.
pub const BUTTON_1: u8 = 1;

/// The secondary action button.
pub const BUTTON_2: u8 = 2;

pub const BUTTON_LEFT: u8 = 16;

pub const BUTTON_RIGHT: u8 = 32;

pub const BUTTON_UP: u8 = 64;

pub const BUTTON_DOWN: u8 = 128;

/// How many distinct keys a challenge step can ask for.
pub const NUM_KEYS: usize = 6;

/// An icon that the host's text renderer draws in place of a character.
#[derive(Clone, Copy, Debug, PartialEq, Eq, Structural)]
pub enum Glyph {
    Primary,
    Secondary,
    Left,
    Right,
    Up,
    Down,
}

/// The button bit of key `k`.
pub open spec fn key_button_spec(k: int) -> u8 {
    if k == 0 {
        BUTTON_1
    } else if k == 1 {
        BUTTON_2
    } else if k == 2 {
        BUTTON_LEFT
    } else if k == 3 {
        BUTTON_RIGHT
    } else if k == 4 {
        BUTTON_UP
    } else {
        BUTTON_DOWN
    }
}

/// The icon of key `k`.
pub open spec fn key_glyph_spec(k: int) -> Glyph {
    if k == 0 {
        Glyph::Primary
    } else if k == 1 {
        Glyph::Secondary
    } else if k == 2 {
        Glyph::Left
    } else if k == 3 {
        Glyph::Right
    } else if k == 4 {
        Glyph::Up
    } else {
        Glyph::Down
    }
}

/// Whether `button` is held in the bitmask `gamepad`.
pub open spec fn is_held(gamepad: u8, button: u8) -> bool {
    gamepad & button != 0
}

pub fn key_button(k: usize) -> (b: u8)
    requires
        k < NUM_KEYS,
    ensures
        b == key_button_spec(k as int),
{
    match k {
        0 => BUTTON_1,
        1 => BUTTON_2,
        2 => BUTTON_LEFT,
        3 => BUTTON_RIGHT,
        4 => BUTTON_UP,
        _ => BUTTON_DOWN,
    }
}

pub fn key_glyph(k: usize) -> (g: Glyph)
    requires
        k < NUM_KEYS,
    ensures
        g == key_glyph_spec(k as int),
{
    match k {
        0 => Glyph::Primary,
        1 => Glyph::Secondary,
        2 => Glyph::Left,
        3 => Glyph::Right,
        4 => Glyph::Up,
        _ => Glyph::Down,
    }
}

pub fn held(gamepad: u8, button: u8) -> (r: bool)
    ensures
        r == is_held(gamepad, button),
{
    gamepad & button != 0
}

} // verus!
