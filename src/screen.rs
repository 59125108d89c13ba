//! What a frame shows, as a list of text items for the host to render.

use vstd::prelude::*;

use crate::input::Glyph;

verus! {

/// The width of one character cell, in pixels.
pub const CHAR_WIDTH: i32 = 8;

/// One piece of text.
#[derive(Clone, Copy, Debug, PartialEq, Eq)]
pub enum Piece {
    /// Plain ASCII text.
    Text(&'static str),
    /// A single ASCII character.
    Char(u8),
    /// A button icon.
    Icon(Glyph),
    /// The dictionary word with this index.
    Word(usize),
}

/// A piece of text drawn with its top left corner at pixel (`x`, `y`).
#[derive(Clone, Copy, Debug, PartialEq, Eq)]
pub struct DrawText {
    pub x: i32,
    pub y: i32,
    pub piece: Piece,
}

pub open spec fn item(x: i32, y: i32, piece: Piece) -> DrawText {
    DrawText { x, y, piece }
}

/// "Press <icon><tail>", starting at (`x`, `y`).
pub open spec fn press_line_spec(x: i32, y: i32, icon: Glyph, tail: &'static str) -> Seq<DrawText> {
    seq![
        item(x, y, Piece::Text("Press ")),
        item((x + 6 * CHAR_WIDTH) as i32, y, Piece::Icon(icon)),
        item((x + 7 * CHAR_WIDTH) as i32, y, Piece::Text(tail)),
    ]
}

/// Appends "Press <icon><tail>" at (`x`, `y`) to `out`.
pub fn push_press_line(out: &mut Vec<DrawText>, x: i32, y: i32, icon: Glyph, tail: &'static str)
    requires
        x <= i32::MAX - 7 * CHAR_WIDTH,
    ensures
        final(out)@ == old(out)@ + press_line_spec(x, y, icon, tail),
{
    out.push(DrawText { x, y, piece: Piece::Text("Press ") });
    out.push(DrawText { x: x + 6 * CHAR_WIDTH, y, piece: Piece::Icon(icon) });
    out.push(DrawText { x: x + 7 * CHAR_WIDTH, y, piece: Piece::Text(tail) });
}

} // verus!
