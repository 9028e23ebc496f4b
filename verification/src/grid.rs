use vstd::prelude::*;

verus! {

/// The palette the game draws with. The display driver maps each name to
/// its backend's colour representation.
#[derive(Clone, Copy, PartialEq, Eq, Structural, Debug)]
pub enum Color {
    Yellow,
    Red,
    Black,
    Navy,
}

/// One character cell to draw: grid position, foreground and background
/// colours, and the glyph to place there.
#[derive(Clone, Copy, PartialEq, Eq, Structural, Debug)]
pub struct Cell {
    pub x: i32,
    pub y: i32,
    pub fg: Color,
    pub bg: Color,
    pub glyph: char,
}

} // verus!
