use vstd::prelude::*;

use crate::grid::{Cell, Color};
use crate::rng::rng_range;
use crate::{SCREEN_HEIGHT, SCREEN_WIDTH};

verus! {

/// A single pickup on the grid. At most one exists at a time; eating it
/// replaces it with a freshly sampled one.
pub struct Food {
    pub x: i32,
    pub y: i32,
}

impl Food {
    /// The region fresh food is sampled from: strictly inside the arena
    /// border, with a margin of one further cell on every side.
    pub open spec fn in_spawn_range(self) -> bool {
        &&& 3 <= self.x < SCREEN_WIDTH - 4
        &&& 3 <= self.y < SCREEN_HEIGHT - 4
    }

    /// Samples a position uniformly and independently per axis from the
    /// spawn region. The snake's body is not avoided on purpose: food may
    /// land under a segment.
    pub fn new(rng: &mut bracket_random::prelude::RandomNumberGenerator) -> (f: Food)
        ensures
            f.in_spawn_range(),
    {
        let x = rng_range(rng, 3, SCREEN_WIDTH - 4);
        let y = rng_range(rng, 3, SCREEN_HEIGHT - 4);
        Food { x, y }
    }

    /// Places food at a chosen position, bypassing the random draw.
    pub fn at(x: i32, y: i32) -> (f: Food)
        ensures
            f.x == x,
            f.y == y,
    {
        Food { x, y }
    }

    /// The one cell to draw for this food: its position, a yellow block
    /// glyph on black.
    pub fn render(&self) -> (c: Cell)
        ensures
            c == (Cell { x: self.x, y: self.y, fg: Color::Yellow, bg: Color::Black, glyph: '█' }),
    {
        Cell { x: self.x, y: self.y, fg: Color::Yellow, bg: Color::Black, glyph: '█' }
    }
}

} // verus!
