use vstd::prelude::*;

pub mod direction;
pub mod food;
pub mod grid;
pub mod obstacle;
pub mod player;
pub mod rng;
pub mod state;

verus! {

/// Width of the fixed display grid, in character cells.
pub const SCREEN_WIDTH: i32 = 80;

/// Height of the fixed display grid, in character cells.
pub const SCREEN_HEIGHT: i32 = 50;

} // verus!
