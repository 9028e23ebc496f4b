use vstd::prelude::*;

verus! {

/// One of the four headings the snake can take; each simulation step moves
/// the head one grid cell along the current heading.
#[derive(Clone, Copy, PartialEq, Eq, Structural, Debug)]
pub enum Direction {
    Right,
    Down,
    Left,
    Up,
}

/// Two headings are opposite when one undoes the other: right/left and
/// down/up, in either order. A heading is never opposite to itself.
pub open spec fn opposite(a: Direction, b: Direction) -> bool {
    match (a, b) {
        (Direction::Right, Direction::Left) => true,
        (Direction::Left, Direction::Right) => true,
        (Direction::Down, Direction::Up) => true,
        (Direction::Up, Direction::Down) => true,
        _ => false,
    }
}

impl Direction {
    /// True exactly for the four reversing pairs; false for every other
    /// pair, a heading compared with itself included. Used to reject a
    /// requested turn that would reverse the snake into its own body.
    pub fn is_opposite(&self, other: &Direction) -> (r: bool)
        ensures
            r == opposite(*self, *other),
    {
        match (self, other) {
            (Direction::Right, Direction::Left) => true,
            (Direction::Left, Direction::Right) => true,
            (Direction::Down, Direction::Up) => true,
            (Direction::Up, Direction::Down) => true,
            _ => false,
        }
    }
}

/// The opposite-direction relation is symmetric: whichever order two
/// headings are compared in, the answer is the same.
pub proof fn lemma_opposite_symmetric(a: Direction, b: Direction)
    ensures
        opposite(a, b) == opposite(b, a),
{
}

/// No heading is its own opposite.
pub proof fn lemma_opposite_irreflexive(a: Direction)
    ensures
        !opposite(a, a),
{
}

} // verus!
