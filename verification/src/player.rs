use vstd::prelude::*;

use crate::direction::Direction;
use crate::grid::{Cell, Color};

verus! {

/// The snake: a head at (x, y), a current heading, the trailing body
/// segments ordered by distance from the head (head-adjacent first), and a
/// pending-growth flag that adds one segment on the next movement step.
pub struct Player {
    pub x: i32,
    pub y: i32,
    pub dir: Direction,
    pub head: char,
    pub body: Vec<(i32, i32)>,
    pub grow: bool,
}

/// The head's x coordinate after one step along `dir`.
pub open spec fn step_x(x: int, dir: Direction) -> int {
    match dir {
        Direction::Right => x + 1,
        Direction::Left => x - 1,
        _ => x,
    }
}

/// The head's y coordinate after one step along `dir`.
pub open spec fn step_y(y: int, dir: Direction) -> int {
    match dir {
        Direction::Down => y + 1,
        Direction::Up => y - 1,
        _ => y,
    }
}

/// The body after one movement step whose pre-move head stood at
/// `old_head`. With growth pending the former head becomes the first
/// segment and every old segment keeps trailing, so the body gains one
/// segment at the tail; without it each segment takes its predecessor's
/// place and the last position is dropped. An empty body stays empty.
pub open spec fn shifted_body(
    body: Seq<(i32, i32)>,
    old_head: (i32, i32),
    grow: bool,
) -> Seq<(i32, i32)> {
    if grow {
        seq![old_head] + body
    } else if body.len() > 0 {
        seq![old_head] + body.drop_last()
    } else {
        body
    }
}

/// The cell drawn for the head or for one body segment: the snake's glyph
/// in yellow on black.
pub open spec fn segment_cell(glyph: char, seg: (i32, i32)) -> Cell {
    Cell { x: seg.0, y: seg.1, fg: Color::Yellow, bg: Color::Black, glyph: glyph }
}

/// All cells drawn for a player: the head first, then every body segment
/// in order.
pub open spec fn player_cells(p: Player) -> Seq<Cell> {
    seq![segment_cell(p.head, (p.x, p.y))]
        + p.body@.map_values(|seg: (i32, i32)| segment_cell(p.head, seg))
}

impl Player {
    /// True when the head occupies the same cell as some body segment.
    pub open spec fn self_collision(self) -> bool {
        exists|i: int| 0 <= i < self.body@.len() && self.body@[i] == (self.x, self.y)
    }

    /// A fresh snake: head only, no body, no growth pending, drawn as a
    /// solid block.
    pub fn new(x: i32, y: i32, dir: Direction) -> (p: Player)
        ensures
            p.x == x,
            p.y == y,
            p.dir == dir,
            p.head == '█',
            p.body@ =~= Seq::<(i32, i32)>::empty(),
            p.grow == false,
    {
        Player { x, y, dir, head: '█', body: Vec::new(), grow: false }
    }

    /// Advances the head one cell along the current heading and shifts the
    /// body behind it; applies and clears any pending growth, so at most
    /// one segment is added per step.
    pub fn move_player(&mut self)
        requires
            i32::MIN < old(self).x < i32::MAX,
            i32::MIN < old(self).y < i32::MAX,
        ensures
            final(self).x as int == step_x(old(self).x as int, old(self).dir),
            final(self).y as int == step_y(old(self).y as int, old(self).dir),
            final(self).dir == old(self).dir,
            final(self).head == old(self).head,
            final(self).grow == false,
            final(self).body@ == shifted_body(
                old(self).body@,
                (old(self).x, old(self).y),
                old(self).grow,
            ),
    {
        let old_head = (self.x, self.y);
        match self.dir {
            Direction::Right => self.x = self.x + 1,
            Direction::Left => self.x = self.x - 1,
            Direction::Down => self.y = self.y + 1,
            Direction::Up => self.y = self.y - 1,
        }
        if self.grow {
            self.body.push(old_head);
            self.grow = false;
        }
        if self.body.len() > 0 {
            let mut shifted: Vec<(i32, i32)> = Vec::new();
            shifted.push(old_head);
            let mut i: usize = 0;
            while i < self.body.len() - 1
                invariant
                    self.body.len() > 0,
                    i <= self.body@.len() - 1,
                    shifted@ == seq![old_head] + self.body@.take(i as int),
                decreases self.body@.len() - 1 - i,
            {
                let seg = self.body[i];
                proof {
                    assert(seq![old_head] + self.body@.take(i as int + 1) =~= (seq![old_head]
                        + self.body@.take(i as int)).push(self.body@[i as int]));
                }
                shifted.push(seg);
                i = i + 1;
            }
            proof {
                assert(self.body@.take(self.body@.len() - 1) =~= self.body@.drop_last());
            }
            self.body = shifted;
        }
        proof {
            if old(self).grow {
                assert(seq![old_head] + (old(self).body@ + seq![old_head]).drop_last() =~= seq![
                    old_head,
                ] + old(self).body@);
            }
        }
    }

    /// Requests one segment of growth at the next movement step. Repeated
    /// requests before that step collapse into one: the flag is a single
    /// boolean, not a counter.
    pub fn grow(&mut self)
        ensures
            final(self).grow == true,
            final(self).x == old(self).x,
            final(self).y == old(self).y,
            final(self).dir == old(self).dir,
            final(self).head == old(self).head,
            final(self).body@ == old(self).body@,
    {
        self.grow = true;
    }

    /// True exactly when the head's cell equals some body segment's cell.
    pub fn check_collision(&self) -> (r: bool)
        ensures
            r == self.self_collision(),
    {
        let mut i: usize = 0;
        while i < self.body.len()
            invariant
                i <= self.body@.len(),
                forall|k: int| 0 <= k < i ==> self.body@[k] != (self.x, self.y),
            decreases self.body@.len() - i,
        {
            let (bx, by) = self.body[i];
            if self.x == bx && self.y == by {
                return true;
            }
            i = i + 1;
        }
        false
    }

    /// All cells to draw for the snake: the head glyph at the head's
    /// position and the same glyph at every body segment, in body order.
    pub fn render(&self) -> (cells: Vec<Cell>)
        ensures
            cells@ == player_cells(*self),
    {
        let mut cells: Vec<Cell> = Vec::new();
        cells.push(
            Cell { x: self.x, y: self.y, fg: Color::Yellow, bg: Color::Black, glyph: self.head },
        );
        let mut i: usize = 0;
        while i < self.body.len()
            invariant
                i <= self.body@.len(),
                cells@.len() == i + 1,
                cells@[0] == segment_cell(self.head, (self.x, self.y)),
                forall|k: int|
                    0 <= k < i ==> cells@[k + 1] == segment_cell(self.head, self.body@[k]),
            decreases self.body@.len() - i,
        {
            let (bx, by) = self.body[i];
            cells.push(Cell { x: bx, y: by, fg: Color::Yellow, bg: Color::Black, glyph: self.head });
            i = i + 1;
        }
        proof {
            assert(cells@ =~= player_cells(*self));
        }
        cells
    }
}

/// Growth followed by exactly one movement step adds exactly one body
/// segment, however often growth was requested in between: the pending
/// flag is a single boolean.
pub proof fn lemma_grow_then_move_adds_one(body: Seq<(i32, i32)>, old_head: (i32, i32))
    ensures
        shifted_body(body, old_head, true).len() == body.len() + 1,
{
}

/// A movement step without pending growth keeps the body length, makes the
/// former head the first segment, and hands every other segment its
/// predecessor's prior position.
pub proof fn lemma_move_without_growth_shifts(body: Seq<(i32, i32)>, old_head: (i32, i32))
    requires
        body.len() > 0,
    ensures
        shifted_body(body, old_head, false).len() == body.len(),
        shifted_body(body, old_head, false)[0] == old_head,
        forall|i: int|
            1 <= i < body.len() ==> shifted_body(body, old_head, false)[i] == body[i - 1],
{
}

} // verus!
