use vstd::prelude::*;

use crate::grid::{Cell, Color};
use crate::player::Player;
use crate::{SCREEN_HEIGHT, SCREEN_WIDTH};

verus! {

/// The arena boundary: a fixed inclusive rectangle (x1, y1)-(x2, y2)
/// strictly inside the display. Constant for the lifetime of a round and
/// recreated identically on restart.
pub struct Obstacle {
    pub x1: i32,
    pub x2: i32,
    pub y1: i32,
    pub y2: i32,
}

/// A well-formed arena rectangle: both corners in order and strictly
/// inside the display bounds.
pub open spec fn rect_wf(o: Obstacle) -> bool {
    &&& 0 <= o.x1 < o.x2 < SCREEN_WIDTH
    &&& 0 <= o.y1 < o.y2 < SCREEN_HEIGHT
}

/// The border cells a well-formed rectangle is drawn as: first the two
/// vertical lines, one cell pair per row from y1 to y2 (left then right),
/// then the two horizontal lines, one cell pair per column from x1 to x2
/// (top then bottom). Corners appear in both passes on purpose.
pub open spec fn is_border_cells(o: Obstacle, cells: Seq<Cell>) -> bool {
    let vert = 2 * (o.y2 - o.y1 + 1);
    let horiz = 2 * (o.x2 - o.x1 + 1);
    &&& cells.len() == vert + horiz
    &&& forall|k: int|
        0 <= k < vert ==> cells[k] == (Cell {
            x: if k % 2 == 0 {
                o.x1
            } else {
                o.x2
            },
            y: ((o.y1 + k / 2) as i32),
            fg: Color::Red,
            bg: Color::Black,
            glyph: '|',
        })
    &&& forall|k: int|
        vert <= k < vert + horiz ==> cells[k] == (Cell {
            x: ((o.x1 + (k - vert) / 2) as i32),
            y: if (k - vert) % 2 == 0 {
                o.y1
            } else {
                o.y2
            },
            fg: Color::Red,
            bg: Color::Black,
            glyph: '-',
        })
}

impl Obstacle {
    /// True when the given position lies on or outside the boundary
    /// rectangle; touching a border line itself counts as a hit.
    pub open spec fn hit_spec(self, x: int, y: int) -> bool {
        x <= self.x1 || x >= self.x2 || y <= self.y1 || y >= self.y2
    }

    /// The arena for the fixed display: a two-cell margin on every side.
    pub fn new() -> (o: Obstacle)
        ensures
            o.x1 == 2,
            o.y1 == 2,
            o.x2 == SCREEN_WIDTH - 3,
            o.y2 == SCREEN_HEIGHT - 3,
            rect_wf(o),
    {
        Obstacle { x1: 2, x2: SCREEN_WIDTH - 3, y1: 2, y2: SCREEN_HEIGHT - 3 }
    }

    /// True exactly when the player's head is on or outside the boundary.
    pub fn hit_obstacle(&self, player: &Player) -> (r: bool)
        ensures
            r == self.hit_spec(player.x as int, player.y as int),
    {
        player.x <= self.x1 || player.x >= self.x2 || player.y <= self.y1 || player.y >= self.y2
    }

    /// The cells to draw for the border: red glyphs, vertical bars along
    /// both side walls, dashes along the top and bottom walls.
    pub fn render(&self) -> (cells: Vec<Cell>)
        requires
            rect_wf(*self),
        ensures
            is_border_cells(*self, cells@),
    {
        let mut cells: Vec<Cell> = Vec::new();
        let mut y: i32 = self.y1;
        while y <= self.y2
            invariant
                rect_wf(*self),
                self.y1 <= y <= self.y2 + 1,
                cells@.len() == 2 * (y - self.y1),
                forall|k: int|
                    0 <= k < cells@.len() ==> cells@[k] == (Cell {
                        x: if k % 2 == 0 {
                            self.x1
                        } else {
                            self.x2
                        },
                        y: ((self.y1 + k / 2) as i32),
                        fg: Color::Red,
                        bg: Color::Black,
                        glyph: '|',
                    }),
            decreases self.y2 + 1 - y,
        {
            cells.push(Cell { x: self.x1, y, fg: Color::Red, bg: Color::Black, glyph: '|' });
            cells.push(Cell { x: self.x2, y, fg: Color::Red, bg: Color::Black, glyph: '|' });
            y = y + 1;
        }
        let ghost vert = 2 * (self.y2 - self.y1 + 1) as int;
        let mut x: i32 = self.x1;
        while x <= self.x2
            invariant
                rect_wf(*self),
                self.x1 <= x <= self.x2 + 1,
                cells@.len() == vert + 2 * (x - self.x1),
                vert == 2 * (self.y2 - self.y1 + 1),
                forall|k: int|
                    0 <= k < vert ==> cells@[k] == (Cell {
                        x: if k % 2 == 0 {
                            self.x1
                        } else {
                            self.x2
                        },
                        y: ((self.y1 + k / 2) as i32),
                        fg: Color::Red,
                        bg: Color::Black,
                        glyph: '|',
                    }),
                forall|k: int|
                    vert <= k < cells@.len() ==> cells@[k] == (Cell {
                        x: ((self.x1 + (k - vert) / 2) as i32),
                        y: if (k - vert) % 2 == 0 {
                            self.y1
                        } else {
                            self.y2
                        },
                        fg: Color::Red,
                        bg: Color::Black,
                        glyph: '-',
                    }),
            decreases self.x2 + 1 - x,
        {
            cells.push(Cell { x, y: self.y1, fg: Color::Red, bg: Color::Black, glyph: '-' });
            cells.push(Cell { x, y: self.y2, fg: Color::Red, bg: Color::Black, glyph: '-' });
            x = x + 1;
        }
        cells
    }
}

/// The boundary test is inclusive: a position whose coordinate equals one
/// of the border lines hits, and every position strictly between all four
/// lines does not.
pub proof fn lemma_hit_boundary_inclusive(o: Obstacle, x: int, y: int)
    ensures
        (x == o.x1 || x == o.x2 || y == o.y1 || y == o.y2) ==> o.hit_spec(x, y),
        (o.x1 < x < o.x2 && o.y1 < y < o.y2) ==> !o.hit_spec(x, y),
{
}

/// Rendering the border is deterministic: any two cell sequences drawn
/// for the same rectangle are equal, because the rectangle alone fixes
/// every cell.
pub proof fn lemma_border_cells_deterministic(o: Obstacle, c1: Seq<Cell>, c2: Seq<Cell>)
    requires
        is_border_cells(o, c1),
        is_border_cells(o, c2),
    ensures
        c1 == c2,
{
    assert(c1 =~= c2);
}

} // verus!
