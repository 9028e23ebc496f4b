use vstd::prelude::*;

use crate::direction::{opposite, Direction};
use crate::food::Food;
use crate::obstacle::Obstacle;
use crate::player::{shifted_body, step_x, step_y, Player};
use crate::{SCREEN_HEIGHT, SCREEN_WIDTH};

verus! {

/// How long the frame-time accumulator must run before the snake advances
/// one cell, in microseconds. Movement cadence is decoupled from the
/// render rate this way.
pub const FRAME_DURATION_MICROS: u64 = 75000;

/// The three top-level modes. The mode alone decides what a tick does.
#[derive(Clone, Copy, PartialEq, Eq, Structural, Debug)]
pub enum GameMode {
    Menu,
    Playing,
    End,
}

/// The keys the game reacts to: the four movement keys, the play/start
/// key and the quit key. The driver maps every other key to no event.
#[derive(Clone, Copy, PartialEq, Eq, Structural, Debug)]
pub enum GameKey {
    Up,
    Down,
    Left,
    Right,
    Play,
    Quit,
}

/// The whole game: the snake, the arena, the food, the score, the
/// frame-time accumulator and the current mode. One instance is owned by
/// the display driver and ticked once per rendered frame.
pub struct State {
    pub player: Player,
    pub frame_time: u64,
    pub obstacle: Obstacle,
    pub food: Food,
    pub mode: GameMode,
    pub score: i32,
}

/// The candidate heading a key requests, if it is a movement key.
pub open spec fn key_direction(k: GameKey) -> Option<Direction> {
    match k {
        GameKey::Left => Some(Direction::Left),
        GameKey::Right => Some(Direction::Right),
        GameKey::Up => Some(Direction::Up),
        GameKey::Down => Some(Direction::Down),
        _ => None,
    }
}

/// The heading after input handling: a movement key replaces the current
/// heading unless it is its exact opposite, which would reverse the snake
/// into its own body; anything else leaves the heading alone.
pub open spec fn applied_direction(cur: Direction, key: Option<GameKey>) -> Direction {
    match key {
        Some(k) => match key_direction(k) {
            Some(nd) => if opposite(cur, nd) {
                cur
            } else {
                nd
            },
            None => cur,
        },
        None => cur,
    }
}

impl State {
    /// A well-formed game: the standard arena, a bounded accumulator, a
    /// non-negative score, food inside its spawn region, and, while
    /// playing, a snake head strictly inside the arena.
    pub open spec fn wf(self) -> bool {
        &&& self.obstacle.x1 == 2
        &&& self.obstacle.y1 == 2
        &&& self.obstacle.x2 == SCREEN_WIDTH - 3
        &&& self.obstacle.y2 == SCREEN_HEIGHT - 3
        &&& 0 <= self.score
        &&& self.frame_time <= FRAME_DURATION_MICROS
        &&& self.food.in_spawn_range()
        &&& self.mode == GameMode::Playing ==> {
            &&& self.obstacle.x1 < self.player.x < self.obstacle.x2
            &&& self.obstacle.y1 < self.player.y < self.obstacle.y2
        }
    }

    /// Whether this tick's elapsed time pushes the accumulator past the
    /// cadence threshold, advancing the simulation one step.
    pub open spec fn cadence_crossed(self, elapsed: u64) -> bool {
        self.frame_time + elapsed > FRAME_DURATION_MICROS
    }

    /// The head's x coordinate after this tick's movement, if any.
    pub open spec fn next_x(self, elapsed: u64) -> int {
        if self.cadence_crossed(elapsed) {
            step_x(self.player.x as int, self.player.dir)
        } else {
            self.player.x as int
        }
    }

    /// The head's y coordinate after this tick's movement, if any.
    pub open spec fn next_y(self, elapsed: u64) -> int {
        if self.cadence_crossed(elapsed) {
            step_y(self.player.y as int, self.player.dir)
        } else {
            self.player.y as int
        }
    }

    /// The body after this tick's movement, if any.
    pub open spec fn next_body(self, elapsed: u64) -> Seq<(i32, i32)> {
        if self.cadence_crossed(elapsed) {
            shifted_body(self.player.body@, (self.player.x, self.player.y), self.player.grow)
        } else {
            self.player.body@
        }
    }

    /// Whether growth is still pending after this tick's movement: a
    /// movement step consumes the flag, a tick without one keeps it.
    pub open spec fn next_grow_pending(self, elapsed: u64) -> bool {
        if self.cadence_crossed(elapsed) {
            false
        } else {
            self.player.grow
        }
    }

    /// Whether this tick ends the round: after the movement, the head is
    /// on or outside the boundary, or on one of its own body segments.
    pub open spec fn died(self, elapsed: u64) -> bool {
        ||| self.obstacle.hit_spec(self.next_x(elapsed), self.next_y(elapsed))
        ||| exists|i: int|
            0 <= i < self.next_body(elapsed).len() && self.next_body(elapsed)[i] == (
            ((self.next_x(elapsed)) as i32),
            ((self.next_y(elapsed)) as i32),
            )
    }

    /// Whether this tick's post-movement head lands exactly on the food.
    pub open spec fn ate(self, elapsed: u64) -> bool {
        self.next_x(elapsed) == self.food.x && self.next_y(elapsed) == self.food.y
    }

    /// A fresh game sitting at the menu: the standard snake and arena, a
    /// sampled food, score zero.
    pub fn new(rng: &mut bracket_random::prelude::RandomNumberGenerator) -> (s: State)
        ensures
            s.wf(),
            s.mode == GameMode::Menu,
            s.score == 0,
            s.frame_time == 0,
            s.player.x == 5,
            s.player.y == 25,
            s.player.dir == Direction::Right,
            s.player.body@.len() == 0,
            s.player.grow == false,
            s.player.head == '█',
            s.food.in_spawn_range(),
    {
        State {
            player: Player::new(5, 25, Direction::Right),
            frame_time: 0,
            obstacle: Obstacle::new(),
            food: Food::new(rng),
            mode: GameMode::Menu,
            score: 0,
        }
    }

    /// Begins a round: replaces the snake, arena and food with fresh
    /// ones, zeroes the score and the accumulator, and enters Playing.
    pub fn restart(&mut self, rng: &mut bracket_random::prelude::RandomNumberGenerator)
        ensures
            final(self).wf(),
            final(self).mode == GameMode::Playing,
            final(self).score == 0,
            final(self).frame_time == 0,
            final(self).player.x == 5,
            final(self).player.y == 25,
            final(self).player.dir == Direction::Right,
            final(self).player.body@.len() == 0,
            final(self).player.grow == false,
            final(self).player.head == '█',
            final(self).food.in_spawn_range(),
    {
        self.player = Player::new(5, 25, Direction::Right);
        self.frame_time = 0;
        self.obstacle = Obstacle::new();
        self.food = Food::new(rng);
        self.mode = GameMode::Playing;
        self.score = 0;
    }

    /// One playing tick: accumulate frame time and advance the snake when
    /// the cadence threshold is crossed; apply a requested turn unless it
    /// reverses the heading; end the round on a boundary hit or
    /// self-collision; on landing on the food, request growth, raise the
    /// score and sample a fresh food.
    pub fn play(
        &mut self,
        rng: &mut bracket_random::prelude::RandomNumberGenerator,
        elapsed: u64,
        key: Option<GameKey>,
    )
        requires
            old(self).wf(),
            old(self).mode == GameMode::Playing,
            old(self).score < i32::MAX,
            elapsed <= u64::MAX - FRAME_DURATION_MICROS,
        ensures
            final(self).wf(),
            final(self).obstacle == old(self).obstacle,
            final(self).player.x as int == old(self).next_x(elapsed),
            final(self).player.y as int == old(self).next_y(elapsed),
            final(self).player.body@ == old(self).next_body(elapsed),
            final(self).player.dir == applied_direction(old(self).player.dir, key),
            final(self).player.head == old(self).player.head,
            final(self).player.grow == (old(self).next_grow_pending(elapsed) || old(self).ate(
                elapsed,
            )),
            final(self).frame_time == if old(self).cadence_crossed(elapsed) {
                0u64
            } else {
                (old(self).frame_time + elapsed) as u64
            },
            final(self).mode == if old(self).died(elapsed) {
                GameMode::End
            } else {
                GameMode::Playing
            },
            final(self).score == old(self).score + if old(self).ate(elapsed) {
                1int
            } else {
                0int
            },
            old(self).ate(elapsed) ==> final(self).food.in_spawn_range(),
            !old(self).ate(elapsed) ==> final(self).food == old(self).food,
    {
        self.frame_time = self.frame_time + elapsed;
        if self.frame_time > FRAME_DURATION_MICROS {
            self.frame_time = 0;
            self.player.move_player();
        }
        if let Some(k) = key {
            let requested = match k {
                GameKey::Left => Some(Direction::Left),
                GameKey::Right => Some(Direction::Right),
                GameKey::Up => Some(Direction::Up),
                GameKey::Down => Some(Direction::Down),
                _ => None,
            };
            if let Some(new_dir) = requested {
                if !self.player.dir.is_opposite(&new_dir) {
                    self.player.dir = new_dir;
                }
            }
        }
        proof {
            assert(self.player.x == ((old(self).next_x(elapsed)) as i32));
            assert(self.player.y == ((old(self).next_y(elapsed)) as i32));
            assert(self.player.body@ == old(self).next_body(elapsed));
        }
        if self.obstacle.hit_obstacle(&self.player) {
            self.mode = GameMode::End;
        }
        if self.player.check_collision() {
            self.mode = GameMode::End;
        }
        if self.player.x == self.food.x && self.player.y == self.food.y {
            self.player.grow();
            self.score = self.score + 1;
            self.food = Food::new(rng);
        }
    }

    /// One menu tick: the play key starts a round, the quit key asks the
    /// driver to terminate, every other event leaves the game alone. The
    /// returned flag is the termination request.
    pub fn main_menu(
        &mut self,
        rng: &mut bracket_random::prelude::RandomNumberGenerator,
        key: Option<GameKey>,
    ) -> (quit: bool)
        requires
            old(self).wf(),
        ensures
            final(self).wf(),
            quit == (key == Some(GameKey::Quit)),
            key == Some(GameKey::Play) ==> {
                &&& final(self).mode == GameMode::Playing
                &&& final(self).score == 0
                &&& final(self).frame_time == 0
                &&& final(self).player.x == 5
                &&& final(self).player.y == 25
                &&& final(self).player.dir == Direction::Right
                &&& final(self).player.body@.len() == 0
                &&& final(self).player.grow == false
                &&& final(self).player.head == '█'
                &&& final(self).food.in_spawn_range()
            },
            key != Some(GameKey::Play) ==> *final(self) == *old(self),
    {
        let mut quit = false;
        if let Some(k) = key {
            match k {
                GameKey::Play => self.restart(rng),
                GameKey::Quit => quit = true,
                _ => {},
            }
        }
        quit
    }

    /// One death-screen tick: identical input handling to the menu; the
    /// score shown by the driver stays untouched until a restart.
    pub fn dead(
        &mut self,
        rng: &mut bracket_random::prelude::RandomNumberGenerator,
        key: Option<GameKey>,
    ) -> (quit: bool)
        requires
            old(self).wf(),
        ensures
            final(self).wf(),
            quit == (key == Some(GameKey::Quit)),
            key == Some(GameKey::Play) ==> {
                &&& final(self).mode == GameMode::Playing
                &&& final(self).score == 0
                &&& final(self).frame_time == 0
                &&& final(self).player.x == 5
                &&& final(self).player.y == 25
                &&& final(self).player.dir == Direction::Right
                &&& final(self).player.body@.len() == 0
                &&& final(self).player.grow == false
                &&& final(self).player.head == '█'
                &&& final(self).food.in_spawn_range()
            },
            key != Some(GameKey::Play) ==> *final(self) == *old(self),
    {
        let mut quit = false;
        if let Some(k) = key {
            match k {
                GameKey::Play => self.restart(rng),
                GameKey::Quit => quit = true,
                _ => {},
            }
        }
        quit
    }

    /// One frame: dispatches on the current mode alone. Returns the
    /// termination request the driver should honour.
    pub fn tick(
        &mut self,
        rng: &mut bracket_random::prelude::RandomNumberGenerator,
        elapsed: u64,
        key: Option<GameKey>,
    ) -> (quit: bool)
        requires
            old(self).wf(),
            old(self).score < i32::MAX,
            elapsed <= u64::MAX - FRAME_DURATION_MICROS,
        ensures
            final(self).wf(),
            old(self).mode != GameMode::Playing ==> {
                &&& quit == (key == Some(GameKey::Quit))
                &&& (key == Some(GameKey::Play) ==> {
                    &&& final(self).mode == GameMode::Playing
                    &&& final(self).score == 0
                    &&& final(self).frame_time == 0
                    &&& final(self).player.x == 5
                    &&& final(self).player.y == 25
                    &&& final(self).player.dir == Direction::Right
                    &&& final(self).player.body@.len() == 0
                    &&& final(self).player.grow == false
                    &&& final(self).player.head == '█'
                    &&& final(self).food.in_spawn_range()
                })
                &&& (key != Some(GameKey::Play) ==> *final(self) == *old(self))
            },
            old(self).mode == GameMode::Playing ==> {
                &&& !quit
                &&& final(self).obstacle == old(self).obstacle
                &&& final(self).player.x as int == old(self).next_x(elapsed)
                &&& final(self).player.y as int == old(self).next_y(elapsed)
                &&& final(self).player.body@ == old(self).next_body(elapsed)
                &&& final(self).player.dir == applied_direction(old(self).player.dir, key)
                &&& final(self).player.grow == (old(self).next_grow_pending(elapsed) || old(
                    self,
                ).ate(elapsed))
                &&& final(self).player.head == old(self).player.head
                &&& final(self).frame_time == if old(self).cadence_crossed(elapsed) {
                    0u64
                } else {
                    (old(self).frame_time + elapsed) as u64
                }
                &&& final(self).mode == if old(self).died(elapsed) {
                    GameMode::End
                } else {
                    GameMode::Playing
                }
                &&& final(self).score == old(self).score + if old(self).ate(elapsed) {
                    1int
                } else {
                    0int
                }
                &&& (old(self).ate(elapsed) ==> final(self).food.in_spawn_range())
                &&& (!old(self).ate(elapsed) ==> final(self).food == old(self).food)
            },
    {
        match self.mode {
            GameMode::Menu => self.main_menu(rng, key),
            GameMode::End => self.dead(rng, key),
            GameMode::Playing => {
                self.play(rng, elapsed, key);
                false
            },
        }
    }
}

/// A playing tick that crosses the cadence threshold moves the head
/// exactly one cell along the current heading, and, with no growth
/// pending, leaves the body length unchanged. Together with the tick's
/// own contract (the accumulator resets, and the score changes only when
/// the food is reached) this pins a plain movement step.
pub proof fn lemma_cadence_step_moves_one_cell(s: State, elapsed: u64)
    requires
        s.wf(),
        s.mode == GameMode::Playing,
        s.cadence_crossed(elapsed),
        !s.player.grow,
    ensures
        s.next_x(elapsed) == step_x(s.player.x as int, s.player.dir),
        s.next_y(elapsed) == step_y(s.player.y as int, s.player.dir),
        (if s.next_x(elapsed) >= s.player.x {
            s.next_x(elapsed) - s.player.x
        } else {
            s.player.x - s.next_x(elapsed)
        }) + (if s.next_y(elapsed) >= s.player.y {
            s.next_y(elapsed) - s.player.y
        } else {
            s.player.y - s.next_y(elapsed)
        }) == 1,
        s.next_body(elapsed).len() == s.player.body@.len(),
{
}

/// Landing on the food leaves the body length unchanged on that same tick
/// when no growth was already pending: the segment is only requested. It
/// appears on the following movement step, which carries the set flag and
/// so lengthens the body by exactly one. The tick's own contract adds the
/// rest: the score rises by one and a fresh food lies in the spawn region.
pub proof fn lemma_eating_grows_on_the_following_step(s: State, elapsed: u64)
    requires
        s.wf(),
        s.mode == GameMode::Playing,
        s.ate(elapsed),
        !s.player.grow,
    ensures
        s.next_body(elapsed).len() == s.player.body@.len(),
        shifted_body(
            s.next_body(elapsed),
            (((s.next_x(elapsed)) as i32), ((s.next_y(elapsed)) as i32)),
            true,
        ).len() == s.player.body@.len() + 1,
{
}

/// A playing tick whose movement puts the head on or outside the boundary
/// ends the round, and cannot be a food tick: the food lies strictly
/// inside the arena, so the tick's own contract leaves the score exactly
/// as it was, preserved for the death screen until a restart.
pub proof fn lemma_boundary_hit_ends_the_round(s: State, elapsed: u64)
    requires
        s.wf(),
        s.mode == GameMode::Playing,
        s.obstacle.hit_spec(s.next_x(elapsed), s.next_y(elapsed)),
    ensures
        s.died(elapsed),
        !s.ate(elapsed),
{
}

} // verus!
