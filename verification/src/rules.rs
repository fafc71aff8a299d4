//! The rules of the game as a mathematical model: a state, and the state
//! that each input and each tick leads to.

use crate::direction::{neighbour, Direction};
use crate::snake::{hits_any, hits_before_tail, stepped};
use vstd::prelude::*;

verus! {

/// Time between two forced moves, in microseconds.
pub const MOVING_PERIOD: u64 = 300_000;

/// A key press, by what it means to the game.
#[derive(Debug, Clone, Copy, PartialEq, Eq, Structural)]
pub enum Key {
    Up,
    Down,
    Left,
    Right,
    /// Toggles the pause.
    P,
    /// Starts the game afresh.
    R,
    /// Any other key.
    Other,
}

/// The direction that a key asks for, if it is a directional key.
pub open spec fn key_direction(key: Key) -> Option<Direction> {
    match key {
        Key::Up => Some(Direction::Up),
        Key::Down => Some(Direction::Down),
        Key::Left => Some(Direction::Left),
        Key::Right => Some(Direction::Right),
        _ => None,
    }
}

/// The key that asks for a direction.
pub open spec fn direction_key(d: Direction) -> Key {
    match d {
        Direction::Up => Key::Up,
        Direction::Down => Key::Down,
        Direction::Left => Key::Left,
        Direction::Right => Key::Right,
    }
}

/// Whether a cell keeps clear of the ends of the coordinate range, so that
/// each of its four neighbours is a cell too.
pub open spec fn has_neighbours(c: (i32, i32)) -> bool {
    i32::MIN < c.0 < i32::MAX && i32::MIN < c.1 < i32::MAX
}

/// Whether `(x, y)` lies inside the one-cell border of a board.
pub open spec fn inside_border(width: i32, height: i32, x: int, y: int) -> bool {
    0 < x < width - 1 && 0 < y < height - 1
}

/// Whether `(x, y)` is an interior cell of the board that `body` does not
/// cover.
pub open spec fn free_cell(body: Seq<(i32, i32)>, width: i32, height: i32, x: int, y: int) -> bool {
    inside_border(width, height, x, y) && !hits_any(body, x, y)
}

/// Whether the board has an interior cell that `body` does not cover.
pub open spec fn some_free_cell(body: Seq<(i32, i32)>, width: i32, height: i32) -> bool {
    exists|x: int, y: int| #[trigger] free_cell(body, width, height, x, y)
}

/// The sum of two times, held at the largest value of the timer.
pub open spec fn saturating_sum(a: u64, b: u64) -> u64 {
    if a + b > u64::MAX {
        u64::MAX
    } else {
        (a + b) as u64
    }
}

/// The whole state of a game.
pub struct GameState {
    /// The snake's body, head first.
    pub body: Seq<(i32, i32)>,
    /// The snake's heading.
    pub heading: Direction,
    /// The cell that the snake's last move vacated.
    pub vacated: Option<(i32, i32)>,
    /// Whether there is food on the board.
    pub food_exists: bool,
    /// Where the food is, or last was.
    pub food: (i32, i32),
    /// Board width in cells, border included.
    pub width: i32,
    /// Board height in cells, border included.
    pub height: i32,
    /// Whether the game has ended.
    pub over: bool,
    /// Whether the game is paused.
    pub paused: bool,
    /// Microseconds since the last move.
    pub waiting: u64,
}

impl GameState {
    /// The state at the start of a game on a board of the given size.
    pub open spec fn initial(width: i32, height: i32) -> GameState {
        GameState {
            body: seq![(4i32, 2i32), (3i32, 2i32), (2i32, 2i32)],
            heading: Direction::Right,
            vacated: None,
            food_exists: true,
            food: (6, 4),
            width,
            height,
            over: false,
            paused: false,
            waiting: 0,
        }
    }

    /// The snake has a head, and it and the vacated cell keep clear of the
    /// ends of the coordinate range.
    pub open spec fn grid_ok(self) -> bool {
        &&& self.body.len() >= 1
        &&& forall|i: int| 0 <= i < self.body.len() ==> has_neighbours(#[trigger] self.body[i])
        &&& match self.vacated {
            Some(t) => has_neighbours(t),
            None => true,
        }
    }

    /// The invariant of a game between two inputs: `grid_ok`, and the food,
    /// while there is any, lies on no cell of the snake.
    pub open spec fn wf(self) -> bool {
        &&& self.grid_ok()
        &&& self.food_exists ==> !hits_any(self.body, self.food.0 as int, self.food.1 as int)
    }

    /// Neither paused nor over.
    pub open spec fn running(self) -> bool {
        !self.paused && !self.over
    }

    /// Whether `(x, y)` lies inside the one-cell border of the board.
    pub open spec fn in_interior(self, x: int, y: int) -> bool {
        inside_border(self.width, self.height, x, y)
    }

    /// Whether `(x, y)` lies on the border of the board.
    pub open spec fn on_border(self, x: int, y: int) -> bool {
        x == 0 || x == self.width - 1 || y == 0 || y == self.height - 1
    }

    /// The direction of the next step: `dir` where given, else the heading.
    pub open spec fn moving_direction(self, dir: Option<Direction>) -> Direction {
        match dir {
            Some(d) => d,
            None => self.heading,
        }
    }

    /// Where the head would go on a step in `dir`.
    pub open spec fn next_head(self, dir: Option<Direction>) -> (int, int) {
        neighbour(self.body[0], self.moving_direction(dir))
    }

    /// Whether a step in `dir` keeps the snake alive: the next head lies on
    /// no cell of the body but perhaps the last, and inside the border.
    pub open spec fn alive(self, dir: Option<Direction>) -> bool {
        let n = self.next_head(dir);
        !hits_before_tail(self.body, n.0, n.1) && self.in_interior(n.0, n.1)
    }

    /// The state after the snake has stepped in `dir`.
    pub open spec fn moved(self, dir: Option<Direction>) -> GameState {
        let n = self.next_head(dir);
        GameState {
            body: stepped(self.body, (n.0 as i32, n.1 as i32)),
            heading: self.moving_direction(dir),
            vacated: Some(self.body.last()),
            ..self
        }
    }

    /// The state after the eating check: where the head lies on the food,
    /// the food is gone and the vacated cell is back at the end of the body.
    pub open spec fn fed(self) -> GameState {
        if self.food_exists && self.body[0] == self.food {
            GameState {
                food_exists: false,
                body: match self.vacated {
                    Some(t) => self.body.push(t),
                    None => self.body,
                },
                ..self
            }
        } else {
            self
        }
    }

    /// The state after a forced move in `dir`. A paused game stays as it is.
    /// Otherwise the timer starts again, and the snake steps and eats, or
    /// the game is over where the step would kill it.
    pub open spec fn advanced(self, dir: Option<Direction>) -> GameState {
        if self.paused {
            self
        } else if self.alive(dir) {
            GameState { waiting: 0, ..self.moved(dir).fed() }
        } else {
            GameState { over: true, waiting: 0, ..self }
        }
    }

    /// The state after a restart: the initial one, on the same board.
    pub open spec fn restarted(self) -> GameState {
        GameState::initial(self.width, self.height)
    }

    /// Whether `key` asks for the opposite of the heading.
    pub open spec fn is_reversal(self, key: Key) -> bool {
        key_direction(key) == Some(self.heading.opposite_spec())
    }

    /// The state after a key press.
    pub open spec fn after_key(self, key: Key) -> GameState {
        if key == Key::R {
            self.restarted()
        } else if self.over || self.is_reversal(key) {
            self
        } else if key == Key::P {
            GameState { paused: !self.paused, ..self }.advanced(None)
        } else {
            self.advanced(key_direction(key))
        }
    }

    /// Whether `(x, y)` is an interior cell that the snake does not cover.
    pub open spec fn is_free(self, x: int, y: int) -> bool {
        free_cell(self.body, self.width, self.height, x, y)
    }

    /// Whether the board has a free cell.
    pub open spec fn has_free_cell(self) -> bool {
        some_free_cell(self.body, self.width, self.height)
    }

    /// The state with food at `cell`.
    pub open spec fn with_food(self, cell: (i32, i32)) -> GameState {
        GameState { food_exists: true, food: cell, ..self }
    }

    /// Whether `cell` may be chosen for new food: it is free, unless the
    /// board has no free cell at all.
    pub open spec fn food_choice_ok(self, cell: (i32, i32)) -> bool {
        self.has_free_cell() ==> self.is_free(cell.0 as int, cell.1 as int)
    }

    /// The state after food was added with `cell` as the choice. A board
    /// without a free cell stays as it is.
    pub open spec fn food_added(self, cell: (i32, i32)) -> GameState {
        if self.has_free_cell() {
            self.with_food(cell)
        } else {
            self
        }
    }

    /// The state after a tick of `delta` microseconds, with `cell` as the
    /// choice for new food where food is missing. A game that is paused or
    /// over stays as it is. Otherwise the timer advances, missing food is
    /// added, and once the timer has passed the moving period the snake is
    /// moved along its heading.
    pub open spec fn ticked(self, delta: u64, cell: (i32, i32)) -> GameState {
        if !self.running() {
            self
        } else {
            let timed = GameState { waiting: saturating_sum(self.waiting, delta), ..self };
            let stocked = if timed.food_exists {
                timed
            } else {
                timed.food_added(cell)
            };
            if stocked.waiting > MOVING_PERIOD {
                stocked.advanced(None)
            } else {
                stocked
            }
        }
    }
}

} // verus!
