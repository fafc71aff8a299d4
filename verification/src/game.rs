//! The game controller: it owns the snake, the food, the board and the
//! timer, and turns key presses and ticks into moves.

use crate::direction::Direction;
use crate::draw::{border_strips, food_block, frame, snake_blocks, DrawCommand, Paint};
use crate::laws::{lemma_advanced_wf, lemma_initial_wf, lemma_step_keeps_wf};
use crate::random::random_between;
use crate::rules::{free_cell, GameState, Key, MOVING_PERIOD};
use crate::snake::Snake;
use vstd::prelude::*;

verus! {

/// How many random cells are tried for new food before the board is
/// searched for a free cell.
pub const FOOD_DRAWS: u32 = 64;

/// A game of snake.
#[derive(Debug)]
pub struct Game {
    snake: Snake,
    food_exists: bool,
    food_x: i32,
    food_y: i32,
    width: i32,
    height: i32,
    game_over: bool,
    waiting_time: u64,
    game_pause: bool,
}

impl View for Game {
    type V = GameState;

    closed spec fn view(&self) -> GameState {
        GameState {
            body: self.snake.cells(),
            heading: self.snake.heading(),
            vacated: self.snake.vacated(),
            food_exists: self.food_exists,
            food: (self.food_x, self.food_y),
            width: self.width,
            height: self.height,
            over: self.game_over,
            paused: self.game_pause,
            waiting: self.waiting_time,
        }
    }
}

impl Game {
    /// The invariant that every operation keeps.
    pub open spec fn wf(&self) -> bool {
        self@.wf()
    }

    /// A new game on a board of `width` by `height` cells, border included.
    pub fn new(width: i32, height: i32) -> (g: Game)
        ensures
            g@ == GameState::initial(width, height),
            g.wf(),
    {
        let g = Game {
            snake: Snake::new(2, 2),
            food_exists: true,
            food_x: 6,
            food_y: 4,
            width,
            height,
            game_over: false,
            waiting_time: 0,
            game_pause: false,
        };
        proof {
            assert(g@.body =~= GameState::initial(width, height).body);
            lemma_initial_wf(width, height);
        }
        g
    }

    /// Board width in cells.
    pub fn width(&self) -> (w: i32)
        ensures
            w == self@.width,
    {
        self.width
    }

    /// Board height in cells.
    pub fn height(&self) -> (h: i32)
        ensures
            h == self@.height,
    {
        self.height
    }

    /// Whether the game has ended.
    pub fn is_over(&self) -> (b: bool)
        ensures
            b == self@.over,
    {
        self.game_over
    }

    /// Whether the game is paused.
    pub fn is_paused(&self) -> (b: bool)
        ensures
            b == self@.paused,
    {
        self.game_pause
    }

    /// Microseconds since the last move.
    pub fn waiting_time(&self) -> (t: u64)
        ensures
            t == self@.waiting,
    {
        self.waiting_time
    }

    /// The cell of the food, while there is any.
    pub fn food(&self) -> (f: Option<(i32, i32)>)
        ensures
            f == if self@.food_exists {
                Some(self@.food)
            } else {
                None::<(i32, i32)>
            },
    {
        if self.food_exists {
            Some((self.food_x, self.food_y))
        } else {
            None
        }
    }

    /// The snake.
    pub fn snake(&self) -> (s: &Snake)
        ensures
            s.cells() == self@.body,
            s.heading() == self@.heading,
            s.vacated() == self@.vacated,
    {
        &self.snake
    }

    /// Handles a key press. The restart key starts afresh. A game that is
    /// over ignores every other key, and a key that asks to turn right round
    /// is ignored. Any other key forces a move at once: in its direction if
    /// it has one, else along the heading, after the pause key has toggled
    /// the pause.
    pub fn key_pressed(&mut self, key: Key)
        requires
            old(self).wf(),
        ensures
            final(self)@ == old(self)@.after_key(key),
            final(self).wf(),
    {
        match key {
            Key::R => {
                self.restart();
                return ;
            },
            _ => {},
        }
        if self.game_over {
            return ;
        }
        let dir = match key {
            Key::Up => Some(Direction::Up),
            Key::Down => Some(Direction::Down),
            Key::Left => Some(Direction::Left),
            Key::Right => Some(Direction::Right),
            Key::P => {
                self.game_pause = !self.game_pause;
                None
            },
            _ => None,
        };
        if let Some(d) = dir {
            if d == self.snake.head_direction().opposite() {
                return ;
            }
        }
        self.update_snake(dir);
    }

    /// The eating check, made after a step: where the head lies on the
    /// food, the food is gone and the snake grows by the cell it vacated.
    /// Between two inputs the food lies on no cell of the snake, so there the
    /// check changes nothing.
    pub fn check_eating(&mut self)
        requires
            old(self)@.grid_ok(),
        ensures
            final(self)@ == old(self)@.fed(),
            final(self)@.grid_ok(),
            old(self).wf() ==> final(self)@ == old(self)@,
            old(self).wf() ==> final(self).wf(),
    {
        let (head_x, head_y) = self.snake.head_position();
        if self.food_exists && self.food_x == head_x && self.food_y == head_y {
            self.food_exists = false;
            self.snake.restore_tail();
        }
    }

    /// The shapes of one frame, in drawing order.
    pub fn draw(&self) -> (shapes: Vec<DrawCommand>)
        ensures
            shapes@ == frame(self@),
    {
        let mut shapes = self.snake.draw();
        if self.food_exists {
            shapes.push(DrawCommand::Block { paint: Paint::Food, x: self.food_x, y: self.food_y });
        }
        let ghost before_border = shapes@;
        let w: i64 = self.width as i64;
        let h: i64 = self.height as i64;
        shapes.push(
            DrawCommand::Rectangle { paint: Paint::TopBorder, left: 0, top: 0, width: w, height: 1 },
        );
        shapes.push(
            DrawCommand::Rectangle {
                paint: Paint::BottomBorder,
                left: 0,
                top: h - 1,
                width: w,
                height: 1,
            },
        );
        shapes.push(
            DrawCommand::Rectangle {
                paint: Paint::LeftBorder,
                left: 0,
                top: 1,
                width: 1,
                height: h - 2,
            },
        );
        shapes.push(
            DrawCommand::Rectangle {
                paint: Paint::RightBorder,
                left: w - 1,
                top: 1,
                width: 1,
                height: h - 2,
            },
        );
        assert(shapes@ =~= before_border + border_strips(self.width as int, self.height as int));
        assert(before_border =~= snake_blocks(self@.body) + food_block(self@));
        if self.game_over {
            shapes.push(
                DrawCommand::Rectangle {
                    paint: Paint::GameOver,
                    left: 0,
                    top: 0,
                    width: w,
                    height: h,
                },
            );
        }
        assert(shapes@ =~= frame(self@));
        shapes
    }

    /// A tick of `delta_time` microseconds. A game that is paused or over
    /// stays as it is. Otherwise the timer advances, missing food is added,
    /// and once the timer has passed the moving period the snake is moved
    /// along its heading. Where food is added, its cell is a free one.
    pub fn update(&mut self, delta_time: u64)
        requires
            old(self).wf(),
        ensures
            final(self)@ == old(self)@.ticked(delta_time, final(self)@.food),
            old(self)@.running() && !old(self)@.food_exists ==> old(self)@.food_choice_ok(
                final(self)@.food,
            ),
            final(self).wf(),
    {
        if self.game_pause || self.game_over {
            return ;
        }
        self.waiting_time = self.waiting_time.saturating_add(delta_time);
        if !self.food_exists {
            self.add_food()
        }
        if self.waiting_time > MOVING_PERIOD {
            self.update_snake(None)
        }
    }

    /// Puts food on `(x, y)` if that is an interior cell that the snake
    /// does not cover, and says whether it did.
    pub fn place_food(&mut self, x: i32, y: i32) -> (placed: bool)
        requires
            old(self).wf(),
        ensures
            placed == old(self)@.is_free(x as int, y as int),
            final(self)@ == if placed {
                old(self)@.with_food((x, y))
            } else {
                old(self)@
            },
            final(self).wf(),
    {
        let inside = x > 0 && y > 0 && (x as i64) < (self.width as i64) - 1 && (y as i64) < (
        self.height as i64) - 1;
        if inside && !self.snake.occupies(x, y) {
            self.food_x = x;
            self.food_y = y;
            self.food_exists = true;
            true
        } else {
            false
        }
    }

    /// The first free cell of the board, column by column from the left and
    /// downwards within a column, if there is one.
    pub fn find_free_cell(&self) -> (found: Option<(i32, i32)>)
        ensures
            match found {
                Some(c) => {
                    &&& self@.is_free(c.0 as int, c.1 as int)
                    &&& forall|a: int, b: int|
                        a < c.0 || (a == c.0 && b < c.1) ==> !#[trigger] self@.is_free(a, b)
                },
                None => !self@.has_free_cell(),
            },
    {
        if self.width < 3 || self.height < 3 {
            return None;
        }
        let mut x: i32 = 1;
        while x < self.width - 1
            invariant
                self.width >= 3,
                self.height >= 3,
                1 <= x <= self.width - 1,
                forall|a: int, b: int|
                    0 < a < x ==> !#[trigger] free_cell(self@.body, self.width, self.height, a, b),
            decreases self.width - x,
        {
            let mut y: i32 = 1;
            while y < self.height - 1
                invariant
                    self.width >= 3,
                    self.height >= 3,
                    1 <= x < self.width - 1,
                    1 <= y <= self.height - 1,
                    forall|a: int, b: int|
                        0 < a < x ==> !#[trigger] free_cell(
                            self@.body,
                            self.width,
                            self.height,
                            a,
                            b,
                        ),
                    forall|b: int|
                        0 < b < y ==> !#[trigger] free_cell(
                            self@.body,
                            self.width,
                            self.height,
                            x as int,
                            b,
                        ),
                decreases self.height - y,
            {
                if !self.snake.occupies(x, y) {
                    return Some((x, y));
                }
                y += 1;
            }
            x += 1;
        }
        None
    }

    /// Adds food on a free cell: one drawn at random, or, where a number of
    /// draws found none, the first free cell of the board. A board without a
    /// free cell stays as it is.
    pub fn add_food(&mut self)
        requires
            old(self).wf(),
        ensures
            final(self)@ == old(self)@.food_added(final(self)@.food),
            old(self)@.food_choice_ok(final(self)@.food),
            final(self).wf(),
    {
        if self.width >= 3 && self.height >= 3 {
            let mut draws: u32 = 0;
            while draws < FOOD_DRAWS
                invariant
                    self@ == old(self)@,
                    self.wf(),
                    self.width >= 3,
                    self.height >= 3,
                decreases FOOD_DRAWS - draws,
            {
                let new_x = random_between(1, self.width - 1);
                let new_y = random_between(1, self.height - 1);
                if self.place_food(new_x, new_y) {
                    return ;
                }
                draws += 1;
            }
        }
        match self.find_free_cell() {
            Some(c) => {
                self.place_food(c.0, c.1);
            },
            None => {},
        }
    }

    /// Whether a step in `dir` keeps the snake alive: the next head lies on
    /// no cell of the body but perhaps the last, and inside the border.
    pub fn check_if_snake_alive(&self, dir: Option<Direction>) -> (alive: bool)
        requires
            self.wf(),
        ensures
            alive == self@.alive(dir),
    {
        let (next_x, next_y) = self.snake.next_head(dir);
        if self.snake.over_tail(next_x, next_y) {
            return false;
        }
        next_x > 0 && next_y > 0 && (next_x as i64) < (self.width as i64) - 1 && (next_y as i64)
            < (self.height as i64) - 1
    }

    /// Forces a move in `dir`, or along the heading. A paused game stays as
    /// it is. Otherwise the timer starts again, and the snake steps and
    /// eats, or the game is over where the step would kill it.
    pub fn update_snake(&mut self, dir: Option<Direction>)
        requires
            old(self).wf(),
        ensures
            final(self)@ == old(self)@.advanced(dir),
            final(self).wf(),
    {
        if self.game_pause {
            return ;
        }
        proof {
            lemma_advanced_wf(self@, dir);
        }
        if self.check_if_snake_alive(dir) {
            proof {
                lemma_step_keeps_wf(self@, dir);
            }
            self.snake.move_forward(dir);
            assert(self@ == old(self)@.moved(dir));
            self.check_eating();
        } else {
            self.game_over = true;
        }
        self.waiting_time = 0;
    }

    /// Starts the game afresh on the same board.
    pub fn restart(&mut self)
        ensures
            final(self)@ == old(self)@.restarted(),
            final(self).wf(),
    {
        self.snake = Snake::new(2, 2);
        self.waiting_time = 0;
        self.food_exists = true;
        self.food_x = 6;
        self.food_y = 4;
        self.game_over = false;
        self.game_pause = false;
        proof {
            assert(self@.body =~= GameState::initial(self.width, self.height).body);
            lemma_initial_wf(self.width, self.height);
        }
    }
}

} // verus!
