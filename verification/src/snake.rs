//! The snake: an ordered run of cells, head first, with a heading and the
//! cell that the last move vacated.

use crate::direction::{fits_cell, neighbour, Direction};
use crate::draw::{snake_blocks, DrawCommand, Paint};
use std::collections::VecDeque;
use vstd::prelude::*;

verus! {

/// Whether `(x, y)` is one of the cells of `body` other than the last.
pub open spec fn hits_before_tail(body: Seq<(i32, i32)>, x: int, y: int) -> bool {
    exists|i: int| 0 <= i < body.len() - 1 && (#[trigger] body[i]).0 == x && body[i].1 == y
}

/// Whether `(x, y)` is one of the cells of `body`.
pub open spec fn hits_any(body: Seq<(i32, i32)>, x: int, y: int) -> bool {
    exists|i: int| 0 <= i < body.len() && (#[trigger] body[i]).0 == x && body[i].1 == y
}

/// The body after one step: `head` in front, the last cell gone.
pub open spec fn stepped(body: Seq<(i32, i32)>, head: (i32, i32)) -> Seq<(i32, i32)> {
    seq![head] + body.drop_last()
}

/// The snake. The head is the first cell of the body, the tail the last.
#[derive(Debug)]
pub struct Snake {
    direction: Direction,
    body: VecDeque<(i32, i32)>,
    tail: Option<(i32, i32)>,
}

impl Snake {
    /// The body, head first.
    pub closed spec fn cells(&self) -> Seq<(i32, i32)> {
        self.body@
    }

    /// The current heading.
    pub closed spec fn heading(&self) -> Direction {
        self.direction
    }

    /// The cell that the last move vacated, if a move was made.
    pub closed spec fn vacated(&self) -> Option<(i32, i32)> {
        self.tail
    }

    /// A snake has at least one cell.
    pub open spec fn wf(&self) -> bool {
        self.cells().len() >= 1
    }

    /// The direction of the next step: `dir` where given, else the heading.
    pub open spec fn moving_direction(&self, dir: Option<Direction>) -> Direction {
        match dir {
            Some(d) => d,
            None => self.heading(),
        }
    }

    /// Where the head would go on a step in `dir`.
    pub open spec fn next_head_spec(&self, dir: Option<Direction>) -> (int, int) {
        neighbour(self.cells()[0], self.moving_direction(dir))
    }

    /// A snake of three cells in a row, heading right, with its tail at
    /// `(x, y)` and its head at `(x + 2, y)`.
    pub fn new(x: i32, y: i32) -> (s: Snake)
        requires
            x + 2 <= i32::MAX,
        ensures
            s.wf(),
            s.cells() == seq![((x + 2) as i32, y), ((x + 1) as i32, y), (x, y)],
            s.heading() == Direction::Right,
            s.vacated().is_none(),
    {
        let mut body: VecDeque<(i32, i32)> = VecDeque::new();
        body.push_back((x + 2, y));
        body.push_back((x + 1, y));
        body.push_back((x, y));
        let s = Snake { direction: Direction::Right, body, tail: None };
        assert(s.cells() =~= seq![((x + 2) as i32, y), ((x + 1) as i32, y), (x, y)]);
        s
    }

    /// The blocks to draw for the snake, head first; the head has a paint
    /// of its own.
    pub fn draw(&self) -> (blocks: Vec<DrawCommand>)
        ensures
            blocks@ == snake_blocks(self.cells()),
    {
        let mut blocks: Vec<DrawCommand> = Vec::new();
        let n = self.body.len();
        let mut i: usize = 0;
        while i < n
            invariant
                n == self.body@.len(),
                i <= n,
                blocks@ == snake_blocks(self.body@.take(i as int)),
            decreases n - i,
        {
            let c = self.body[i];
            let paint = if i == 0 {
                Paint::SnakeHead
            } else {
                Paint::SnakeBody
            };
            blocks.push(DrawCommand::Block { paint, x: c.0, y: c.1 });
            assert(blocks@ =~= snake_blocks(self.body@.take(i + 1)));
            i += 1;
        }
        assert(self.body@.take(n as int) =~= self.body@);
        blocks
    }

    /// The head cell.
    pub fn head_position(&self) -> (p: (i32, i32))
        requires
            self.wf(),
        ensures
            p == self.cells()[0],
    {
        self.body[0]
    }

    /// The current heading.
    pub fn head_direction(&self) -> (d: Direction)
        ensures
            d == self.heading(),
    {
        self.direction
    }

    /// Number of cells of the body.
    pub fn len(&self) -> (n: usize)
        ensures
            n == self.cells().len(),
    {
        self.body.len()
    }

    /// The cell at position `i` of the body, counted from the head.
    pub fn cell(&self, i: usize) -> (c: Option<(i32, i32)>)
        ensures
            c == if i < self.cells().len() {
                Some(self.cells()[i as int])
            } else {
                None
            },
    {
        if i < self.body.len() {
            Some(self.body[i])
        } else {
            None
        }
    }

    /// The cell that the last move vacated.
    pub fn vacated_cell(&self) -> (c: Option<(i32, i32)>)
        ensures
            c == self.vacated(),
    {
        self.tail
    }

    /// Where the head would go on a step in `dir`, or along the heading
    /// where `dir` is `None`. The snake is not changed.
    pub fn next_head(&self, dir: Option<Direction>) -> (p: (i32, i32))
        requires
            self.wf(),
            fits_cell(self.next_head_spec(dir)),
        ensures
            (p.0 as int, p.1 as int) == self.next_head_spec(dir),
    {
        let (head_x, head_y): (i32, i32) = self.head_position();
        let moving_dir = match dir {
            Some(d) => d,
            None => self.direction,
        };
        match moving_dir {
            Direction::Up => (head_x, head_y - 1),
            Direction::Down => (head_x, head_y + 1),
            Direction::Left => (head_x - 1, head_y),
            Direction::Right => (head_x + 1, head_y),
        }
    }

    /// One step. A given `dir` becomes the heading. The new head goes in
    /// front, the last cell leaves the body and is kept as the vacated cell.
    pub fn move_forward(&mut self, dir: Option<Direction>)
        requires
            old(self).wf(),
            fits_cell(old(self).next_head_spec(dir)),
        ensures
            final(self).wf(),
            final(self).heading() == old(self).moving_direction(dir),
            (final(self).cells()[0].0 as int, final(self).cells()[0].1 as int) == old(
                self,
            ).next_head_spec(dir),
            final(self).cells() == stepped(old(self).cells(), final(self).cells()[0]),
            final(self).cells().len() == old(self).cells().len(),
            final(self).vacated() == Some(old(self).cells().last()),
    {
        let p = self.next_head(dir);
        match dir {
            Some(d) => self.direction = d,
            None => (),
        }
        self.body.push_front(p);
        let removed = self.body.pop_back();
        self.tail = removed;
        assert(self.body@ =~= stepped(old(self).body@, p));
    }

    /// Grows the snake by putting the vacated cell back at the end of the
    /// body. Before the first move there is no such cell and nothing changes.
    pub fn restore_tail(&mut self)
        ensures
            final(self).cells() == match old(self).vacated() {
                Some(t) => old(self).cells().push(t),
                None => old(self).cells(),
            },
            final(self).heading() == old(self).heading(),
            final(self).vacated() == old(self).vacated(),
            old(self).wf() ==> final(self).wf(),
    {
        match self.tail {
            Some(t) => self.body.push_back(t),
            None => (),
        }
    }

    /// Whether `(x, y)` is a cell of the body other than the last one. The
    /// last cell is free again after the next step, so it does not count.
    pub fn over_tail(&self, x: i32, y: i32) -> (hit: bool)
        ensures
            hit == hits_before_tail(self.cells(), x as int, y as int),
    {
        let n = self.body.len();
        let end: usize = if n == 0 {
            0
        } else {
            n - 1
        };
        let mut i: usize = 0;
        while i < end
            invariant
                n == self.body@.len(),
                end == if n == 0 {
                    0
                } else {
                    n - 1
                },
                i <= end,
                forall|j: int| 0 <= j < i ==> !(self.body@[j].0 == x && self.body@[j].1 == y),
            decreases end - i,
        {
            let c = self.body[i];
            if c.0 == x && c.1 == y {
                return true;
            }
            i += 1;
        }
        false
    }

    /// Whether `(x, y)` is a cell of the body, the last one included.
    pub fn occupies(&self, x: i32, y: i32) -> (hit: bool)
        ensures
            hit == hits_any(self.cells(), x as int, y as int),
    {
        let n = self.body.len();
        let mut i: usize = 0;
        while i < n
            invariant
                n == self.body@.len(),
                i <= n,
                forall|j: int| 0 <= j < i ==> !(self.body@[j].0 == x && self.body@[j].1 == y),
            decreases n - i,
        {
            let c = self.body[i];
            if c.0 == x && c.1 == y {
                return true;
            }
            i += 1;
        }
        false
    }
}

} // verus!
