//! What a frame shows, as plain values, and the mapping from grid
//! coordinates to pixels.

use crate::rules::GameState;
use vstd::prelude::*;

verus! {

/// Edge length of one grid cell, in pixels.
pub const BLOCK_SIZE: u32 = 20;

/// What a drawn shape stands for; the renderer picks colour and outline.
#[derive(Debug, Clone, Copy, PartialEq, Eq, Structural)]
pub enum Paint {
    SnakeHead,
    SnakeBody,
    Food,
    TopBorder,
    BottomBorder,
    LeftBorder,
    RightBorder,
    GameOver,
}

/// One shape of a frame, in grid coordinates.
#[derive(Debug, Clone, Copy, PartialEq, Eq, Structural)]
pub enum DrawCommand {
    /// A single cell at `(x, y)`.
    Block { paint: Paint, x: i32, y: i32 },
    /// A rectangle with its corner at `(left, top)`, `width` cells wide and
    /// `height` cells high.
    Rectangle { paint: Paint, left: i64, top: i64, width: i64, height: i64 },
}

/// The pixel coordinate of a grid coordinate: `BLOCK_SIZE` times the
/// coordinate, held to the range of `u32`.
pub open spec fn pixel_coord(game_coord: int) -> int {
    if game_coord <= 0 {
        0
    } else if game_coord * BLOCK_SIZE > u32::MAX {
        u32::MAX as int
    } else {
        game_coord * BLOCK_SIZE
    }
}

/// The pixel coordinate of a grid coordinate. A negative coordinate maps to
/// zero and one beyond the range of `u32` to its largest value.
pub fn to_coord_u32(game_coord: i32) -> (px: u32)
    ensures
        px == pixel_coord(game_coord as int),
{
    if game_coord <= 0 {
        0
    } else {
        let cells: u64 = game_coord as u64;
        let side: u64 = BLOCK_SIZE as u64;
        assert(cells * side == game_coord * BLOCK_SIZE && cells * side <= 0x7fff_ffff * 20) by (nonlinear_arith)
            requires
                cells == game_coord,
                side == BLOCK_SIZE,
                BLOCK_SIZE == 20,
                0 < game_coord <= 0x7fff_ffff,
        ;
        let wide: u64 = cells * side;
        if wide > u32::MAX as u64 {
            u32::MAX
        } else {
            wide as u32
        }
    }
}

/// The blocks of a snake's body: the head first, in its own paint.
pub open spec fn snake_blocks(body: Seq<(i32, i32)>) -> Seq<DrawCommand> {
    Seq::new(
        body.len(),
        |i: int|
            DrawCommand::Block {
                paint: if i == 0 {
                    Paint::SnakeHead
                } else {
                    Paint::SnakeBody
                },
                x: body[i].0,
                y: body[i].1,
            },
    )
}

/// The four border strips of a board, each one cell thick: top, bottom,
/// left, right.
pub open spec fn border_strips(width: int, height: int) -> Seq<DrawCommand> {
    seq![
        DrawCommand::Rectangle {
            paint: Paint::TopBorder,
            left: 0,
            top: 0,
            width: width as i64,
            height: 1,
        },
        DrawCommand::Rectangle {
            paint: Paint::BottomBorder,
            left: 0,
            top: (height - 1) as i64,
            width: width as i64,
            height: 1,
        },
        DrawCommand::Rectangle {
            paint: Paint::LeftBorder,
            left: 0,
            top: 1,
            width: 1,
            height: (height - 2) as i64,
        },
        DrawCommand::Rectangle {
            paint: Paint::RightBorder,
            left: (width - 1) as i64,
            top: 1,
            width: 1,
            height: (height - 2) as i64,
        },
    ]
}

/// The block of the food, while there is any.
pub open spec fn food_block(g: GameState) -> Seq<DrawCommand> {
    if g.food_exists {
        seq![DrawCommand::Block { paint: Paint::Food, x: g.food.0, y: g.food.1 }]
    } else {
        seq![]
    }
}

/// The veil over the whole board, once the game is over.
pub open spec fn game_over_veil(g: GameState) -> Seq<DrawCommand> {
    if g.over {
        seq![
            DrawCommand::Rectangle {
                paint: Paint::GameOver,
                left: 0,
                top: 0,
                width: g.width as i64,
                height: g.height as i64,
            },
        ]
    } else {
        seq![]
    }
}

/// A whole frame, in drawing order: the snake, the food, the border, and
/// the veil of a game that is over.
pub open spec fn frame(g: GameState) -> Seq<DrawCommand> {
    snake_blocks(g.body) + food_block(g) + border_strips(g.width as int, g.height as int)
        + game_over_veil(g)
}

} // verus!
