//! What holds of the rules for every state and every input.

use crate::direction::Direction;
use crate::rules::{
    direction_key, has_neighbours, key_direction, saturating_sum, GameState, Key,
};
use crate::snake::{hits_any, hits_before_tail};
use vstd::prelude::*;

verus! {

/// The initial state meets the invariant, whatever the size of the board.
pub proof fn lemma_initial_wf(width: i32, height: i32)
    ensures
        GameState::initial(width, height).wf(),
{
    let g = GameState::initial(width, height);
    assert(g.body.len() == 3);
    assert(g.body[0] == (4i32, 2i32));
    assert(g.body[1] == (3i32, 2i32));
    assert(g.body[2] == (2i32, 2i32));
}

/// A step that keeps the snake alive leads from a state that meets the
/// invariant to one that meets it again once the eating check is made.
pub proof fn lemma_step_keeps_wf(g: GameState, dir: Option<Direction>)
    requires
        g.wf(),
        g.alive(dir),
    ensures
        g.moved(dir).grid_ok(),
        g.moved(dir).fed().wf(),
{
    let n = g.next_head(dir);
    let h = (n.0 as i32, n.1 as i32);
    let m = g.moved(dir);
    assert(has_neighbours(h));
    assert(m.body.len() == g.body.len());
    assert(m.body[0] == h);
    assert forall|i: int| 0 < i < m.body.len() implies #[trigger] m.body[i] == g.body[i - 1] by {}
    assert forall|i: int| 0 <= i < m.body.len() implies has_neighbours(#[trigger] m.body[i]) by {
        if i > 0 {
            assert(m.body[i] == g.body[i - 1]);
        }
    }
    assert(has_neighbours(g.body.last()));
    let f = m.fed();
    if m.food_exists && m.body[0] == m.food {
        assert forall|i: int| 0 <= i < f.body.len() implies has_neighbours(#[trigger] f.body[i]) by {
            if i < m.body.len() {
                assert(f.body[i] == m.body[i]);
            }
        }
    } else if m.food_exists {
        if hits_any(m.body, m.food.0 as int, m.food.1 as int) {
            let i = choose|i: int|
                0 <= i < m.body.len() && (#[trigger] m.body[i]).0 == m.food.0 && m.body[i].1
                    == m.food.1;
            if i > 0 {
                assert(m.body[i] == g.body[i - 1]);
                assert(g.body[i - 1].0 == g.food.0 && g.body[i - 1].1 == g.food.1);
                assert(hits_any(g.body, g.food.0 as int, g.food.1 as int));
            }
        }
    }
}

/// Every forced move keeps the invariant.
pub proof fn lemma_advanced_wf(g: GameState, dir: Option<Direction>)
    requires
        g.wf(),
    ensures
        g.advanced(dir).wf(),
{
    if !g.paused && g.alive(dir) {
        lemma_step_keeps_wf(g, dir);
    }
}

/// Every key press keeps the invariant.
pub proof fn lemma_after_key_wf(g: GameState, key: Key)
    requires
        g.wf(),
    ensures
        g.after_key(key).wf(),
{
    lemma_initial_wf(g.width, g.height);
    let toggled = GameState { paused: !g.paused, ..g };
    lemma_advanced_wf(toggled, None);
    lemma_advanced_wf(g, key_direction(key));
}

/// Every tick keeps the invariant, provided that the cell chosen for new
/// food is a free one wherever food is added.
pub proof fn lemma_ticked_wf(g: GameState, delta: u64, cell: (i32, i32))
    requires
        g.wf(),
        g.running() && !g.food_exists ==> g.food_choice_ok(cell),
    ensures
        g.ticked(delta, cell).wf(),
{
    if g.running() {
        let timed = GameState { waiting: saturating_sum(g.waiting, delta), ..g };
        let stocked = if timed.food_exists {
            timed
        } else {
            timed.food_added(cell)
        };
        assert(stocked.wf());
        lemma_advanced_wf(stocked, None);
    }
}

/// A forced move that the snake survives puts the head where `next_head`
/// said, inside the border, and leaves the rest of the body one place
/// further back.
pub proof fn lemma_move_puts_head_on_next_head(g: GameState, dir: Option<Direction>)
    requires
        g.wf(),
        !g.paused,
        g.alive(dir),
    ensures
        ({
            let after = g.advanced(dir);
            let n = g.next_head(dir);
            &&& after.body[0].0 == n.0
            &&& after.body[0].1 == n.1
            &&& g.in_interior(after.body[0].0 as int, after.body[0].1 as int)
            &&& after.heading == g.moving_direction(dir)
            &&& after.over == g.over
            &&& after.waiting == 0
            &&& forall|i: int| 0 < i < g.body.len() ==> after.body[i] == g.body[i - 1]
        }),
{
    lemma_step_keeps_wf(g, dir);
    let m = g.moved(dir);
    let f = m.fed();
    assert(f.body[0] == m.body[0]);
    assert forall|i: int| 0 < i < g.body.len() implies f.body[i] == g.body[i - 1] by {
        assert(m.body[i] == g.body[i - 1]);
    }
}

/// While the game runs, a directional key that does not ask to turn right
/// round has one of two outcomes. Either the step would kill the snake:
/// then the game is over and the body is as it was. Or the head is now where
/// `next_head` said before the key, and the key's direction is the heading.
pub proof fn lemma_key_moves_head_to_next_head(g: GameState, d: Direction)
    requires
        g.wf(),
        g.running(),
        d != g.heading.opposite_spec(),
    ensures
        ({
            let after = g.after_key(direction_key(d));
            let n = g.next_head(Some(d));
            &&& after.over <==> !g.alive(Some(d))
            &&& after.over ==> after.body == g.body && after.heading == g.heading
            &&& !after.over ==> after.body[0].0 == n.0 && after.body[0].1 == n.1 && after.heading
                == d
        }),
{
    assert(key_direction(direction_key(d)) == Some(d));
    assert(direction_key(d) != Key::R && direction_key(d) != Key::P);
    if g.alive(Some(d)) {
        lemma_move_puts_head_on_next_head(g, Some(d));
    }
}

/// A key that asks for the opposite of the heading changes nothing, in any
/// state: heading, body, timer and all the rest stay as they were.
pub proof fn lemma_reversal_is_ignored(g: GameState)
    ensures
        g.after_key(direction_key(g.heading.opposite_spec())) == g,
{
    let key = direction_key(g.heading.opposite_spec());
    assert(key_direction(key) == Some(g.heading.opposite_spec()));
    assert(key != Key::R);
}

/// A move onto the food makes the body longer by exactly one cell: the
/// food's cell in front of the body as it was. The food is gone, and its
/// cell occurs in the body once, at the head.
pub proof fn lemma_eating_grows_by_one(g: GameState, dir: Option<Direction>)
    requires
        g.wf(),
        !g.paused,
        g.alive(dir),
        g.food_exists,
        g.next_head(dir) == (g.food.0 as int, g.food.1 as int),
    ensures
        ({
            let after = g.advanced(dir);
            &&& after.body.len() == g.body.len() + 1
            &&& after.body == seq![g.food] + g.body
            &&& !after.food_exists
            &&& after.food == g.food
            &&& forall|i: int| 0 < i < after.body.len() ==> after.body[i] != g.food
        }),
{
    lemma_step_keeps_wf(g, dir);
    let m = g.moved(dir);
    let after = g.advanced(dir);
    assert(m.body[0] == g.food);
    assert(after.body =~= seq![g.food] + g.body);
    assert forall|i: int| 0 < i < after.body.len() implies after.body[i] != g.food by {
        assert(after.body[i] == g.body[i - 1]);
        if g.body[i - 1] == g.food {
            assert(hits_any(g.body, g.food.0 as int, g.food.1 as int));
        }
    }
}

/// A move that does not reach food leaves the length of the body as it was.
pub proof fn lemma_length_kept_without_food(g: GameState, dir: Option<Direction>)
    requires
        g.wf(),
        !(g.food_exists && g.next_head(dir) == (g.food.0 as int, g.food.1 as int)),
    ensures
        g.advanced(dir).body.len() == g.body.len(),
        g.advanced(dir).food_exists == g.food_exists,
{
    if !g.paused && g.alive(dir) {
        lemma_step_keeps_wf(g, dir);
        let m = g.moved(dir);
        assert(m.body[0].0 == g.next_head(dir).0 && m.body[0].1 == g.next_head(dir).1);
    }
}

/// The cell of the tail is no obstacle. Where the next head lies on the
/// last cell of a body of two cells or more, and on no other cell of it, the
/// move is no collision with the body. In a game that is not paused it ends
/// the game only where that cell does not lie inside the border, and else
/// puts the head on that cell.
pub proof fn lemma_tail_cell_is_no_collision(g: GameState, dir: Option<Direction>)
    requires
        g.wf(),
        g.body.len() >= 2,
        g.next_head(dir) == (g.body.last().0 as int, g.body.last().1 as int),
        forall|i: int| 0 <= i < g.body.len() - 1 ==> g.body[i] != g.body.last(),
    ensures
        !hits_before_tail(g.body, g.body.last().0 as int, g.body.last().1 as int),
        g.alive(dir) == g.in_interior(g.body.last().0 as int, g.body.last().1 as int),
        !g.paused ==> g.advanced(dir).over == (g.over || !g.in_interior(
            g.body.last().0 as int,
            g.body.last().1 as int,
        )),
        !g.paused && g.alive(dir) ==> g.advanced(dir).body[0] == g.body.last(),
{
    let t = g.body.last();
    if hits_before_tail(g.body, t.0 as int, t.1 as int) {
        let i = choose|i: int|
            0 <= i < g.body.len() - 1 && (#[trigger] g.body[i]).0 == t.0 && g.body[i].1 == t.1;
        assert(g.body[i] == t);
    }
    if !g.paused && g.alive(dir) {
        lemma_move_puts_head_on_next_head(g, dir);
    }
}

/// No move takes the head onto the border. Where the next head lies on the
/// border of the board, the snake stays where it was, and the forced move
/// ends the game unless the game is paused.
pub proof fn lemma_border_move_ends_game(g: GameState, dir: Option<Direction>)
    requires
        g.on_border(g.next_head(dir).0, g.next_head(dir).1),
    ensures
        !g.alive(dir),
        !g.paused ==> g.advanced(dir).over,
        g.advanced(dir).body == g.body,
        g.advanced(dir).heading == g.heading,
{
}

/// After any key but the restart key, a head that is not where it was lies
/// inside the border of the same board.
pub proof fn lemma_key_moves_head_into_interior(g: GameState, key: Key)
    requires
        g.wf(),
        key != Key::R,
    ensures
        ({
            let after = g.after_key(key);
            &&& after.body[0] != g.body[0] ==> g.in_interior(
                after.body[0].0 as int,
                after.body[0].1 as int,
            )
            &&& after.width == g.width
            &&& after.height == g.height
        }),
{
    let toggled = GameState { paused: !g.paused, ..g };
    if !toggled.paused && toggled.alive(None) {
        lemma_move_puts_head_on_next_head(toggled, None);
    }
    if !g.paused && g.alive(key_direction(key)) {
        lemma_move_puts_head_on_next_head(g, key_direction(key));
    }
}

/// After any tick, a head that is not where it was lies inside the border
/// of the same board.
pub proof fn lemma_tick_moves_head_into_interior(g: GameState, delta: u64, cell: (i32, i32))
    requires
        g.wf(),
        g.running() && !g.food_exists ==> g.food_choice_ok(cell),
    ensures
        ({
            let after = g.ticked(delta, cell);
            &&& after.body[0] != g.body[0] ==> g.in_interior(
                after.body[0].0 as int,
                after.body[0].1 as int,
            )
            &&& after.width == g.width
            &&& after.height == g.height
        }),
{
    if g.running() {
        let timed = GameState { waiting: saturating_sum(g.waiting, delta), ..g };
        let stocked = if timed.food_exists {
            timed
        } else {
            timed.food_added(cell)
        };
        assert(stocked.wf());
        if stocked.alive(None) {
            lemma_move_puts_head_on_next_head(stocked, None);
        }
    }
}

/// A tick changes nothing in a game that is paused or over: the timer does
/// not advance, the snake does not move and no food is added.
pub proof fn lemma_tick_ignored_unless_running(g: GameState, delta: u64, cell: (i32, i32))
    requires
        g.paused || g.over,
    ensures
        g.ticked(delta, cell) == g,
{
}

/// The restart key leads to the initial state on the same board, from any
/// state.
pub proof fn lemma_restart_from_any_state(g: GameState)
    ensures
        g.after_key(Key::R) == GameState::initial(g.width, g.height),
        g.after_key(Key::R).running(),
{
}

/// No key but the restart key turns the snake right round: the heading
/// after the key is never the opposite of the heading before it.
pub proof fn lemma_heading_never_reverses(g: GameState, key: Key)
    requires
        key != Key::R,
    ensures
        g.after_key(key).heading != g.heading.opposite_spec(),
{
}

/// A tick never changes the heading.
pub proof fn lemma_tick_keeps_heading(g: GameState, delta: u64, cell: (i32, i32))
    ensures
        g.ticked(delta, cell).heading == g.heading,
{
}

/// A game that is over stays over, and as it is, under every key but the
/// restart key and under every tick.
pub proof fn lemma_over_is_terminal(g: GameState, key: Key, delta: u64, cell: (i32, i32))
    requires
        g.over,
    ensures
        key != Key::R ==> g.after_key(key) == g,
        g.ticked(delta, cell) == g,
{
}

/// A paused game drops every key but the pause key and the restart key.
pub proof fn lemma_paused_drops_keys(g: GameState, key: Key)
    requires
        g.paused,
        key != Key::P,
        key != Key::R,
    ensures
        g.after_key(key) == g,
{
}

/// The pause key pauses a running game without moving the snake or
/// touching the timer.
pub proof fn lemma_pause_key_holds_game(g: GameState)
    requires
        g.running(),
    ensures
        g.after_key(Key::P) == (GameState { paused: true, ..g }),
{
}

/// The snake never gets shorter, under any key but the restart key and
/// under any tick.
pub proof fn lemma_snake_never_shrinks(g: GameState, key: Key, delta: u64, cell: (i32, i32))
    requires
        g.wf(),
        key != Key::R,
    ensures
        g.after_key(key).body.len() >= g.body.len(),
        g.ticked(delta, cell).body.len() >= g.body.len(),
{
}

} // verus!
