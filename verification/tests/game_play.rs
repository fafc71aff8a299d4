use snake_game::direction::Direction;
use snake_game::draw::{DrawCommand, Paint};
use snake_game::game::{Game, FOOD_DRAWS};
use snake_game::rules::{Key, MOVING_PERIOD};

fn body_of(g: &Game) -> Vec<(i32, i32)> {
    let s = g.snake();
    let mut out = Vec::new();
    let mut i = 0;
    while let Some(c) = s.cell(i) {
        out.push(c);
        i += 1;
    }
    out
}

fn in_interior(g: &Game, c: (i32, i32)) -> bool {
    0 < c.0 && c.0 < g.width() - 1 && 0 < c.1 && c.1 < g.height() - 1
}

#[test]
fn moving_period_is_three_tenths_of_a_second() {
    assert_eq!(MOVING_PERIOD, 300_000);
    assert!(FOOD_DRAWS > 0);
}

#[test]
fn new_game_starts_running_with_fixed_snake_and_food() {
    let g = Game::new(30, 30);
    assert_eq!(body_of(&g), vec![(4, 2), (3, 2), (2, 2)]);
    assert_eq!(g.snake().head_direction(), Direction::Right);
    assert_eq!(g.food(), Some((6, 4)));
    assert_eq!(g.width(), 30);
    assert_eq!(g.height(), 30);
    assert!(!g.is_over());
    assert!(!g.is_paused());
    assert_eq!(g.waiting_time(), 0);
}

#[test]
fn forced_tick_moves_snake_along_heading() {
    let mut g = Game::new(30, 30);
    g.update(MOVING_PERIOD + 1);
    assert_eq!(g.snake().head_position(), (5, 2));
    assert_eq!(body_of(&g), vec![(5, 2), (4, 2), (3, 2)]);
    assert!(!g.is_over());
    assert_eq!(g.waiting_time(), 0);
    assert_eq!(g.food(), Some((6, 4)));
}

#[test]
fn tick_of_exactly_one_period_does_not_move() {
    let mut g = Game::new(30, 30);
    g.update(MOVING_PERIOD);
    assert_eq!(body_of(&g), vec![(4, 2), (3, 2), (2, 2)]);
    assert_eq!(g.waiting_time(), MOVING_PERIOD);
    g.update(1);
    assert_eq!(body_of(&g), vec![(5, 2), (4, 2), (3, 2)]);
    assert_eq!(g.waiting_time(), 0);
}

#[test]
fn timer_accumulates_over_ticks() {
    let mut g = Game::new(30, 30);
    g.update(100_000);
    g.update(100_000);
    assert_eq!(g.waiting_time(), 200_000);
    assert_eq!(g.snake().head_position(), (4, 2));
    g.update(100_001);
    assert_eq!(g.snake().head_position(), (5, 2));
    assert_eq!(g.waiting_time(), 0);
}

#[test]
fn timer_stops_at_its_largest_value() {
    let mut g = Game::new(30, 30);
    g.update(10);
    g.update(u64::MAX);
    assert_eq!(g.snake().head_position(), (5, 2));
    assert_eq!(g.waiting_time(), 0);
}

#[test]
fn directional_key_moves_head_to_next_head() {
    for (key, d) in [(Key::Up, Direction::Up), (Key::Down, Direction::Down), (Key::Right, Direction::Right)] {
        let mut g = Game::new(30, 30);
        let expected = g.snake().next_head(Some(d));
        g.key_pressed(key);
        assert_eq!(g.snake().head_position(), expected);
        assert_eq!(g.snake().head_direction(), d);
        assert!(!g.is_over());
    }
}

#[test]
fn key_press_resets_timer() {
    let mut g = Game::new(30, 30);
    g.update(250_000);
    g.key_pressed(Key::Down);
    assert_eq!(g.waiting_time(), 0);
    assert_eq!(g.snake().head_position(), (4, 3));
}

#[test]
fn reversal_key_changes_nothing() {
    let mut g = Game::new(30, 30);
    g.update(1234);
    g.key_pressed(Key::Left);
    assert_eq!(body_of(&g), vec![(4, 2), (3, 2), (2, 2)]);
    assert_eq!(g.snake().head_direction(), Direction::Right);
    assert_eq!(g.waiting_time(), 1234);
    assert!(!g.is_over());
    g.key_pressed(Key::Down);
    g.update(77);
    g.key_pressed(Key::Up);
    assert_eq!(body_of(&g), vec![(4, 3), (4, 2), (3, 2)]);
    assert_eq!(g.snake().head_direction(), Direction::Down);
    assert_eq!(g.waiting_time(), 77);
}

#[test]
fn other_key_forces_move_along_heading() {
    let mut g = Game::new(30, 30);
    g.update(100);
    g.key_pressed(Key::Other);
    assert_eq!(body_of(&g), vec![(5, 2), (4, 2), (3, 2)]);
    assert_eq!(g.waiting_time(), 0);
}

#[test]
fn eating_food_clears_it_and_grows_by_one() {
    let mut g = Game::new(30, 30);
    g.key_pressed(Key::Right);
    g.key_pressed(Key::Right);
    g.key_pressed(Key::Down);
    assert_eq!(g.food(), Some((6, 4)));
    assert_eq!(g.snake().len(), 3);
    g.key_pressed(Key::Down);
    assert_eq!(g.snake().head_position(), (6, 4));
    assert_eq!(g.food(), None);
    assert_eq!(body_of(&g), vec![(6, 4), (6, 3), (6, 2), (5, 2)]);
    let body = body_of(&g);
    assert_eq!(body.iter().filter(|c| **c == (6, 4)).count(), 1);
}

#[test]
fn move_without_food_keeps_length() {
    let mut g = Game::new(30, 30);
    for _ in 0..10 {
        g.key_pressed(Key::Right);
        assert_eq!(g.snake().len(), 3);
    }
    assert_eq!(g.food(), Some((6, 4)));
}

#[test]
fn food_is_added_on_next_tick_after_eating() {
    let mut g = Game::new(30, 30);
    g.key_pressed(Key::Right);
    g.key_pressed(Key::Right);
    g.key_pressed(Key::Down);
    g.key_pressed(Key::Down);
    assert_eq!(g.food(), None);
    g.update(1);
    let food = g.food().unwrap();
    assert!(in_interior(&g, food));
    assert!(!g.snake().occupies(food.0, food.1));
    assert_eq!(g.waiting_time(), 1);
    assert_eq!(g.snake().len(), 4);
}

#[test]
fn paused_game_ignores_ticks() {
    let mut g = Game::new(30, 30);
    g.update(500);
    g.key_pressed(Key::P);
    assert!(g.is_paused());
    assert_eq!(g.waiting_time(), 500);
    assert_eq!(body_of(&g), vec![(4, 2), (3, 2), (2, 2)]);
    g.update(1_000_000);
    assert_eq!(g.waiting_time(), 500);
    assert_eq!(body_of(&g), vec![(4, 2), (3, 2), (2, 2)]);
    assert!(!g.is_over());
}

#[test]
fn paused_game_does_not_spawn_food() {
    let mut g = Game::new(30, 30);
    g.key_pressed(Key::Right);
    g.key_pressed(Key::Right);
    g.key_pressed(Key::Down);
    g.key_pressed(Key::Down);
    assert_eq!(g.food(), None);
    g.key_pressed(Key::P);
    assert!(g.is_paused());
    g.update(1_000_000);
    assert_eq!(g.food(), None);
    assert_eq!(g.waiting_time(), 0);
    assert_eq!(g.snake().head_position(), (6, 4));
}

#[test]
fn directional_keys_are_dropped_while_paused() {
    let mut g = Game::new(30, 30);
    g.key_pressed(Key::P);
    g.key_pressed(Key::Down);
    assert_eq!(body_of(&g), vec![(4, 2), (3, 2), (2, 2)]);
    assert_eq!(g.snake().head_direction(), Direction::Right);
    g.key_pressed(Key::P);
    assert!(!g.is_paused());
    assert_eq!(body_of(&g), vec![(5, 2), (4, 2), (3, 2)]);
    assert_eq!(g.snake().head_direction(), Direction::Right);
}

#[test]
fn moving_onto_border_ends_game() {
    let mut g = Game::new(30, 30);
    g.key_pressed(Key::Up);
    assert_eq!(g.snake().head_position(), (4, 1));
    assert!(!g.is_over());
    g.update(10);
    g.key_pressed(Key::Up);
    assert!(g.is_over());
    assert_eq!(body_of(&g), vec![(4, 1), (4, 2), (3, 2)]);
    assert_eq!(g.waiting_time(), 0);
}

#[test]
fn right_border_ends_game_by_ticks() {
    let mut g = Game::new(30, 30);
    for _ in 0..24 {
        g.update(MOVING_PERIOD + 1);
        assert!(!g.is_over());
    }
    assert_eq!(g.snake().head_position(), (28, 2));
    g.update(MOVING_PERIOD + 1);
    assert!(g.is_over());
    assert_eq!(g.snake().head_position(), (28, 2));
}

#[test]
fn left_and_bottom_borders_end_game() {
    let mut g = Game::new(30, 6);
    g.key_pressed(Key::Down);
    g.key_pressed(Key::Down);
    assert_eq!(g.snake().head_position(), (4, 4));
    assert!(!g.is_over());
    g.key_pressed(Key::Down);
    assert!(g.is_over());
    assert_eq!(g.snake().head_position(), (4, 4));

    let mut g = Game::new(30, 30);
    g.key_pressed(Key::Down);
    g.key_pressed(Key::Left);
    g.key_pressed(Key::Left);
    g.key_pressed(Key::Left);
    assert_eq!(g.snake().head_position(), (1, 3));
    assert!(!g.is_over());
    g.key_pressed(Key::Left);
    assert!(g.is_over());
    assert_eq!(g.snake().head_position(), (1, 3));
}

#[test]
fn head_never_lies_on_border_after_a_move() {
    let keys = [Key::Down, Key::Down, Key::Left, Key::Left, Key::Left, Key::Up, Key::Up, Key::Up, Key::Up];
    let mut g = Game::new(8, 8);
    for k in keys {
        let before = g.snake().head_position();
        g.key_pressed(k);
        let after = g.snake().head_position();
        if after != before {
            assert!(in_interior(&g, after));
        }
    }
    assert!(g.is_over());
}

#[test]
fn keys_are_ignored_once_over() {
    let mut g = Game::new(30, 30);
    g.key_pressed(Key::Up);
    g.key_pressed(Key::Up);
    assert!(g.is_over());
    let body = body_of(&g);
    for k in [Key::Left, Key::Right, Key::Down, Key::Up, Key::P, Key::Other] {
        g.key_pressed(k);
        assert!(g.is_over());
        assert!(!g.is_paused());
        assert_eq!(body_of(&g), body);
    }
    g.update(1_000_000);
    assert_eq!(g.waiting_time(), 0);
    assert_eq!(body_of(&g), body);
}

#[test]
fn restart_when_over_resets_everything() {
    let mut g = Game::new(30, 30);
    g.key_pressed(Key::Right);
    g.key_pressed(Key::Right);
    g.key_pressed(Key::Down);
    g.key_pressed(Key::Down);
    g.key_pressed(Key::Left);
    g.update(5);
    while !g.is_over() {
        g.key_pressed(Key::Up);
    }
    assert!(g.is_over());
    g.key_pressed(Key::R);
    assert_eq!(body_of(&g), vec![(4, 2), (3, 2), (2, 2)]);
    assert_eq!(g.snake().head_direction(), Direction::Right);
    assert!(!g.is_over());
    assert!(!g.is_paused());
    assert_eq!(g.food(), Some((6, 4)));
    assert_eq!(g.waiting_time(), 0);
    assert_eq!(g.width(), 30);
    assert_eq!(g.height(), 30);
}

#[test]
fn restart_while_paused_unpauses() {
    let mut g = Game::new(30, 30);
    g.key_pressed(Key::Down);
    g.key_pressed(Key::P);
    assert!(g.is_paused());
    g.key_pressed(Key::R);
    assert!(!g.is_paused());
    assert_eq!(body_of(&g), vec![(4, 2), (3, 2), (2, 2)]);
    assert_eq!(g.food(), Some((6, 4)));
}

#[test]
fn restart_function_matches_new_game() {
    let mut g = Game::new(12, 9);
    g.key_pressed(Key::Down);
    g.update(40);
    g.restart();
    assert_eq!(body_of(&g), body_of(&Game::new(12, 9)));
    assert_eq!(g.food(), Some((6, 4)));
    assert_eq!(g.waiting_time(), 0);
    assert_eq!((g.width(), g.height()), (12, 9));
}

#[test]
fn moving_into_own_tail_cell_is_allowed() {
    let mut g = Game::new(30, 30);
    assert!(g.place_food(5, 2));
    g.key_pressed(Key::Right);
    assert_eq!(body_of(&g), vec![(5, 2), (4, 2), (3, 2), (2, 2)]);
    g.key_pressed(Key::Down);
    g.key_pressed(Key::Left);
    assert_eq!(body_of(&g), vec![(4, 3), (5, 3), (5, 2), (4, 2)]);
    assert!(g.check_if_snake_alive(Some(Direction::Up)));
    g.key_pressed(Key::Up);
    assert!(!g.is_over());
    assert_eq!(body_of(&g), vec![(4, 2), (4, 3), (5, 3), (5, 2)]);
}

#[test]
fn moving_into_own_body_ends_game() {
    let mut g = Game::new(30, 30);
    assert!(g.place_food(5, 2));
    g.key_pressed(Key::Right);
    assert!(g.place_food(6, 2));
    g.key_pressed(Key::Right);
    assert_eq!(g.snake().len(), 5);
    g.key_pressed(Key::Down);
    g.key_pressed(Key::Left);
    assert_eq!(body_of(&g), vec![(5, 3), (6, 3), (6, 2), (5, 2), (4, 2)]);
    assert!(!g.check_if_snake_alive(Some(Direction::Up)));
    g.key_pressed(Key::Up);
    assert!(g.is_over());
    assert_eq!(body_of(&g), vec![(5, 3), (6, 3), (6, 2), (5, 2), (4, 2)]);
}

#[test]
fn check_if_snake_alive_on_fresh_board() {
    let g = Game::new(30, 30);
    assert!(g.check_if_snake_alive(None));
    assert!(g.check_if_snake_alive(Some(Direction::Up)));
    assert!(g.check_if_snake_alive(Some(Direction::Down)));
    assert!(!g.check_if_snake_alive(Some(Direction::Left)));
    let small = Game::new(6, 4);
    assert!(!small.check_if_snake_alive(None));
    assert!(!small.check_if_snake_alive(Some(Direction::Down)));
    assert!(small.check_if_snake_alive(Some(Direction::Up)));
}

#[test]
fn update_snake_steps_and_is_held_by_pause() {
    let mut g = Game::new(30, 30);
    g.update(9);
    g.update_snake(Some(Direction::Down));
    assert_eq!(body_of(&g), vec![(4, 3), (4, 2), (3, 2)]);
    assert_eq!(g.waiting_time(), 0);
    g.update(9);
    g.key_pressed(Key::P);
    g.update_snake(None);
    assert_eq!(body_of(&g), vec![(4, 3), (4, 2), (3, 2)]);
    assert_eq!(g.waiting_time(), 9);
}

#[test]
fn check_eating_changes_nothing_away_from_food() {
    let mut g = Game::new(30, 30);
    g.check_eating();
    assert_eq!(g.food(), Some((6, 4)));
    assert_eq!(g.snake().len(), 3);
}

#[test]
fn place_food_takes_only_free_interior_cells() {
    let mut g = Game::new(30, 30);
    assert!(!g.place_food(0, 5));
    assert!(!g.place_food(5, 0));
    assert!(!g.place_food(29, 5));
    assert!(!g.place_food(5, 29));
    assert!(!g.place_food(-1, -1));
    assert!(!g.place_food(4, 2));
    assert!(!g.place_food(2, 2));
    assert_eq!(g.food(), Some((6, 4)));
    assert!(g.place_food(28, 28));
    assert_eq!(g.food(), Some((28, 28)));
    assert!(g.place_food(1, 1));
    assert_eq!(g.food(), Some((1, 1)));
}

#[test]
fn find_free_cell_scans_from_the_corner() {
    let g = Game::new(30, 30);
    assert_eq!(g.find_free_cell(), Some((1, 1)));
    let mut g = Game::new(30, 4);
    g.key_pressed(Key::Up);
    g.key_pressed(Key::Left);
    g.key_pressed(Key::Left);
    g.key_pressed(Key::Left);
    assert_eq!(body_of(&g), vec![(1, 1), (2, 1), (3, 1)]);
    assert_eq!(g.find_free_cell(), Some((1, 2)));
    assert_eq!(Game::new(2, 30).find_free_cell(), None);
    assert_eq!(Game::new(30, 2).find_free_cell(), None);
    assert_eq!(Game::new(0, 0).find_free_cell(), None);
    assert_eq!(Game::new(-5, 30).find_free_cell(), None);
}

#[test]
fn add_food_on_board_with_one_free_cell() {
    let mut g = Game::new(3, 3);
    g.add_food();
    assert_eq!(g.food(), Some((1, 1)));
}

#[test]
fn add_food_without_free_cell_changes_nothing() {
    let mut g = Game::new(2, 2);
    g.add_food();
    assert_eq!(g.food(), Some((6, 4)));
    assert_eq!(body_of(&g), vec![(4, 2), (3, 2), (2, 2)]);
}

#[test]
fn add_food_avoids_snake_on_crowded_board() {
    let mut g = Game::new(7, 4);
    for _ in 0..200 {
        g.add_food();
        let food = g.food().unwrap();
        assert!(in_interior(&g, food));
        assert!(!g.snake().occupies(food.0, food.1));
    }
}

#[test]
fn add_food_draws_different_cells() {
    let mut g = Game::new(30, 30);
    let mut seen: Vec<(i32, i32)> = Vec::new();
    for _ in 0..300 {
        g.add_food();
        let food = g.food().unwrap();
        assert!(in_interior(&g, food));
        assert!(!g.snake().occupies(food.0, food.1));
        if !seen.contains(&food) {
            seen.push(food);
        }
    }
    assert!(seen.len() >= 2);
    assert!(seen.iter().any(|c| c.0 != 1));
    assert!(seen.iter().any(|c| c.1 != 1));
    assert!(seen.iter().any(|c| c.0 != 29 && c.1 != 29));
}

#[test]
fn frame_of_new_game() {
    let g = Game::new(30, 20);
    assert_eq!(
        g.draw(),
        vec![
            DrawCommand::Block { paint: Paint::SnakeHead, x: 4, y: 2 },
            DrawCommand::Block { paint: Paint::SnakeBody, x: 3, y: 2 },
            DrawCommand::Block { paint: Paint::SnakeBody, x: 2, y: 2 },
            DrawCommand::Block { paint: Paint::Food, x: 6, y: 4 },
            DrawCommand::Rectangle { paint: Paint::TopBorder, left: 0, top: 0, width: 30, height: 1 },
            DrawCommand::Rectangle { paint: Paint::BottomBorder, left: 0, top: 19, width: 30, height: 1 },
            DrawCommand::Rectangle { paint: Paint::LeftBorder, left: 0, top: 1, width: 1, height: 18 },
            DrawCommand::Rectangle { paint: Paint::RightBorder, left: 29, top: 1, width: 1, height: 18 },
        ]
    );
}

#[test]
fn frame_without_food_and_with_veil() {
    let mut g = Game::new(30, 30);
    g.key_pressed(Key::Right);
    g.key_pressed(Key::Right);
    g.key_pressed(Key::Down);
    g.key_pressed(Key::Down);
    let shapes = g.draw();
    assert_eq!(shapes.len(), 8);
    assert!(!shapes.iter().any(|s| matches!(s, DrawCommand::Block { paint: Paint::Food, .. })));
    while !g.is_over() {
        g.key_pressed(Key::Down);
    }
    assert_eq!(g.snake().head_position(), (6, 28));
    let shapes = g.draw();
    assert_eq!(shapes.len(), 9);
    assert_eq!(
        shapes[8],
        DrawCommand::Rectangle { paint: Paint::GameOver, left: 0, top: 0, width: 30, height: 30 }
    );
}
