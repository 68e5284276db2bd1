use snake::game::Game;
use snake::grid::{Direction, Position};
use snake::input::ArrowKeys;

fn cell(x: i32, y: i32) -> Position {
    Position { x, y }
}

fn long_game() -> Game {
    Game::from_parts(
        Direction::Down,
        vec![cell(4, 4), cell(5, 4), cell(5, 3), cell(4, 3), cell(3, 3)],
        cell(7, 7),
        vec![cell(1, 1), cell(4, 3), cell(8, 2)],
    )
    .unwrap()
}

#[test]
fn game_over_resets_snake_and_food() {
    let mut game = long_game();
    game.game_over(true);
    assert_eq!(game.segments().len(), 2);
    assert_eq!(game.food().len(), 0);
    assert_eq!(game.segments(), &vec![cell(3, 3), cell(2, 3)]);
    assert_eq!(game.direction(), Direction::Right);
}

#[test]
fn game_over_keeps_the_remembered_tail_cell() {
    let mut game = long_game();
    game.game_over(true);
    assert_eq!(game.last_tail_position(), cell(7, 7));
}

#[test]
fn game_over_without_signal_changes_nothing() {
    let mut game = long_game();
    game.game_over(false);
    assert_eq!(
        game.segments(),
        &vec![cell(4, 4), cell(5, 4), cell(5, 3), cell(4, 3), cell(3, 3)]
    );
    assert_eq!(game.food(), &vec![cell(1, 1), cell(4, 3), cell(8, 2)]);
    assert_eq!(game.direction(), Direction::Down);
    assert_eq!(game.last_tail_position(), cell(7, 7));
}

#[test]
fn game_over_on_a_fresh_game_gives_a_fresh_game() {
    let mut game = Game::new();
    game.game_over(true);
    assert_eq!(game.segments(), &vec![cell(3, 3), cell(2, 3)]);
    assert_eq!(game.direction(), Direction::Right);
    assert_eq!(game.last_tail_position(), cell(0, 0));
    assert!(game.food().is_empty());
}

#[test]
fn spawn_snake_replaces_the_snake_and_keeps_the_food() {
    let mut game = long_game();
    game.spawn_snake();
    assert_eq!(game.segments(), &vec![cell(3, 3), cell(2, 3)]);
    assert_eq!(game.direction(), Direction::Right);
    assert_eq!(game.food(), &vec![cell(1, 1), cell(4, 3), cell(8, 2)]);
    assert_eq!(game.last_tail_position(), cell(7, 7));
}

#[test]
fn tick_moves_eats_and_grows() {
    let mut game = Game::new();
    game.spawn_food(4, 3);
    game.spawn_food(6, 6);
    assert!(!game.tick());
    assert_eq!(game.segments(), &vec![cell(4, 3), cell(3, 3), cell(2, 3)]);
    assert_eq!(game.food(), &vec![cell(6, 6)]);
    assert_eq!(game.last_tail_position(), cell(2, 3));
}

#[test]
fn tick_without_food_only_moves() {
    let mut game = Game::new();
    assert!(!game.tick());
    assert_eq!(game.segments(), &vec![cell(4, 3), cell(3, 3)]);
    assert!(game.food().is_empty());
}

#[test]
fn tick_with_a_collision_resets_the_game() {
    let mut game = long_game();
    assert!(game.tick());
    assert_eq!(game.segments().len(), 2);
    assert_eq!(game.food().len(), 0);
    assert_eq!(game.segments(), &vec![cell(3, 3), cell(2, 3)]);
    assert_eq!(game.direction(), Direction::Right);
    assert_eq!(game.last_tail_position(), cell(3, 3));
}

#[test]
fn tick_after_a_reset_plays_on() {
    let mut game = long_game();
    assert!(game.tick());
    assert!(!game.tick());
    assert_eq!(game.segments(), &vec![cell(4, 3), cell(3, 3)]);
}

#[test]
fn eleven_ticks_right_bring_the_head_back() {
    let mut game = Game::new();
    assert!(!game.tick());
    assert_eq!(game.segments(), &vec![cell(4, 3), cell(3, 3)]);
    for _ in 0..10 {
        game.snake_movement_input(ArrowKeys { left: false, down: false, up: false, right: false });
        assert!(!game.tick());
    }
    assert_eq!(game.head_position(), cell(4, 3));
}

#[test]
fn game_stays_in_order_through_random_play() {
    let turns = [Direction::Up, Direction::Left, Direction::Left, Direction::Down, Direction::Right];
    let mut game = Game::new();
    for round in 0..2000 {
        if round % 3 == 0 {
            game.food_spawner();
        }
        let turn = turns[round % turns.len()];
        game.snake_movement_input(ArrowKeys {
            left: turn == Direction::Left,
            down: turn == Direction::Down,
            up: turn == Direction::Up,
            right: turn == Direction::Right,
        });
        let segments_before = game.segments().len();
        let game_over = game.tick();
        assert!(game.segments().len() >= 2);
        assert!(game.segments().iter().all(|segment| segment.in_arena()));
        assert!(game.food().iter().all(|piece| piece.in_arena()));
        assert!(game.last_tail_position().in_arena());
        if game_over {
            assert_eq!(game.segments().len(), 2);
            assert_eq!(game.food().len(), 0);
        } else {
            assert!(game.segments().len() >= segments_before);
            assert!(!game.food().contains(&game.head_position()));
        }
    }
}
