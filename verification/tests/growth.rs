use snake::game::Game;
use snake::grid::{Direction, Position};

fn cell(x: i32, y: i32) -> Position {
    Position { x, y }
}

#[test]
fn one_signal_adds_one_segment_on_the_old_tail_cell() {
    let mut game = Game::new();
    game.snake_movement();
    game.snake_growth(1);
    assert_eq!(game.segments(), &vec![cell(4, 3), cell(3, 3), cell(2, 3)]);
}

#[test]
fn no_signal_adds_nothing() {
    let mut game = Game::new();
    game.snake_movement();
    game.snake_growth(0);
    assert_eq!(game.segments(), &vec![cell(4, 3), cell(3, 3)]);
}

#[test]
fn each_signal_adds_one_segment() {
    let mut game = Game::new();
    game.snake_movement();
    game.snake_growth(3);
    assert_eq!(
        game.segments(),
        &vec![cell(4, 3), cell(3, 3), cell(2, 3), cell(2, 3), cell(2, 3)]
    );
}

#[test]
fn growth_touches_nothing_but_the_segments() {
    let mut game = Game::new();
    game.spawn_food(1, 1);
    game.snake_movement();
    game.snake_growth(2);
    assert_eq!(game.food(), &vec![cell(1, 1)]);
    assert_eq!(game.direction(), Direction::Right);
    assert_eq!(game.last_tail_position(), cell(2, 3));
}

#[test]
fn growth_before_any_move_uses_the_corner_cell() {
    let mut game = Game::new();
    game.snake_growth(1);
    assert_eq!(game.segments(), &vec![cell(3, 3), cell(2, 3), cell(0, 0)]);
}

#[test]
fn grown_snake_moves_as_one() {
    let mut game = Game::new();
    game.snake_movement();
    game.snake_growth(1);
    game.snake_movement();
    assert_eq!(game.segments(), &vec![cell(5, 3), cell(4, 3), cell(3, 3)]);
    assert_eq!(game.last_tail_position(), cell(2, 3));
}

#[test]
fn food_under_the_head_after_the_move_grows_the_snake() {
    let mut game = Game::new();
    game.spawn_food(4, 3);
    assert!(!game.snake_movement());
    assert_eq!(game.head_position(), cell(4, 3));
    assert_eq!(game.food(), &vec![cell(4, 3)]);
    let growth_signals = game.snake_eating();
    assert_eq!(growth_signals, 1);
    assert!(game.food().is_empty());
    assert_eq!(game.segments().len(), 2);
    game.snake_growth(growth_signals);
    assert_eq!(game.segments().len(), 3);
    assert_eq!(game.segments()[2], cell(2, 3));
}
