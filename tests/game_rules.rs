use snake::frame::BLOCK;
use snake::{Color, Control, Direction, DrawOp, Game, Key, Snake, HEIGHT, WIDTH};

#[test]
fn new_snake_is_one_segment_at_centre_heading_right() {
    let s = Snake::new();
    assert_eq!(s.body, vec![(20u16, 10u16)]);
    assert_eq!(s.body, vec![(WIDTH / 2, HEIGHT / 2)]);
    assert_eq!(s.direction, Direction::Right);
}

#[test]
fn snake_moves_one_cell_in_each_direction() {
    let cases = [
        (Direction::Up, (5u16, 4u16)),
        (Direction::Down, (5u16, 6u16)),
        (Direction::Left, (4u16, 5u16)),
        (Direction::Right, (6u16, 5u16)),
    ];
    for (d, expected) in cases {
        let mut s = Snake { body: vec![(5, 5), (5, 6), (5, 7)], direction: d };
        s.update();
        assert_eq!(s.body, vec![expected, (5, 5), (5, 6)]);
        assert_eq!(s.direction, d);
    }
}

#[test]
fn snake_coordinates_wrap_at_the_edges_of_their_type() {
    let mut s = Snake { body: vec![(0, 0)], direction: Direction::Left };
    s.update();
    assert_eq!(s.body, vec![(u16::MAX, 0)]);
    s.direction = Direction::Right;
    s.update();
    assert_eq!(s.body, vec![(0, 0)]);
    s.direction = Direction::Up;
    s.update();
    assert_eq!(s.body, vec![(0, u16::MAX)]);
    s.direction = Direction::Down;
    s.update();
    assert_eq!(s.body, vec![(0, 0)]);
}

#[test]
fn new_game_places_food_right_of_the_snake() {
    let g = Game::new();
    assert_eq!(g.snake.body, vec![(20u16, 10u16)]);
    assert_eq!(g.snake.direction, Direction::Right);
    assert_eq!(g.food, (25, 10));
    assert_eq!(g.score, 0);
}

#[test]
fn tick_without_food_keeps_length() {
    let mut g = Game::new();
    g.snake.body = vec![(3, 3), (3, 4), (3, 5), (3, 6)];
    g.snake.direction = Direction::Up;
    g.update_with(11, 12);
    assert_eq!(g.snake.body, vec![(3, 2), (3, 3), (3, 4), (3, 5)]);
    assert_eq!(g.food, (25, 10));
    assert_eq!(g.score, 0);
}

#[test]
fn tick_with_food_scores_moves_food_and_appends_placeholder() {
    let mut g = Game::new();
    g.snake.body = vec![(24, 10), (23, 10)];
    g.update_with(47, 65);
    assert_eq!(g.score, 1);
    assert_eq!(g.food, (47 % 40, 65 % 20));
    assert_eq!(g.food, (7, 5));
    assert_eq!(g.snake.body, vec![(25, 10), (24, 10), (0, 0)]);
    // The next plain move keeps the extra segment.
    g.update_with(0, 0);
    assert_eq!(g.snake.body, vec![(26, 10), (25, 10), (24, 10)]);
    assert_eq!(g.score, 1);
}

#[test]
fn food_draws_of_the_largest_value_stay_on_the_grid() {
    let mut g = Game::new();
    g.snake.body = vec![(24, 10)];
    g.update_with(u16::MAX, u16::MAX);
    assert_eq!(g.food, (65535 % 40, 65535 % 20));
    assert_eq!(g.food, (15, 15));
}

#[test]
fn random_food_lands_on_the_grid() {
    for _ in 0..50 {
        let mut g = Game::new();
        g.snake.body = vec![(24, 10)];
        g.update();
        assert_eq!(g.score, 1);
        assert!(g.food.0 < WIDTH && g.food.1 < HEIGHT);
        assert_eq!(g.snake.body, vec![(25, 10), (0, 0)]);
    }
}

#[test]
fn heading_change_applies_to_next_move_and_repeats_harmlessly() {
    let mut g = Game::new();
    assert_eq!(g.apply_input(Some(Key::Down)), Control::Continue);
    assert_eq!(g.snake.direction, Direction::Down);
    assert_eq!(g.apply_input(Some(Key::Down)), Control::Continue);
    assert_eq!(g.snake.direction, Direction::Down);
    g.update_with(0, 0);
    assert_eq!(g.snake.body, vec![(20, 11)]);
}

#[test]
fn other_input_changes_nothing() {
    let mut g = Game::new();
    assert_eq!(g.apply_input(Some(Key::Char('x'))), Control::Continue);
    assert_eq!(g.apply_input(Some(Key::Other)), Control::Continue);
    assert_eq!(g.apply_input(None), Control::Continue);
    assert_eq!(g.snake.direction, Direction::Right);
    assert_eq!(g.snake.body, vec![(20, 10)]);
    assert_eq!(g.score, 0);
    assert_eq!(g.food, (25, 10));
}

#[test]
fn five_idle_ticks_reach_the_food() {
    let mut g = Game::new();
    for i in 1..5u16 {
        assert_eq!(g.apply_input(None), Control::Continue);
        g.update();
        assert_eq!(g.snake.body, vec![(20 + i, 10)]);
        assert_eq!(g.score, 0);
        assert_eq!(g.food, (25, 10));
    }
    g.update();
    assert_eq!(g.snake.body[0], (25, 10));
    assert_eq!(g.score, 1);
    assert!(g.food.0 < WIDTH && g.food.1 < HEIGHT);
    assert_eq!(g.snake.body.len(), 2);
}

#[test]
fn quit_key_stops_before_any_tick() {
    let mut g = Game::new();
    assert_eq!(g.apply_input(Some(Key::Char('q'))), Control::Quit);
    assert_eq!(g.snake.body, vec![(20, 10)]);
    assert_eq!(g.snake.direction, Direction::Right);
    assert_eq!(g.food, (25, 10));
    assert_eq!(g.score, 0);
}

#[test]
fn reversal_is_accepted_and_overlaps_the_body() {
    let mut g = Game::new();
    g.snake.body = vec![(10, 10), (9, 10), (8, 10)];
    assert_eq!(g.apply_input(Some(Key::Up)), Control::Continue);
    g.update_with(0, 0);
    assert_eq!(g.snake.body, vec![(10, 9), (10, 10), (9, 10)]);
    assert_eq!(g.apply_input(Some(Key::Down)), Control::Continue);
    assert_eq!(g.snake.direction, Direction::Down);
    g.update_with(0, 0);
    assert_eq!(g.snake.body, vec![(10, 10), (10, 9), (10, 10)]);
}

#[test]
fn snake_render_draws_each_segment() {
    let s = Snake { body: vec![(1, 2), (3, 4)], direction: Direction::Up };
    assert_eq!(
        s.render(),
        vec![
            DrawOp::MoveTo(1, 2),
            DrawOp::Foreground(Color::Green),
            DrawOp::Glyph(BLOCK),
            DrawOp::MoveTo(3, 4),
            DrawOp::Foreground(Color::Green),
            DrawOp::Glyph(BLOCK),
        ]
    );
}

#[test]
fn game_render_draws_full_frame() {
    let mut g = Game::new();
    g.score = 7;
    let frame = g.render();
    assert_eq!(
        frame,
        vec![
            DrawOp::HideCursor,
            DrawOp::ClearAll,
            DrawOp::Background(Color::Black),
            DrawOp::Foreground(Color::White),
            DrawOp::MoveTo(0, 0),
            DrawOp::Score(7),
            DrawOp::MoveTo(25, 10),
            DrawOp::Foreground(Color::Red),
            DrawOp::Glyph('\u{25A0}'),
            DrawOp::MoveTo(20, 10),
            DrawOp::Foreground(Color::Green),
            DrawOp::Glyph('\u{25A0}'),
        ]
    );
}

#[test]
fn render_twice_gives_the_same_frame() {
    let mut g = Game::new();
    g.snake.body = vec![(4, 4), (4, 5), (0, 0)];
    let first = g.render();
    let second = g.render();
    assert_eq!(first, second);
    assert_eq!(first.len(), 9 + 3 * 3);
}
