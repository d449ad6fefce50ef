use snake_game::board::{Board, Heading, TickOutcome, BASE_DELAY_MS, MIN_DELAY_MS};
use snake_game::introduction::LevelConfig;
use snake_game::snake::{Coordinate, Snake};

fn square_config(size: i32) -> LevelConfig {
    LevelConfig { speed_coeff: 0, snake_limit_len: 100, width: size, height: size }
}

fn board_with_snake_at(x: i32, y: i32, heading: Heading, size: i32) -> Board {
    Board {
        width: size,
        height: size,
        messages: Vec::new(),
        curr_direction: heading,
        food_coordinate: Coordinate { x: 0, y: 0 },
        snake: Snake {
            body: vec![Coordinate { x, y }],
            len: 1,
            capacity: 100,
            sign: "*".to_string(),
        },
        speed: 0,
    }
}

fn head_of(b: &Board) -> (i32, i32) {
    let h = b.snake.head();
    (h.x, h.y)
}

#[test]
fn new_board_follows_the_config() {
    let b = Board::new(&LevelConfig::easy());
    assert_eq!(b.width, 20);
    assert_eq!(b.height, 10);
    assert_eq!(b.curr_direction, Heading::Right);
    assert_eq!(b.snake.len(), 1);
    assert_eq!(b.snake.capacity, 10);
    assert_eq!(head_of(&b), (1, 1));
    assert!(b.messages.is_empty());
    assert_eq!(b.speed, 0);
}

#[test]
fn moving_right_off_the_right_wall_wraps_to_column_zero() {
    let mut b = board_with_snake_at(9, 5, Heading::Right, 10);
    b.add_next_step_for_snake();
    assert_eq!(head_of(&b), (0, 5));
}

#[test]
fn moving_left_off_the_left_wall_wraps_to_the_last_column() {
    let mut b = board_with_snake_at(0, 5, Heading::Left, 10);
    b.add_next_step_for_snake();
    assert_eq!(head_of(&b), (9, 5));
}

#[test]
fn moving_down_off_the_bottom_wall_wraps_to_row_zero() {
    let mut b = board_with_snake_at(5, 9, Heading::Down, 10);
    b.add_next_step_for_snake();
    assert_eq!(head_of(&b), (5, 0));
}

#[test]
fn moving_up_off_the_top_wall_wraps_to_the_last_row() {
    let mut b = board_with_snake_at(5, 0, Heading::Up, 10);
    b.add_next_step_for_snake();
    assert_eq!(head_of(&b), (5, 9));
}

#[test]
fn an_interior_move_is_a_plain_unit_step() {
    let mut b = board_with_snake_at(3, 4, Heading::Right, 10);
    b.add_next_step_for_snake();
    assert_eq!(head_of(&b), (4, 4));
    let mut b = board_with_snake_at(3, 4, Heading::Up, 10);
    b.add_next_step_for_snake();
    assert_eq!(head_of(&b), (3, 3));
}

#[test]
fn reversal_input_is_ignored_and_other_inputs_turn_the_snake() {
    for (heading, opposite) in [
        (Heading::Up, Heading::Down),
        (Heading::Down, Heading::Up),
        (Heading::Left, Heading::Right),
        (Heading::Right, Heading::Left),
    ] {
        let mut b = board_with_snake_at(5, 5, heading, 10);
        b.catch_push_on_keyboard(Some(opposite));
        assert_eq!(b.curr_direction, heading);
        b.catch_push_on_keyboard(None);
        assert_eq!(b.curr_direction, heading);
        for turn in [Heading::Up, Heading::Down, Heading::Left, Heading::Right] {
            if turn != opposite {
                let mut c = board_with_snake_at(5, 5, heading, 10);
                c.catch_push_on_keyboard(Some(turn));
                assert_eq!(c.curr_direction, turn);
            }
        }
    }
}

#[test]
fn food_is_eaten_exactly_when_the_head_sits_on_it() {
    let mut b = board_with_snake_at(4, 1, Heading::Right, 10);
    b.place_food_at(Coordinate { x: 4, y: 1 });
    assert!(b.food_is_eaten());
    b.place_food_at(Coordinate { x: 5, y: 1 });
    assert!(!b.food_is_eaten());
}

#[test]
fn generated_food_always_lands_on_the_field() {
    let mut b = board_with_snake_at(1, 1, Heading::Right, 2);
    for _ in 0..200 {
        b.generate_food();
        let f = b.food_position();
        assert!(0 <= f.x && f.x < 2, "food x out of bounds: {}", f.x);
        assert!(0 <= f.y && f.y < 2, "food y out of bounds: {}", f.y);
    }
}

#[test]
fn speed_formula_shrinks_the_delay_and_clamps_at_the_floor() {
    let mut b = board_with_snake_at(5, 5, Heading::Right, 10);
    b.snake.len = 1;
    b.increase_speed_as_need(15);
    assert_eq!(b.speed, 185);
    assert_eq!(b.snake_delay(), 185u64);
    b.snake.len = 10;
    b.increase_speed_as_need(15);
    assert_eq!(b.speed, 50);
    b.snake.len = 12;
    b.increase_speed_as_need(15);
    assert_eq!(b.speed, MIN_DELAY_MS);
    b.snake.len = 40;
    b.increase_speed_as_need(15);
    assert_eq!(b.speed, MIN_DELAY_MS);
}

#[test]
fn delay_is_non_increasing_as_the_snake_grows() {
    let mut previous = BASE_DELAY_MS;
    for len in 1..60 {
        let mut b = board_with_snake_at(5, 5, Heading::Right, 10);
        b.snake.len = len;
        b.increase_speed_as_need(10);
        assert!(b.speed <= previous);
        assert!(b.speed >= MIN_DELAY_MS);
        previous = b.speed;
    }
}

#[test]
fn tick_reports_a_win_when_the_capacity_is_reached() {
    let mut b = board_with_snake_at(5, 5, Heading::Right, 10);
    b.snake.capacity = 1;
    let report = b.tick(None, 10);
    assert_eq!(report.outcome, TickOutcome::Win);
    assert!(!report.ate_food);
    assert_eq!(head_of(&b), (5, 5));
}

#[test]
fn tick_reports_a_loss_when_the_head_revisits_the_body() {
    let mut b = board_with_snake_at(5, 5, Heading::Right, 10);
    b.snake.body = vec![
        Coordinate { x: 0, y: 0 },
        Coordinate { x: 1, y: 0 },
        Coordinate { x: 2, y: 0 },
        Coordinate { x: 1, y: 0 },
    ];
    b.snake.len = 4;
    b.snake.capacity = 100;
    let report = b.tick(None, 10);
    assert_eq!(report.outcome, TickOutcome::Loss);
    assert_eq!(b.snake.body.len(), 4);
}

#[test]
fn growth_settles_to_one_more_cell_after_a_meal() {
    let mut b = board_with_snake_at(5, 5, Heading::Right, 10);
    b.snake.body = vec![Coordinate { x: 4, y: 5 }, Coordinate { x: 5, y: 5 }];
    b.snake.len = 2;
    b.snake.capacity = 3;
    b.place_food_at(Coordinate { x: 5, y: 5 });
    let report = b.tick(None, 0);
    assert_eq!(report.outcome, TickOutcome::Moved);
    assert!(report.ate_food);
    assert_eq!(b.snake.len(), 3);
    assert!(b.snake.has_reached_capacity());
    // the tick after the meal trims nothing: the body grows into the target
    assert_eq!(report.removed.len(), 0);
    assert_eq!(b.snake.body.len(), 3);
}

#[test]
fn exit_dialog_quits_retries_or_keeps_waiting() {
    let mut b = board_with_snake_at(5, 5, Heading::Up, 10);
    b.add_text("Game Over....".to_string());
    assert_eq!(b.exit_dialog_key('x'), None);
    assert_eq!(b.messages.len(), 1);
    assert_eq!(b.exit_dialog_key('q'), Some(false));
    assert_eq!(head_of(&b), (5, 5));
    assert_eq!(b.exit_dialog_key('n'), Some(true));
    assert_eq!(b.snake.len(), 1);
    assert_eq!(head_of(&b), (1, 1));
    assert_eq!(b.curr_direction, Heading::Right);
    assert!(b.messages.is_empty());
    let f = b.food_position();
    assert!(0 <= f.x && f.x < 10 && 0 <= f.y && f.y < 10);
}

#[test]
fn level_presets_match_their_difficulty() {
    let easy = LevelConfig::easy();
    assert_eq!((easy.speed_coeff, easy.snake_limit_len, easy.width, easy.height), (15, 10, 20, 10));
    let medium = LevelConfig::medium();
    assert_eq!(
        (medium.speed_coeff, medium.snake_limit_len, medium.width, medium.height),
        (10, 30, 40, 20)
    );
    let hard = LevelConfig::hard();
    assert_eq!((hard.speed_coeff, hard.snake_limit_len, hard.width, hard.height), (5, 50, 60, 30));
    assert_eq!(LevelConfig::select_level(0).snake_limit_len, 10);
    assert_eq!(LevelConfig::select_level(1).snake_limit_len, 30);
    assert_eq!(LevelConfig::select_level(2).snake_limit_len, 50);
}

#[test]
fn end_to_end_three_ticks_reach_the_food_and_grow() {
    let cfg = square_config(10);
    let mut b = Board::new(&cfg);
    assert_eq!(head_of(&b), (1, 1));
    assert_eq!(b.curr_direction, Heading::Right);
    b.place_food_at(Coordinate { x: 4, y: 1 });

    for _ in 0..3 {
        let report = b.tick(None, 5);
        assert_eq!(report.outcome, TickOutcome::Moved);
        assert!(!report.ate_food);
    }
    assert_eq!(head_of(&b), (4, 1));
    assert_eq!(b.snake.len(), 1);

    let report = b.tick(None, 5);
    assert_eq!(report.outcome, TickOutcome::Moved);
    assert!(report.ate_food, "the fourth tick consumes the food");
    assert_eq!(b.snake.len(), 2);
    let f = b.food_position();
    assert!(0 <= f.x && f.x < 10 && 0 <= f.y && f.y < 10, "a fresh food cell is drawn");

    // park the food out of the snake's path, so the settling tick cannot
    // happen to eat again on the rare draw right in front of the head
    b.place_food_at(Coordinate { x: 9, y: 9 });

    // over the next tick the body settles to the new target length: the
    // trim leaves exactly two cells before the head advances
    let report = b.tick(None, 5);
    assert_eq!(report.outcome, TickOutcome::Moved);
    assert_eq!(report.removed.len(), 1);
    assert_eq!(b.snake.body.len(), b.snake.len() as usize + 1);
    assert_eq!(b.snake.len(), 2);
}
