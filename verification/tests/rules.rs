use snake_wasm::game::{Direction, Game, Phase, EASE_SCALE, EASE_TIME, MOVE_INTERVAL};
use snake_wasm::grid::{contains_cell, free_cells, CELL_COUNT, GRID_SIZE};
use snake_wasm::input::{handle, requested_action_of, requested_direction_of, Input};
use snake_wasm::ui::{
    card_labels, hit_test, pause_button, pause_enabled, primary_button, restart_button,
    status_label, tooltip_label, trail_start, Action, Bounds, Pointer,
};

fn playing() -> Game {
    let mut game = Game::new(0);
    game.restart(0);
    game.apple = (0, 0);
    game
}

fn no_input() -> Input {
    Input {
        space: false,
        enter: false,
        p: false,
        click: None,
        up: false,
        w: false,
        down: false,
        s: false,
        left: false,
        a: false,
        right: false,
        d: false,
    }
}

#[test]
fn offsets_step_one_cell() {
    assert_eq!(Direction::Up.offset(), (0, -1));
    assert_eq!(Direction::Down.offset(), (0, 1));
    assert_eq!(Direction::Left.offset(), (-1, 0));
    assert_eq!(Direction::Right.offset(), (1, 0));
}

#[test]
fn opposition_is_symmetric_and_irreflexive() {
    let all = [Direction::Up, Direction::Down, Direction::Left, Direction::Right];
    for a in all {
        assert!(!a.opposes(a));
        let opposites = all.iter().filter(|&&b| a.opposes(b)).count();
        assert_eq!(opposites, 1);
        for b in all {
            assert_eq!(a.opposes(b), b.opposes(a));
        }
    }
    assert!(Direction::Up.opposes(Direction::Down));
    assert!(Direction::Left.opposes(Direction::Right));
    assert!(!Direction::Up.opposes(Direction::Left));
}

#[test]
fn new_round_waits_with_apple_off_the_snake() {
    for now in 0..50u64 {
        let game = Game::new(now);
        assert_eq!(game.phase, Phase::Ready);
        assert_eq!(game.snake, vec![(10, 10), (9, 10), (8, 10)]);
        assert_eq!(game.previous_snake, game.snake);
        assert_eq!((game.score, game.best_score), (0, 0));
        assert_eq!(game.last_move, now);
        assert!(!game.turn_pending);
        assert!((0..GRID_SIZE).contains(&game.apple.0));
        assert!((0..GRID_SIZE).contains(&game.apple.1));
        assert!(!game.snake.contains(&game.apple));
    }
}

#[test]
fn apples_land_on_many_free_cells() {
    let mut seen = std::collections::HashSet::new();
    let mut game = Game::new(0);
    for now in 0..200u64 {
        game.restart(now);
        assert!(!game.snake.contains(&game.apple));
        seen.insert(game.apple);
    }
    assert!(seen.len() > 20);
}

#[test]
fn apple_goes_to_the_only_free_cell() {
    let mut game = playing();
    let mut snake: Vec<(i32, i32)> = (0..GRID_SIZE)
        .flat_map(|row| (0..GRID_SIZE).map(move |column| (column, row)))
        .filter(|&cell| cell != (0, 0) && cell != (5, 5))
        .collect();
    let head = snake.iter().position(|&c| c == (1, 0)).unwrap();
    snake.swap(0, head);
    game.snake = snake;
    game.direction = Direction::Left;
    game.apple = (0, 0);
    assert!(game.tick_defined(MOVE_INTERVAL));
    game.update(MOVE_INTERVAL);
    assert_eq!(game.phase, Phase::Playing);
    assert_eq!(game.snake.len(), 399);
    assert_eq!(game.apple, (5, 5));
}

#[test]
fn update_waits_exactly_one_interval() {
    let mut game = playing();
    game.update(MOVE_INTERVAL - 1);
    assert_eq!(game.snake[0], (10, 10));
    game.update(MOVE_INTERVAL);
    assert_eq!(game.snake[0], (11, 10));
    assert_eq!(game.last_move, MOVE_INTERVAL);
    assert_eq!(game.previous_snake, vec![(10, 10), (9, 10), (8, 10)]);
    assert_eq!(game.snake, vec![(11, 10), (10, 10), (9, 10)]);
}

#[test]
fn clock_going_back_does_not_move() {
    let mut game = playing();
    game.update(MOVE_INTERVAL);
    game.update(10);
    assert_eq!(game.snake[0], (11, 10));
}

#[test]
fn turn_is_ignored_outside_play() {
    let mut game = Game::new(0);
    game.turn(Direction::Up);
    assert_eq!(game.direction, Direction::Right);
    assert!(!game.turn_pending);
    let mut paused = playing();
    paused.toggle_pause(5);
    paused.turn(Direction::Down);
    assert_eq!(paused.direction, Direction::Right);
}

#[test]
fn turn_into_same_direction_keeps_the_turn_available() {
    let mut game = playing();
    game.turn(Direction::Right);
    assert!(!game.turn_pending);
    game.turn(Direction::Down);
    assert!(game.turn_pending);
    assert_eq!(game.direction, Direction::Down);
}

#[test]
fn tick_clears_pending_turn() {
    let mut game = playing();
    game.turn(Direction::Up);
    game.update(MOVE_INTERVAL);
    assert!(!game.turn_pending);
    game.turn(Direction::Left);
    assert_eq!(game.direction, Direction::Left);
}

#[test]
fn toggle_pause_does_nothing_before_or_after_a_round() {
    let mut game = Game::new(3);
    game.toggle_pause(99);
    assert_eq!(game.phase, Phase::Ready);
    assert_eq!(game.last_move, 3);
    let mut over = playing();
    over.phase = Phase::GameOver;
    over.toggle_pause(99);
    assert_eq!(over.phase, Phase::GameOver);
    assert_eq!(over.last_move, 0);
}

#[test]
fn pause_then_resume_restores_the_round() {
    let mut game = playing();
    game.update(MOVE_INTERVAL);
    let snake = game.snake.clone();
    game.toggle_pause(200_000);
    assert_eq!(game.phase, Phase::Paused);
    assert_eq!(game.previous_snake, snake);
    game.toggle_pause(300_000);
    assert_eq!(game.phase, Phase::Playing);
    assert_eq!(game.snake, snake);
    assert_eq!(game.last_move, 300_000);
}

#[test]
fn best_score_only_rises() {
    let mut game = playing();
    game.best_score = 3;
    game.apple = (11, 10);
    game.update(MOVE_INTERVAL);
    assert_eq!((game.score, game.best_score), (1, 3));
    game.score = 3;
    game.apple = (12, 10);
    game.update(2 * MOVE_INTERVAL);
    assert_eq!((game.score, game.best_score), (4, 4));
}

#[test]
fn bite_into_body_ends_round() {
    let mut game = playing();
    game.snake = vec![(10, 10), (10, 11), (11, 11), (11, 10), (12, 10)];
    let before = game.snake.clone();
    game.update(MOVE_INTERVAL);
    assert_eq!(game.phase, Phase::GameOver);
    assert_eq!(game.snake, before);
    assert_eq!(game.score, 0);
    game.update(10 * MOVE_INTERVAL);
    assert_eq!(game.snake, before);
}

#[test]
fn growing_onto_tail_is_a_bite() {
    let mut game = playing();
    game.snake = vec![(10, 10), (10, 11), (11, 11), (11, 10)];
    game.apple = (11, 10);
    game.update(MOVE_INTERVAL);
    assert_eq!(game.phase, Phase::GameOver);
}

#[test]
fn each_wall_ends_the_round() {
    let cases = [
        (vec![(0, 5), (1, 5), (2, 5)], Direction::Left),
        (vec![(19, 5), (18, 5), (17, 5)], Direction::Right),
        (vec![(5, 0), (5, 1), (5, 2)], Direction::Up),
        (vec![(5, 19), (5, 18), (5, 17)], Direction::Down),
    ];
    for (snake, direction) in cases {
        let mut game = playing();
        game.snake = snake.clone();
        game.direction = direction;
        game.update(MOVE_INTERVAL);
        assert_eq!(game.phase, Phase::GameOver);
        assert_eq!(game.snake, snake);
    }
}

#[test]
fn tick_defined_on_normal_rounds_and_refuses_empty_snake() {
    let game = playing();
    assert!(game.tick_defined(MOVE_INTERVAL));
    let mut empty = playing();
    empty.snake = Vec::new();
    assert!(!empty.tick_defined(MOVE_INTERVAL));
    assert!(empty.tick_defined(MOVE_INTERVAL - 1));
    let mut maxed = playing();
    maxed.score = u32::MAX;
    maxed.apple = (11, 10);
    assert!(!maxed.tick_defined(MOVE_INTERVAL));
}

#[test]
fn animation_progress_exact_values() {
    let mut game = playing();
    game.update(MOVE_INTERVAL);
    let at = MOVE_INTERVAL;
    assert_eq!(game.animation_progress(at), 0);
    assert_eq!(game.animation_progress(at - 5), 0);
    assert_eq!(game.animation_progress(at + EASE_TIME / 2), EASE_SCALE / 2);
    assert_eq!(game.animation_progress(at + EASE_TIME), EASE_SCALE);
    assert_eq!(game.animation_progress(at + 10 * EASE_TIME), EASE_SCALE);
    // p = 1/3: 3 p^2 - 2 p^3 = 7 / 27.
    assert_eq!(game.animation_progress(at + 25_000), EASE_SCALE / 27 * 7);
    let paused = Game::new(0);
    assert_eq!(paused.animation_progress(0), EASE_SCALE);
}

#[test]
fn free_cells_of_start_snake() {
    let snake = vec![(10, 10), (9, 10), (8, 10)];
    let free = free_cells(&snake);
    assert_eq!(free.len(), CELL_COUNT - 3);
    assert_eq!(free[0], (0, 0));
    assert_eq!(free[1], (1, 0));
    assert!(!free.contains(&(9, 10)));
    assert!(free.contains(&(19, 19)));
    assert!(contains_cell(&snake, 3, (8, 10)));
    assert!(!contains_cell(&snake, 2, (8, 10)));
    assert!(!contains_cell(&snake, 3, (7, 10)));
}

#[test]
fn hit_test_edges_are_inclusive() {
    let restart = restart_button();
    assert_eq!(restart, Bounds { x: 400, y: 99, w: 40, h: 40 });
    assert_eq!(hit_test(Phase::Playing, Pointer::at(400, 99)), Some(Action::Restart));
    assert_eq!(hit_test(Phase::Playing, Pointer::at(440, 139)), Some(Action::Restart));
    let beyond = Pointer { x_floor: 440, x_ceil: 441, y_floor: 100, y_ceil: 100 };
    assert_eq!(hit_test(Phase::Playing, beyond), None);
    let before = Pointer { x_floor: 399, x_ceil: 400, y_floor: 100, y_ceil: 100 };
    assert_eq!(hit_test(Phase::Playing, before), None);
    assert_eq!(hit_test(Phase::Won, primary_button().center()), Some(Action::Restart));
    assert_eq!(hit_test(Phase::Paused, pause_button().center()), Some(Action::TogglePause));
    assert_eq!(hit_test(Phase::Won, pause_button().center()), None);
    assert_eq!(hit_test(Phase::Ready, Pointer::at(0, 0)), None);
}

#[test]
fn pause_enabled_only_in_a_round() {
    assert!(pause_enabled(Phase::Playing));
    assert!(pause_enabled(Phase::Paused));
    assert!(!pause_enabled(Phase::Ready));
    assert!(!pause_enabled(Phase::GameOver));
    assert!(!pause_enabled(Phase::Won));
}

#[test]
fn labels_follow_phase() {
    assert_eq!(status_label(Phase::Ready), "Ready");
    assert_eq!(status_label(Phase::Playing), "In play");
    assert_eq!(status_label(Phase::Paused), "Paused");
    assert_eq!(status_label(Phase::GameOver), "Round complete");
    assert_eq!(status_label(Phase::Won), "Perfect run");
    assert_eq!(card_labels(Phase::Playing), None);
    assert_eq!(card_labels(Phase::Ready), Some(("Snake", "Play", "Space to play")));
    assert_eq!(card_labels(Phase::Paused), Some(("Paused", "Resume", "P to resume")));
    assert_eq!(card_labels(Phase::GameOver), Some(("Game over", "Play again", "Space to play")));
    assert_eq!(card_labels(Phase::Won), Some(("Board complete", "Play again", "Space to play")));
    assert_eq!(tooltip_label(false, Phase::Paused), "Restart");
    assert_eq!(tooltip_label(true, Phase::Paused), "Resume");
    assert_eq!(tooltip_label(true, Phase::Playing), "Pause");
}

#[test]
fn trail_starts_from_old_cells() {
    let previous = vec![(10, 10), (9, 10), (8, 10)];
    assert_eq!(trail_start(&previous, 1, (10, 10)), (9, 10));
    assert_eq!(trail_start(&previous, 3, (8, 10)), (8, 10));
    assert_eq!(trail_start(&previous, 7, (1, 1)), (8, 10));
    assert_eq!(trail_start(&Vec::new(), 0, (4, 4)), (4, 4));
}

#[test]
fn keys_map_to_actions_and_turns() {
    let mut input = no_input();
    assert_eq!(requested_action_of(Phase::Ready, &input), None);
    input.enter = true;
    assert_eq!(requested_action_of(Phase::Ready, &input), Some(Action::Restart));
    assert_eq!(requested_action_of(Phase::Playing, &input), None);
    input.p = true;
    assert_eq!(requested_action_of(Phase::Playing, &input), Some(Action::TogglePause));
    input.space = true;
    assert_eq!(requested_action_of(Phase::Playing, &input), Some(Action::Restart));
    let mut clicked = no_input();
    clicked.click = Some(primary_button().center());
    assert_eq!(requested_action_of(Phase::Paused, &clicked), Some(Action::TogglePause));
    let mut keys = no_input();
    keys.d = true;
    assert_eq!(requested_direction_of(&keys), Some(Direction::Right));
    keys.a = true;
    assert_eq!(requested_direction_of(&keys), Some(Direction::Left));
    keys.down = true;
    assert_eq!(requested_direction_of(&keys), Some(Direction::Down));
    keys.w = true;
    assert_eq!(requested_direction_of(&keys), Some(Direction::Up));
}

#[test]
fn handle_starts_pauses_and_steers() {
    let mut game = Game::new(0);
    let mut input = no_input();
    input.enter = true;
    input.up = true;
    handle(&mut game, &input, 50);
    assert_eq!(game.phase, Phase::Playing);
    assert_eq!(game.last_move, 50);
    assert_eq!(game.direction, Direction::Up);
    assert!(game.turn_pending);

    let mut pause = no_input();
    pause.p = true;
    handle(&mut game, &pause, 60);
    assert_eq!(game.phase, Phase::Paused);
    let mut click = no_input();
    click.click = Some(pause_button().center());
    handle(&mut game, &click, 70);
    assert_eq!(game.phase, Phase::Playing);
    assert_eq!(game.last_move, 70);

    game.best_score = 4;
    let mut restart = no_input();
    restart.click = Some(restart_button().center());
    handle(&mut game, &restart, 80);
    assert_eq!(game.phase, Phase::Playing);
    assert_eq!(game.best_score, 4);
    assert_eq!(game.direction, Direction::Right);
    assert!(!game.snake.contains(&game.apple));
}
