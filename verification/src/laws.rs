//! What holds of every round, whatever the player does.

use vstd::prelude::*;

use crate::game::{fresh_game, start_snake, Direction, GameView, Phase, EASE_SCALE, EASE_TIME, MOVE_INTERVAL};
use crate::grid::{all_in_grid, free_list, free_of, in_grid, lemma_distinct_cells_leave_room, lemma_free_list_holds_every_free_cell, Cell, CELL_COUNT};
use crate::input::{acted, requested_action, requested_direction, steered, Input};
use crate::ui::{can_pause, hit, pause_area, primary_area, restart_area, Action, Pointer};

verus! {

/// No direction is its own opposite.
pub proof fn no_direction_opposes_itself(d: Direction)
    ensures
        !d.is_opposite(d),
{
}

/// One direction opposes another exactly when the other opposes it.
pub proof fn opposition_is_symmetric(a: Direction, b: Direction)
    ensures
        a.is_opposite(b) == b.is_opposite(a),
{
}

/// Every direction has exactly one opposite.
pub proof fn each_direction_has_one_opposite(a: Direction, b: Direction, c: Direction)
    ensures
        exists|o: Direction| a.is_opposite(o),
        a.is_opposite(b) && a.is_opposite(c) ==> b == c,
{
    let o = match a {
        Direction::Up => Direction::Down,
        Direction::Down => Direction::Up,
        Direction::Left => Direction::Right,
        Direction::Right => Direction::Left,
    };
    assert(a.is_opposite(o));
}

/// Every round begins well formed, before the first start and after each
/// restart.
pub proof fn fresh_round_is_well_formed(now: u64, apple: Cell, best_score: u32, phase: Phase)
    requires
        free_of(start_snake()).contains(apple),
        phase == Phase::Ready || phase == Phase::Playing,
    ensures
        fresh_game(now, apple, best_score, phase).well_formed(),
{
    let g = fresh_game(now, apple, best_score, phase);
    assert(g.snake[0] == (10i32, 10i32) && g.snake[1] == (9i32, 10i32) && g.snake[2] == (
    8i32,
    10i32,
    ));
}

/// The cells of the snake after a move: the new head in front of the body,
/// with the tail dropped unless the snake grows.
proof fn lemma_moved_snake(g: GameView)
    requires
        g.well_formed(),
        !g.crashes(),
    ensures
        g.grown().drop_last() =~= seq![g.next_head()] + g.snake.drop_last(),
        !g.eats() ==> g.occupied() =~= g.snake.drop_last(),
        g.eats() ==> g.occupied() =~= g.snake,
        g.eats() ==> g.grown().no_duplicates() && all_in_grid(g.grown()),
        !g.eats() ==> g.grown().drop_last().no_duplicates() && all_in_grid(g.grown().drop_last()),
{
    let nh = g.next_head();
    let body = if g.eats() {
        g.snake
    } else {
        g.snake.drop_last()
    };
    let moved = seq![nh] + body;
    assert(g.occupied() =~= body);
    assert(!body.contains(nh));
    assert forall|i: int, j: int| 0 <= i < moved.len() && 0 <= j < moved.len() && i != j implies moved[i]
        != moved[j] by {
        if i == 0 {
            assert(body[j - 1] == moved[j]);
        } else if j == 0 {
            assert(body[i - 1] == moved[i]);
        } else {
            assert(g.snake[i - 1] == moved[i] && g.snake[j - 1] == moved[j]);
        }
    }
    assert forall|i: int| 0 <= i < moved.len() implies in_grid(#[trigger] moved[i]) by {
        if i > 0 {
            assert(g.snake[i - 1] == moved[i]);
        }
    }
    if g.eats() {
        assert(moved =~= g.grown());
    } else {
        assert(moved =~= g.grown().drop_last());
    }
}

/// A well-formed round can always take its next tick: `Game::update`
/// accepts it at any time.
pub proof fn well_formed_round_can_tick(g: GameView, now: u64)
    requires
        g.well_formed(),
    ensures
        g.update_defined(now),
{
    if g.tick_due(now) {
        assert(in_grid(g.snake[0]));
        lemma_distinct_cells_leave_room(g.snake);
        if !g.crashes() && g.eats() {
            lemma_moved_snake(g);
            lemma_distinct_cells_leave_room(g.grown());
        }
    }
}

/// A tick keeps a round well formed, given that a new apple goes on a free
/// cell, as `Game::update` ensures.
pub proof fn tick_keeps_well_formed(g: GameView, now: u64, apple: Cell)
    requires
        g.well_formed(),
        g.spawns(now) ==> free_of(g.grown()).contains(apple),
    ensures
        g.updated(now, apple).well_formed(),
{
    let n = g.updated(now, apple);
    if g.tick_due(now) && !g.crashes() {
        assert(in_grid(g.snake[0]));
        lemma_moved_snake(g);
        lemma_distinct_cells_leave_room(g.snake);
        assert(n.snake[0] == g.next_head() && n.snake[1] == g.snake[0]);
        if !g.eats() {
            assert(!g.snake.drop_last().contains(g.apple));
        }
    }
}

/// Turning keeps a round well formed.
pub proof fn turn_keeps_well_formed(g: GameView, d: Direction)
    requires
        g.well_formed(),
    ensures
        g.turned(d).well_formed(),
{
}

/// Pausing and resuming keep a round well formed.
pub proof fn toggle_keeps_well_formed(g: GameView, now: u64)
    requires
        g.well_formed(),
    ensures
        g.toggled(now).well_formed(),
{
}

/// One frame of input keeps a round well formed, given that a restarted
/// round's apple goes on a free cell, as `handle` ensures.
pub proof fn frame_keeps_well_formed(g: GameView, input: Input, now: u64, apple: Cell)
    requires
        g.well_formed(),
        requested_action(g.phase, input) == Some(Action::Restart) ==> free_of(
            start_snake(),
        ).contains(apple),
    ensures
        steered(acted(g, requested_action(g.phase, input), now, apple), requested_direction(input)).well_formed(),
{
    let a = requested_action(g.phase, input);
    let m = acted(g, a, now, apple);
    if a == Some(Action::Restart) {
        fresh_round_is_well_formed(now, apple, g.best_score, Phase::Playing);
    }
    assert(m.well_formed());
}

/// The snake never turns back onto its own neck: in a well-formed round in
/// play the next head is never the second cell.
pub proof fn never_reverses_onto_neck(g: GameView)
    requires
        g.well_formed(),
        g.phase == Phase::Playing,
    ensures
        g.next_head() != g.snake[1],
{
    assert(in_grid(g.snake[0]));
    assert(g.snake[0] != g.snake[1]);
}

/// Only one turn is accepted per move: once a turn has been taken, further
/// turns change nothing until the snake has moved.
pub proof fn one_turn_per_move(g: GameView, first: Direction, second: Direction)
    requires
        g.turned(first) != g,
    ensures
        g.turned(first).turned(second) == g.turned(first),
        g.turned(first).turn_pending,
{
}

/// The next tick forgets the turn taken, so the move after it may turn
/// again.
pub proof fn tick_clears_turn(g: GameView, now: u64, apple: Cell)
    requires
        g.tick_due(now),
    ensures
        !g.updated(now, apple).turn_pending,
{
}

/// Outside of play the grid is frozen: a tick changes nothing.
pub proof fn tick_only_in_play(g: GameView, now: u64, apple: Cell)
    requires
        g.phase != Phase::Playing,
    ensures
        g.updated(now, apple) == g,
{
}

/// The snake moves at most once per movement interval.
pub proof fn tick_waits_for_interval(g: GameView, now: u64, apple: Cell)
    requires
        now < g.last_move + MOVE_INTERVAL,
    ensures
        g.updated(now, apple) == g,
{
}

/// Pausing and then resuming gives back the phase, the snake and the
/// direction of the round.
pub proof fn pause_then_resume(g: GameView, paused_at: u64, resumed_at: u64)
    requires
        can_pause(g.phase),
    ensures
        g.toggled(paused_at).toggled(resumed_at).phase == g.phase,
        g.toggled(paused_at).toggled(resumed_at).snake == g.snake,
        g.toggled(paused_at).toggled(resumed_at).direction == g.direction,
        g.toggled(paused_at).toggled(resumed_at).last_move == resumed_at,
{
}

/// The best score never drops with a tick, a turn or a pause.
pub proof fn best_score_never_drops(g: GameView, now: u64, apple: Cell, d: Direction)
    ensures
        g.updated(now, apple).best_score >= g.best_score,
        g.turned(d).best_score == g.best_score,
        g.toggled(now).best_score == g.best_score,
{
}

/// Eating grows the snake by one cell, at the head, and scores one point.
pub proof fn eating_grows_and_scores(g: GameView, now: u64, apple: Cell)
    requires
        g.tick_due(now),
        !g.crashes(),
        g.eats(),
        g.score < u32::MAX,
    ensures
        g.updated(now, apple).snake == seq![g.next_head()] + g.snake,
        g.updated(now, apple).score == g.score + 1,
        g.updated(now, apple).best_score >= g.updated(now, apple).score,
{
}

/// A move without an apple keeps the length: the head steps forward and the
/// tail follows.
pub proof fn moving_keeps_length(g: GameView, now: u64, apple: Cell)
    requires
        g.tick_due(now),
        g.snake.len() > 0,
        !g.crashes(),
        !g.eats(),
    ensures
        g.updated(now, apple).snake.len() == g.snake.len(),
        g.updated(now, apple).snake[0] == g.next_head(),
        g.updated(now, apple).score == g.score,
{
}

/// Hitting a wall or the body ends the round and leaves the body where it
/// was.
pub proof fn crash_ends_round_in_place(g: GameView, now: u64, apple: Cell)
    requires
        g.tick_due(now),
        g.crashes(),
    ensures
        g.updated(now, apple).phase == Phase::GameOver,
        g.updated(now, apple).snake == g.snake,
        g.updated(now, apple).score == g.score,
{
}

/// The head may move into the cell that the tail leaves in the same move.
pub proof fn tail_cell_is_free_to_enter(g: GameView)
    requires
        g.snake.len() >= 1,
        g.snake.no_duplicates(),
        !g.eats(),
        in_grid(g.next_head()),
        g.next_head() == g.snake.last(),
    ensures
        !g.crashes(),
{
    if g.occupied().contains(g.next_head()) {
        let i = choose|i: int| 0 <= i < g.occupied().len() && g.occupied()[i] == g.next_head();
        assert(g.snake[i] == g.snake[g.snake.len() - 1]);
    }
}

/// Filling the board wins the round, with no new apple.
pub proof fn filling_board_wins(g: GameView, now: u64, apple: Cell)
    requires
        g.tick_due(now),
        !g.crashes(),
        g.eats(),
        g.snake.len() + 1 == CELL_COUNT,
    ensures
        g.updated(now, apple).phase == Phase::Won,
        g.updated(now, apple).apple == g.apple,
        g.updated(now, apple).snake.len() == CELL_COUNT,
{
}

/// A won round stays won: no tick, turn or pause changes it.
pub proof fn won_round_stays_won(g: GameView, now: u64, apple: Cell, d: Direction)
    requires
        g.phase == Phase::Won,
    ensures
        g.updated(now, apple) == g,
        g.turned(d) == g,
        g.toggled(now) == g,
{
}

/// The eased progress of a move runs from nothing to the whole move.
pub proof fn eased_progress_is_a_fraction(g: GameView, now: u64)
    ensures
        0 <= g.eased_progress(now) <= EASE_SCALE,
        g.ease_elapsed(now) == 0 ==> g.eased_progress(now) == 0,
        g.ease_elapsed(now) == EASE_TIME ==> g.eased_progress(now) == EASE_SCALE,
{
    let e = g.ease_elapsed(now);
    let t = EASE_TIME as int;
    assert(0 <= 3 * t * e * e - 2 * e * e * e <= t * t * t) by (nonlinear_arith)
        requires
            0 <= e <= t,
    ;
    assert(e == 0 ==> 3 * t * e * e - 2 * e * e * e == 0) by (nonlinear_arith);
    assert(e == t ==> 3 * t * e * e - 2 * e * e * e == t * t * t) by (nonlinear_arith);
}

/// Outside of a round in play or paused, no click pauses or resumes.
pub proof fn pause_needs_a_round(phase: Phase, p: Pointer)
    ensures
        !can_pause(phase) ==> hit(phase, p) != Some(Action::TogglePause),
{
}

/// The buttons do not overlap, so a click asks for at most one thing.
pub proof fn buttons_are_apart(p: Pointer)
    requires
        p.well_formed(),
    ensures
        !(restart_area().covers(p) && pause_area().covers(p)),
        !(restart_area().covers(p) && primary_area().covers(p)),
        !(pause_area().covers(p) && primary_area().covers(p)),
{
}

/// The main button resumes a paused round, starts one otherwise, and is not
/// there while a round is in play.
pub proof fn primary_action_matches_phase(phase: Phase, p: Pointer)
    requires
        p.well_formed(),
        primary_area().covers(p),
    ensures
        phase == Phase::Playing ==> hit(phase, p) is None,
        phase == Phase::Paused ==> hit(phase, p) == Some(Action::TogglePause),
        phase == Phase::Ready || phase == Phase::GameOver || phase == Phase::Won ==> hit(phase, p)
            == Some(Action::Restart),
{
}

/// A round in play takes its tick as soon as 0.12 s have passed since the
/// last move, however late the call comes: the move is stamped with `now`
/// and the pending turn is spent. A head that stays on the board and does
/// not bite the body (the tail it leaves aside) lands on its next cell, one
/// step in the snake's direction, with the old snake behind it; otherwise
/// the round is over and the body stays.
pub proof fn due_tick_is_taken(g: GameView, now: u64, apple: Cell)
    requires
        g.phase == Phase::Playing,
        now >= g.last_move + 120_000,
        g.snake.len() > 0,
        i32::MIN <= g.snake[0].0 + g.direction.delta().0 <= i32::MAX,
        i32::MIN <= g.snake[0].1 + g.direction.delta().1 <= i32::MAX,
    ensures
        ({
            let n = g.updated(now, apple);
            let nh: Cell = (
                (g.snake[0].0 + g.direction.delta().0) as i32,
                (g.snake[0].1 + g.direction.delta().1) as i32,
            );
            let grows = nh == g.apple;
            let body = g.snake.take(g.snake.len() - if grows { 0int } else { 1int });
            &&& n.last_move == now
            &&& !n.turn_pending
            &&& (in_grid(nh) && !body.contains(nh)) ==> {
                &&& n.snake[0] == nh
                &&& n.snake.drop_first() == if grows { g.snake } else { g.snake.drop_last() }
                &&& n.previous_snake == g.snake
                &&& n.phase != Phase::GameOver
            }
            &&& (!in_grid(nh) || body.contains(nh)) ==> {
                &&& n.phase == Phase::GameOver
                &&& n.snake == g.snake
            }
        }),
{
    let n = g.updated(now, apple);
    if !g.crashes() {
        if g.eats() {
            assert(n.snake.drop_first() =~= g.snake);
        } else {
            assert(n.snake.drop_first() =~= g.snake.drop_last());
        }
    }
}

/// Every free cell of the board can become the apple: the number drawn to
/// place an apple ranges over the whole list of free cells (as
/// `Game::spawn_apple` ensures), and every free cell has a place in that list.
pub proof fn every_free_cell_can_be_the_apple(snake: Seq<Cell>, c: Cell)
    requires
        in_grid(c),
        !snake.contains(c),
    ensures
        exists|index: int| 0 <= index < free_list(snake).len() && free_list(snake)[index] == c,
{
    lemma_free_list_holds_every_free_cell(snake, c);
}

/// Space asks for a restart in every phase, whatever else is pressed.
pub proof fn space_always_restarts(phase: Phase, input: Input)
    requires
        input.space,
    ensures
        requested_action(phase, input) == Some(Action::Restart),
{
}

/// Enter starts the first round.
pub proof fn enter_starts_from_ready(input: Input)
    requires
        input.enter,
    ensures
        requested_action(Phase::Ready, input) == Some(Action::Restart),
{
}

/// P pauses or resumes, unless Space (or Enter before the first round)
/// asks for a restart in the same frame.
pub proof fn p_toggles_the_pause(phase: Phase, input: Input)
    requires
        input.p,
        !input.space,
        !(phase == Phase::Ready && input.enter),
    ensures
        requested_action(phase, input) == Some(Action::TogglePause),
{
}

/// Without a key that decides, a click does what the button under it does,
/// and no click asks for nothing.
pub proof fn click_does_what_its_button_does(phase: Phase, input: Input)
    requires
        !input.space,
        !input.p,
        !(phase == Phase::Ready && input.enter),
    ensures
        input.click is None ==> requested_action(phase, input) is None,
        input.click matches Some(p) ==> requested_action(phase, input) == hit(phase, p),
{
}

/// Each arrow key and its WASD twin steer their own way when no other
/// steering key is pressed, and no steering key asks for no turn.
pub proof fn each_steering_key_steers_its_way(input: Input)
    ensures
        (input.up || input.w) && !(input.down || input.s || input.left || input.a || input.right
            || input.d) ==> requested_direction(input) == Some(Direction::Up),
        (input.down || input.s) && !(input.up || input.w || input.left || input.a || input.right
            || input.d) ==> requested_direction(input) == Some(Direction::Down),
        (input.left || input.a) && !(input.up || input.w || input.down || input.s || input.right
            || input.d) ==> requested_direction(input) == Some(Direction::Left),
        (input.right || input.d) && !(input.up || input.w || input.down || input.s || input.left
            || input.a) ==> requested_direction(input) == Some(Direction::Right),
        (input.up || input.w || input.down || input.s || input.left || input.a || input.right
            || input.d) <==> requested_direction(input) is Some,
{
}

/// A click on the restart icon, from (400, 99) to (440, 139), asks for a
/// restart in every phase.
pub proof fn restart_icon_always_restarts(phase: Phase, p: Pointer)
    requires
        400 <= p.x_floor,
        p.x_ceil <= 440,
        99 <= p.y_floor,
        p.y_ceil <= 139,
    ensures
        hit(phase, p) == Some(Action::Restart),
{
}

/// A click on the pause icon, from (352, 99) to (392, 139), pauses or
/// resumes while a round is in play or paused.
pub proof fn pause_icon_toggles_in_a_round(phase: Phase, p: Pointer)
    requires
        p.well_formed(),
        352 <= p.x_floor,
        p.x_ceil <= 392,
        99 <= p.y_floor,
        p.y_ceil <= 139,
        phase == Phase::Playing || phase == Phase::Paused,
    ensures
        hit(phase, p) == Some(Action::TogglePause),
{
}

/// A click away from the three buttons asks for nothing.
pub proof fn click_off_the_buttons_does_nothing(phase: Phase, p: Pointer)
    requires
        p.well_formed(),
        p.y_ceil < 99 || (p.y_floor > 139 && p.y_ceil < 400) || p.y_floor > 446,
    ensures
        hit(phase, p) is None,
{
}

/// A turn asked for while the round is in play, with no turn taken since
/// the last move, towards a new direction that is not straight back, is
/// taken; nothing else about the round changes.
pub proof fn legal_turn_is_taken(g: GameView, d: Direction)
    requires
        g.phase == Phase::Playing,
        !g.turn_pending,
        d != g.direction,
        !(d.delta().0 + g.direction.delta().0 == 0 && d.delta().1 + g.direction.delta().1 == 0),
    ensures
        g.turned(d) == (GameView { direction: d, turn_pending: true, ..g }),
{
}

/// A turn straight back, or any turn outside of play, is refused.
pub proof fn illegal_turn_is_refused(g: GameView, d: Direction)
    requires
        g.phase != Phase::Playing || (d.delta().0 + g.direction.delta().0 == 0 && d.delta().1
            + g.direction.delta().1 == 0),
    ensures
        g.turned(d) == g,
{
}

/// Pausing a round in play pauses it and resuming a paused one resumes it,
/// each restarting the move shown on screen at `now`; in other phases the
/// toggle changes nothing.
pub proof fn toggle_swaps_play_and_pause(g: GameView, now: u64)
    ensures
        g.phase == Phase::Playing ==> g.toggled(now) == (GameView {
            phase: Phase::Paused,
            previous_snake: g.snake,
            last_move: now,
            ..g
        }),
        g.phase == Phase::Paused ==> g.toggled(now) == (GameView {
            phase: Phase::Playing,
            previous_snake: g.snake,
            last_move: now,
            ..g
        }),
        !(g.phase == Phase::Playing || g.phase == Phase::Paused) ==> g.toggled(now) == g,
{
}

/// A new round starts with the three-cell snake at (10, 10) heading right,
/// no score, no pending turn, the timer at `now`, and the best score kept.
pub proof fn fresh_round_starts_from_scratch(now: u64, apple: Cell, best_score: u32, phase: Phase)
    ensures
        fresh_game(now, apple, best_score, phase).snake == seq![(10i32, 10i32), (9i32, 10i32), (8i32, 10i32)],
        fresh_game(now, apple, best_score, phase).previous_snake == fresh_game(now, apple, best_score, phase).snake,
        fresh_game(now, apple, best_score, phase).direction == Direction::Right,
        fresh_game(now, apple, best_score, phase).score == 0,
        fresh_game(now, apple, best_score, phase).best_score == best_score,
        fresh_game(now, apple, best_score, phase).phase == phase,
        fresh_game(now, apple, best_score, phase).apple == apple,
        !fresh_game(now, apple, best_score, phase).turn_pending,
        fresh_game(now, apple, best_score, phase).last_move == now,
{
}

/// The best score after a tick is the larger of the old best and the new
/// score.
pub proof fn best_score_tracks_score(g: GameView, now: u64, apple: Cell)
    requires
        g.score < u32::MAX,
        g.score <= g.best_score,
    ensures
        g.updated(now, apple).best_score == if g.updated(now, apple).score > g.best_score {
            g.updated(now, apple).score
        } else {
            g.best_score
        },
        g.updated(now, apple).score == g.score || g.updated(now, apple).score == g.score + 1,
{
}

/// One frame of input: Space (or Enter before the first round) gives a
/// fresh round in play that keeps the best score, P swaps play and pause,
/// and a frame with no key and no click leaves the round alone.
pub proof fn frame_effects(g: GameView, input: Input, now: u64, apple: Cell)
    ensures
        ({
            let n = steered(acted(g, requested_action(g.phase, input), now, apple), requested_direction(input));
            &&& requested_action(g.phase, input) == Some(Action::Restart) ==> {
                &&& n.phase == Phase::Playing
                &&& n.score == 0
                &&& n.best_score == g.best_score
                &&& n.snake == seq![(10i32, 10i32), (9i32, 10i32), (8i32, 10i32)]
                &&& n.last_move == now
                &&& n.apple == apple
            }
            &&& (requested_action(g.phase, input) == Some(Action::TogglePause) && g.phase
                == Phase::Playing) ==> n.phase == Phase::Paused && n.snake == g.snake
            &&& (requested_action(g.phase, input) == Some(Action::TogglePause) && g.phase
                == Phase::Paused) ==> n.phase == Phase::Playing && n.snake == g.snake
            &&& (requested_action(g.phase, input) is None && requested_direction(input) is None)
                ==> n == g
        }),
{
}

/// The eased move never runs backwards: later moments show at least as much
/// of it. In play it starts from nothing at the last move and is whole
/// 75 ms later; outside of play it is shown whole.
pub proof fn eased_progress_runs_forward(g: GameView, earlier: u64, later: u64)
    requires
        earlier <= later,
    ensures
        g.eased_progress(earlier) <= g.eased_progress(later),
        g.phase == Phase::Playing ==> g.eased_progress(g.last_move) == 0,
        g.phase == Phase::Playing && g.last_move + 75_000 <= u64::MAX ==> g.eased_progress(
            (g.last_move + 75_000) as u64,
        ) == EASE_SCALE,
        g.phase != Phase::Playing ==> g.eased_progress(earlier) == EASE_SCALE,
{
    let a = g.ease_elapsed(earlier);
    let b = g.ease_elapsed(later);
    let t = EASE_TIME as int;
    assert(a <= b);
    assert(3 * t * a * a - 2 * a * a * a <= 3 * t * b * b - 2 * b * b * b) by (nonlinear_arith)
        requires
            0 <= a <= b <= t,
    {
        assert(a * a <= a * t);
        assert(a * b <= a * t);
        assert(b * b <= b * t);
        assert(a * t <= b * t);
        assert(3 * t * b * b - 2 * b * b * b - (3 * t * a * a - 2 * a * a * a) == (b - a) * (3 * t
            * (a + b) - 2 * (a * a + a * b + b * b)));
    }
    assert(t * t * t == EASE_SCALE);
    if g.phase == Phase::Playing && g.last_move + 75_000 <= u64::MAX {
        let e = g.ease_elapsed((g.last_move + 75_000) as u64);
        assert(e == t);
        assert(3 * t * e * e - 2 * e * e * e == t * t * t) by (nonlinear_arith)
            requires
                e == t,
        ;
    }
    if g.phase != Phase::Playing {
        assert(3 * t * a * a - 2 * a * a * a == t * t * t) by (nonlinear_arith)
            requires
                a == t,
        ;
    }
}

} // verus!
