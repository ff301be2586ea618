//! What the keys and the mouse pressed in one frame do to a round.

use vstd::prelude::*;

use crate::game::{fresh_game, start_snake, Direction, Game, GameView, Phase};
use crate::grid::free_of;
use crate::ui::{hit, hit_test, Action, Pointer};

verus! {

/// The keys pressed in one frame, and where the left mouse button was
/// pressed, if it was.
#[derive(Clone, Copy, Debug, PartialEq, Eq, Structural)]
pub struct Input {
    pub space: bool,
    pub enter: bool,
    pub p: bool,
    pub click: Option<Pointer>,
    pub up: bool,
    pub w: bool,
    pub down: bool,
    pub s: bool,
    pub left: bool,
    pub a: bool,
    pub right: bool,
    pub d: bool,
}

/// What the frame asks of the round: Space restarts, and so does Enter
/// before the first round; else P toggles the pause; else a click does what
/// the button under it does.
pub open spec fn requested_action(phase: Phase, input: Input) -> Option<Action> {
    if input.space || (phase == Phase::Ready && input.enter) {
        Some(Action::Restart)
    } else if input.p {
        Some(Action::TogglePause)
    } else if input.click is Some {
        hit(phase, input.click->0)
    } else {
        None
    }
}

/// The direction the frame steers towards: an arrow key or its WASD twin,
/// up before down before left before right.
pub open spec fn requested_direction(input: Input) -> Option<Direction> {
    if input.up || input.w {
        Some(Direction::Up)
    } else if input.down || input.s {
        Some(Direction::Down)
    } else if input.left || input.a {
        Some(Direction::Left)
    } else if input.right || input.d {
        Some(Direction::Right)
    } else {
        None
    }
}

/// The round after the requested action at `now`; `apple` is the apple of
/// a restarted round.
pub open spec fn acted(game: GameView, action: Option<Action>, now: u64, apple: (i32, i32)) -> GameView {
    match action {
        Some(Action::Restart) => fresh_game(now, apple, game.best_score, Phase::Playing),
        Some(Action::TogglePause) => game.toggled(now),
        None => game,
    }
}

/// The round after the requested turn.
pub open spec fn steered(game: GameView, direction: Option<Direction>) -> GameView {
    match direction {
        Some(d) => game.turned(d),
        None => game,
    }
}

pub fn requested_action_of(phase: Phase, input: &Input) -> (action: Option<Action>)
    ensures
        action == requested_action(phase, *input),
{
    if input.space || (phase == Phase::Ready && input.enter) {
        Some(Action::Restart)
    } else if input.p {
        Some(Action::TogglePause)
    } else {
        match input.click {
            Some(pointer) => hit_test(phase, pointer),
            None => None,
        }
    }
}

pub fn requested_direction_of(input: &Input) -> (direction: Option<Direction>)
    ensures
        direction == requested_direction(*input),
{
    if input.up || input.w {
        Some(Direction::Up)
    } else if input.down || input.s {
        Some(Direction::Down)
    } else if input.left || input.a {
        Some(Direction::Left)
    } else if input.right || input.d {
        Some(Direction::Right)
    } else {
        None
    }
}

/// Applies one frame's input to the round at `now`: first the requested
/// restart or pause, then the requested turn.
pub fn handle(game: &mut Game, input: &Input, now: u64)
    ensures
        final(game)@ == steered(
            acted(old(game)@, requested_action(old(game).phase, *input), now, final(game).apple),
            requested_direction(*input),
        ),
        requested_action(old(game).phase, *input) == Some(Action::Restart) ==> free_of(
            start_snake(),
        ).contains(final(game).apple),
{
    let action = requested_action_of(game.phase, input);
    match action {
        Some(Action::Restart) => game.restart(now),
        Some(Action::TogglePause) => game.toggle_pause(now),
        None => {},
    }
    if let Some(direction) = requested_direction_of(input) {
        game.turn(direction);
    }
}

} // verus!
