//! What the screen offers: the buttons and their hit areas, and the words
//! shown for each phase of a round.
//!
//! Positions are in layout units, the fixed 480 x 656 frame that the screen
//! is scaled to.

use vstd::prelude::*;

use crate::game::Phase;
use crate::grid::Cell;

verus! {

/// What a click on a button asks for.
#[derive(Clone, Copy, Debug, PartialEq, Eq, Structural)]
pub enum Action {
    Restart,
    TogglePause,
}

/// A rectangle of the layout, edges included: left `x`, top `y`, width `w`
/// and height `h`.
#[derive(Clone, Copy, Debug, PartialEq, Eq, Structural)]
pub struct Bounds {
    pub x: i32,
    pub y: i32,
    pub w: i32,
    pub h: i32,
}

/// A pointer position, which may lie between whole layout units, given on
/// each axis by the whole units around it: `x_floor <= x <= x_ceil`, the two
/// equal where `x` is whole, and the same for `y`.
#[derive(Clone, Copy, Debug, PartialEq, Eq, Structural)]
pub struct Pointer {
    pub x_floor: i32,
    pub x_ceil: i32,
    pub y_floor: i32,
    pub y_ceil: i32,
}

impl Pointer {
    /// The whole units around each coordinate are the floor and the ceiling
    /// of a real number.
    pub open spec fn well_formed(self) -> bool {
        &&& self.x_floor <= self.x_ceil <= self.x_floor + 1
        &&& self.y_floor <= self.y_ceil <= self.y_floor + 1
    }

    /// The pointer at the whole position `(x, y)`.
    pub fn at(x: i32, y: i32) -> (pointer: Pointer)
        ensures
            pointer == (Pointer { x_floor: x, x_ceil: x, y_floor: y, y_ceil: y }),
            pointer.well_formed(),
    {
        Pointer { x_floor: x, x_ceil: x, y_floor: y, y_ceil: y }
    }
}

impl Bounds {
    /// The pointer lies within the rectangle, edges included. For a point
    /// between whole units this is exactly the test on the point itself,
    /// since the edges are whole: `x >= left` iff `floor(x) >= left`, and
    /// `x <= right` iff `ceil(x) <= right`.
    pub open spec fn covers(self, p: Pointer) -> bool {
        &&& self.x <= p.x_floor
        &&& p.x_ceil <= self.x + self.w
        &&& self.y <= p.y_floor
        &&& p.y_ceil <= self.y + self.h
    }

    pub fn contains(&self, p: Pointer) -> (inside: bool)
        ensures
            inside == self.covers(p),
    {
        let right = self.x as i64 + self.w as i64;
        let bottom = self.y as i64 + self.h as i64;
        self.x <= p.x_floor && (p.x_ceil as i64) <= right && self.y <= p.y_floor && (p.y_ceil as i64)
            <= bottom
    }

    /// The centre of a rectangle of even width and height.
    pub fn center(&self) -> (p: Pointer)
        requires
            self.w % 2 == 0,
            self.h % 2 == 0,
            self.w >= 0,
            self.h >= 0,
            self.x + self.w <= i32::MAX,
            self.y + self.h <= i32::MAX,
        ensures
            p.x_floor == p.x_ceil == self.x + self.w / 2,
            p.y_floor == p.y_ceil == self.y + self.h / 2,
            p.well_formed(),
    {
        Pointer::at(self.x + self.w / 2, self.y + self.h / 2)
    }
}

/// The pause and resume button above the board.
pub open spec fn pause_area() -> Bounds {
    Bounds { x: 352, y: 99, w: 40, h: 40 }
}

/// The restart button above the board.
pub open spec fn restart_area() -> Bounds {
    Bounds { x: 400, y: 99, w: 40, h: 40 }
}

/// The main button of the card shown over the board outside of play.
pub open spec fn primary_area() -> Bounds {
    Bounds { x: 152, y: 400, w: 176, h: 46 }
}

pub fn pause_button() -> (b: Bounds)
    ensures
        b == pause_area(),
{
    Bounds { x: 352, y: 99, w: 40, h: 40 }
}

pub fn restart_button() -> (b: Bounds)
    ensures
        b == restart_area(),
{
    Bounds { x: 400, y: 99, w: 40, h: 40 }
}

pub fn primary_button() -> (b: Bounds)
    ensures
        b == primary_area(),
{
    Bounds { x: 152, y: 400, w: 176, h: 46 }
}

/// Pausing makes sense only while a round is in play or paused.
pub open spec fn can_pause(phase: Phase) -> bool {
    phase == Phase::Playing || phase == Phase::Paused
}

pub fn pause_enabled(phase: Phase) -> (enabled: bool)
    ensures
        enabled == can_pause(phase),
{
    matches!(phase, Phase::Playing | Phase::Paused)
}

/// What a click at `p` asks for in `phase`: the restart button always
/// restarts; the pause button toggles the pause while a round is in play or
/// paused; outside of play the main button resumes a paused round and
/// starts a new one otherwise.
pub open spec fn hit(phase: Phase, p: Pointer) -> Option<Action> {
    if restart_area().covers(p) {
        Some(Action::Restart)
    } else if pause_area().covers(p) && can_pause(phase) {
        Some(Action::TogglePause)
    } else if phase != Phase::Playing && primary_area().covers(p) {
        Some(
            if phase == Phase::Paused {
                Action::TogglePause
            } else {
                Action::Restart
            },
        )
    } else {
        None
    }
}

pub fn hit_test(phase: Phase, p: Pointer) -> (action: Option<Action>)
    ensures
        action == hit(phase, p),
{
    if restart_button().contains(p) {
        Some(Action::Restart)
    } else if pause_button().contains(p) && pause_enabled(phase) {
        Some(Action::TogglePause)
    } else if phase != Phase::Playing && primary_button().contains(p) {
        Some(
            if phase == Phase::Paused {
                Action::TogglePause
            } else {
                Action::Restart
            },
        )
    } else {
        None
    }
}

/// The status line under the board.
pub fn status_label(phase: Phase) -> (label: &'static str)
    ensures
        phase == Phase::Ready ==> label@ == "Ready"@,
        phase == Phase::Playing ==> label@ == "In play"@,
        phase == Phase::Paused ==> label@ == "Paused"@,
        phase == Phase::GameOver ==> label@ == "Round complete"@,
        phase == Phase::Won ==> label@ == "Perfect run"@,
{
    match phase {
        Phase::Ready => "Ready",
        Phase::Playing => "In play",
        Phase::Paused => "Paused",
        Phase::GameOver => "Round complete",
        Phase::Won => "Perfect run",
    }
}

/// The title, the main button's label and the hint under it, of the card
/// shown over the board; there is no card while a round is in play.
pub fn card_labels(phase: Phase) -> (labels: Option<(&'static str, &'static str, &'static str)>)
    ensures
        phase == Phase::Playing <==> labels is None,
        phase == Phase::Ready ==> (labels matches Some((t, b, h)) && t@ == "Snake"@ && b@
            == "Play"@ && h@ == "Space to play"@),
        phase == Phase::Paused ==> (labels matches Some((t, b, h)) && t@ == "Paused"@ && b@
            == "Resume"@ && h@ == "P to resume"@),
        phase == Phase::GameOver ==> (labels matches Some((t, b, h)) && t@ == "Game over"@ && b@
            == "Play again"@ && h@ == "Space to play"@),
        phase == Phase::Won ==> (labels matches Some((t, b, h)) && t@ == "Board complete"@ && b@
            == "Play again"@ && h@ == "Space to play"@),
{
    match phase {
        Phase::Ready => Some(("Snake", "Play", "Space to play")),
        Phase::Paused => Some(("Paused", "Resume", "P to resume")),
        Phase::GameOver => Some(("Game over", "Play again", "Space to play")),
        Phase::Won => Some(("Board complete", "Play again", "Space to play")),
        Phase::Playing => None,
    }
}

/// The tooltip of a toolbar button: of the pause button when `is_pause`,
/// else of the restart button.
pub fn tooltip_label(is_pause: bool, phase: Phase) -> (label: &'static str)
    ensures
        !is_pause ==> label@ == "Restart"@,
        is_pause && phase == Phase::Paused ==> label@ == "Resume"@,
        is_pause && phase != Phase::Paused ==> label@ == "Pause"@,
{
    if !is_pause {
        "Restart"
    } else if phase == Phase::Paused {
        "Resume"
    } else {
        "Pause"
    }
}

/// Where the segment at `index` of the snake is drawn from while a move is
/// eased: its cell before the move, or, for a segment that did not exist
/// yet, the old tail, or, with no old snake at all, its own cell.
pub fn trail_start(previous: &Vec<Cell>, index: usize, cell: Cell) -> (start: Cell)
    ensures
        index < previous.len() ==> start == previous@[index as int],
        index >= previous.len() && previous.len() > 0 ==> start == previous@.last(),
        previous.len() == 0 ==> start == cell,
{
    if index < previous.len() {
        previous[index]
    } else if previous.len() > 0 {
        previous[previous.len() - 1]
    } else {
        cell
    }
}

} // verus!
