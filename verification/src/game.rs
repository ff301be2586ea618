//! The state of a round and the rules that move it from tick to tick.
//!
//! Time is counted in whole microseconds.

use vstd::prelude::*;

use crate::grid::{all_in_grid, contains_cell, free_cells, free_list, free_of, in_grid, lemma_distinct_cells_leave_room, Cell, CELL_COUNT, GRID_SIZE};

verus! {

/// Time between two moves of the snake, in microseconds.
pub const MOVE_INTERVAL: u64 = 120_000;

/// Time over which a move is eased on screen, in microseconds.
pub const EASE_TIME: u64 = 75_000;

/// `EASE_TIME` cubed: the eased progress of a move is a fraction of this.
pub const EASE_SCALE: u64 = 421_875_000_000_000;

#[derive(Clone, Copy, Debug, PartialEq, Eq, Structural)]
pub enum Direction {
    Up,
    Down,
    Left,
    Right,
}

impl Direction {
    /// The step, in columns and rows, that one move in this direction takes.
    pub open spec fn delta(self) -> Cell {
        match self {
            Direction::Up => (0i32, -1i32),
            Direction::Down => (0i32, 1i32),
            Direction::Left => (-1i32, 0i32),
            Direction::Right => (1i32, 0i32),
        }
    }

    /// The two directions step exactly against each other.
    pub open spec fn is_opposite(self, other: Direction) -> bool {
        self.delta().0 + other.delta().0 == 0 && self.delta().1 + other.delta().1 == 0
    }

    pub fn offset(self) -> (step: Cell)
        ensures
            step == self.delta(),
    {
        match self {
            Direction::Up => (0, -1),
            Direction::Down => (0, 1),
            Direction::Left => (-1, 0),
            Direction::Right => (1, 0),
        }
    }

    pub fn opposes(self, other: Self) -> (opposite: bool)
        ensures
            opposite == self.is_opposite(other),
    {
        let (horizontal, vertical) = self.offset();
        let (other_horizontal, other_vertical) = other.offset();
        horizontal + other_horizontal == 0 && vertical + other_vertical == 0
    }
}

#[derive(Clone, Copy, Debug, PartialEq, Eq, Structural)]
pub enum Phase {
    Ready,
    Playing,
    Paused,
    GameOver,
    Won,
}

/// A round of Snake. `snake[0]` is the head.
pub struct Game {
    pub snake: Vec<Cell>,
    pub previous_snake: Vec<Cell>,
    pub apple: Cell,
    pub direction: Direction,
    pub score: u32,
    pub best_score: u32,
    pub phase: Phase,
    pub turn_pending: bool,
    pub last_move: u64,
}

/// The mathematical value of a [`Game`].
pub struct GameView {
    pub snake: Seq<Cell>,
    pub previous_snake: Seq<Cell>,
    pub apple: Cell,
    pub direction: Direction,
    pub score: u32,
    pub best_score: u32,
    pub phase: Phase,
    pub turn_pending: bool,
    pub last_move: u64,
}

impl View for Game {
    type V = GameView;

    open spec fn view(&self) -> GameView {
        GameView {
            snake: self.snake@,
            previous_snake: self.previous_snake@,
            apple: self.apple,
            direction: self.direction,
            score: self.score,
            best_score: self.best_score,
            phase: self.phase,
            turn_pending: self.turn_pending,
            last_move: self.last_move,
        }
    }
}

/// The snake that every round starts with, heading right.
pub open spec fn start_snake() -> Seq<Cell> {
    seq![(10i32, 10i32), (9i32, 10i32), (8i32, 10i32)]
}

/// A round just set up at time `now`.
pub open spec fn fresh_game(now: u64, apple: Cell, best_score: u32, phase: Phase) -> GameView {
    GameView {
        snake: start_snake(),
        previous_snake: start_snake(),
        apple,
        direction: Direction::Right,
        score: 0,
        best_score,
        phase,
        turn_pending: false,
        last_move: now,
    }
}

impl GameView {
    /// The cell the head would move to, in unbounded arithmetic.
    pub open spec fn target(self) -> (int, int) {
        (self.snake[0].0 + self.direction.delta().0, self.snake[0].1 + self.direction.delta().1)
    }

    /// The cell the head moves to on the next tick.
    pub open spec fn next_head(self) -> Cell {
        (self.target().0 as i32, self.target().1 as i32)
    }

    /// The next move lands on the apple.
    pub open spec fn eats(self) -> bool {
        self.next_head() == self.apple
    }

    /// The cells the head may not move into: the whole body when the snake
    /// grows, else all but the tail, which moves away in the same tick.
    pub open spec fn occupied(self) -> Seq<Cell> {
        self.snake.take(self.snake.len() - if self.eats() { 0int } else { 1int })
    }

    /// The next move leaves the board or bites the body.
    pub open spec fn crashes(self) -> bool {
        !in_grid(self.next_head()) || self.occupied().contains(self.next_head())
    }

    /// At time `now` the snake is due to move.
    pub open spec fn tick_due(self, now: u64) -> bool {
        self.phase == Phase::Playing && now >= self.last_move + MOVE_INTERVAL
    }

    /// The snake with the new head in front.
    pub open spec fn grown(self) -> Seq<Cell> {
        seq![self.next_head()] + self.snake
    }

    /// The next tick eats an apple and a new one has to be placed.
    pub open spec fn spawns(self, now: u64) -> bool {
        self.tick_due(now) && !self.crashes() && self.eats() && self.grown().len() != CELL_COUNT
    }

    /// The inputs on which a tick at `now` is defined: a non-empty snake,
    /// a head whose next cell is representable, a score that can grow, and
    /// a free cell for the next apple when one is needed.
    pub open spec fn update_defined(self, now: u64) -> bool {
        self.tick_due(now) ==> {
            &&& self.snake.len() > 0
            &&& i32::MIN <= self.target().0 <= i32::MAX
            &&& i32::MIN <= self.target().1 <= i32::MAX
            &&& (!self.crashes() && self.eats()) ==> self.score < u32::MAX
            &&& self.spawns(now) ==> exists|c: Cell| #[trigger] free_of(self.grown()).contains(c)
        }
    }

    /// The state after a tick at `now`; `apple` is where a new apple goes
    /// if one is placed.
    pub open spec fn updated(self, now: u64, apple: Cell) -> GameView {
        if !self.tick_due(now) {
            self
        } else if self.crashes() {
            GameView { phase: Phase::GameOver, turn_pending: false, last_move: now, ..self }
        } else if self.eats() {
            let score = (self.score + 1) as u32;
            let wins = self.grown().len() == CELL_COUNT;
            GameView {
                snake: self.grown(),
                previous_snake: self.snake,
                apple: if wins { self.apple } else { apple },
                score,
                best_score: if score > self.best_score { score } else { self.best_score },
                phase: if wins { Phase::Won } else { self.phase },
                turn_pending: false,
                last_move: now,
                ..self
            }
        } else {
            GameView {
                snake: self.grown().drop_last(),
                previous_snake: self.snake,
                turn_pending: false,
                last_move: now,
                ..self
            }
        }
    }

    /// The state after asking to steer towards `direction`: accepted only
    /// while playing, once per move, and never straight back.
    pub open spec fn turned(self, direction: Direction) -> GameView {
        if self.phase == Phase::Playing && !self.turn_pending && direction != self.direction
            && !direction.is_opposite(self.direction) {
            GameView { direction, turn_pending: true, ..self }
        } else {
            self
        }
    }

    /// The state after pausing or resuming at time `now`.
    pub open spec fn toggled(self, now: u64) -> GameView {
        if self.phase == Phase::Playing {
            GameView { phase: Phase::Paused, previous_snake: self.snake, last_move: now, ..self }
        } else if self.phase == Phase::Paused {
            GameView { phase: Phase::Playing, previous_snake: self.snake, last_move: now, ..self }
        } else {
            self
        }
    }

    /// Microseconds of the current move shown on screen at `now`, between
    /// none and `EASE_TIME`; the whole move outside of play.
    pub open spec fn ease_elapsed(self, now: u64) -> int {
        if self.phase != Phase::Playing {
            EASE_TIME as int
        } else if now <= self.last_move {
            0
        } else if now - self.last_move >= EASE_TIME {
            EASE_TIME as int
        } else {
            now - self.last_move
        }
    }

    /// The eased progress `3 p^2 - 2 p^3` of the shown move, with
    /// `p = ease_elapsed / EASE_TIME`, as a multiple of `1 / EASE_SCALE`.
    pub open spec fn eased_progress(self, now: u64) -> int {
        let e = self.ease_elapsed(now);
        3 * EASE_TIME * e * e - 2 * e * e * e
    }

    /// The direction from the second cell of the snake to its head.
    pub open spec fn heading(self) -> (int, int) {
        (self.snake[0].0 - self.snake[1].0, self.snake[0].1 - self.snake[1].1)
    }

    /// The snake's direction is the one it last moved in, or, after a turn
    /// in this tick, one that does not lead back onto the second cell.
    pub open spec fn steers_clear(self) -> bool {
        if self.turn_pending {
            !(self.direction.delta().0 + self.heading().0 == 0 && self.direction.delta().1
                + self.heading().1 == 0)
        } else {
            self.direction.delta().0 == self.heading().0 && self.direction.delta().1
                == self.heading().1
        }
    }

    /// The invariant of every round that `Game::new` and `Game::restart`
    /// begin: distinct cells on the board, one more than three per point,
    /// an apple on a free cell until the board is full, a best score no
    /// lower than the score, and no way back onto the second cell while
    /// the round can still move.
    pub open spec fn well_formed(self) -> bool {
        &&& self.snake.len() == self.score + 3
        &&& self.snake.no_duplicates()
        &&& all_in_grid(self.snake)
        &&& self.score <= self.best_score
        &&& self.phase != Phase::Won ==> free_of(self.snake).contains(self.apple)
        &&& self.phase == Phase::Won ==> self.snake.len() == CELL_COUNT
        &&& (self.phase == Phase::Ready || self.phase == Phase::Playing || self.phase
            == Phase::Paused) ==> self.steers_clear()
    }
}

/// A number drawn at random, with the bound it was drawn below.
pub struct Draw {
    pub index: usize,
    pub range: usize,
}

/// Picks a random number below `high`, and records `high` beside it.
/// Calls `macroquad::rand::gen_range(0, high)` on `usize`, which scales a
/// 32-bit random value `r` to `high * r / 2^32` in `f64` and truncates: the
/// result is below `high` where `high` is small enough that the product is
/// exact. Which number comes out depends on the generator's state and is not
/// stated.
#[verifier::external_body]
fn random_below(high: usize) -> (draw: Draw)
    requires
        0 < high <= 0x10_0000,
    ensures
        draw.range == high,
        draw.index < high,
{
    Draw { index: macroquad::rand::gen_range(0usize, high), range: high }
}

/// A copy of `cells`.
fn copy_cells(cells: &Vec<Cell>) -> (copy: Vec<Cell>)
    ensures
        copy@ == cells@,
{
    let mut copy: Vec<Cell> = Vec::new();
    let mut i: usize = 0;
    while i < cells.len()
        invariant
            i <= cells.len(),
            copy@ == cells@.take(i as int),
        decreases cells.len() - i,
    {
        copy.push(cells[i]);
        i += 1;
        assert(copy@ =~= cells@.take(i as int));
    }
    assert(cells@.take(cells.len() as int) =~= cells@);
    copy
}

/// The cells of the snake that every round starts with.
fn start_cells() -> (cells: Vec<Cell>)
    ensures
        cells@ == start_snake(),
{
    let cells: Vec<Cell> = vec![(10, 10), (9, 10), (8, 10)];
    assert(cells@ =~= start_snake());
    cells
}

impl Game {
    /// A round waiting to start, with the best score at zero.
    pub fn new(now: u64) -> (game: Self)
        ensures
            game@ == fresh_game(now, game.apple, 0, Phase::Ready),
            free_of(start_snake()).contains(game.apple),
            game@.well_formed(),
    {
        let snake = start_cells();
        let mut game = Game {
            previous_snake: copy_cells(&snake),
            snake,
            apple: (0, 0),
            direction: Direction::Right,
            score: 0,
            best_score: 0,
            phase: Phase::Ready,
            turn_pending: false,
            last_move: now,
        };
        assert(free_of(game.snake@).contains((0i32, 0i32)));
        let _ = game.spawn_apple();
        assert(start_snake().no_duplicates());
        game
    }

    /// Starts a new round at `now`, keeping the best score.
    pub fn restart(&mut self, now: u64)
        ensures
            final(self)@ == fresh_game(now, final(self).apple, old(self).best_score, Phase::Playing),
            free_of(start_snake()).contains(final(self).apple),
            final(self)@.well_formed(),
    {
        let best_score = self.best_score;
        *self = Self::new(now);
        self.best_score = best_score;
        self.phase = Phase::Playing;
    }

    /// Pauses a round in play, or resumes a paused one; the move shown on
    /// screen restarts at `now`. Does nothing in any other phase.
    pub fn toggle_pause(&mut self, now: u64)
        ensures
            final(self)@ == old(self)@.toggled(now),
    {
        self.phase = match self.phase {
            Phase::Playing => Phase::Paused,
            Phase::Paused => Phase::Playing,
            _ => return ,
        };
        self.previous_snake = copy_cells(&self.snake);
        self.last_move = now;
    }

    /// Steers towards `direction` from the next move on.
    pub fn turn(&mut self, direction: Direction)
        ensures
            final(self)@ == old(self)@.turned(direction),
    {
        if self.phase == Phase::Playing && !self.turn_pending && direction != self.direction
            && !direction.opposes(self.direction) {
            self.direction = direction;
            self.turn_pending = true;
        }
    }

    /// How far the move shown on screen has got at `now`, eased, as a
    /// fraction of `EASE_SCALE`.
    pub fn animation_progress(&self, now: u64) -> (progress: u64)
        ensures
            progress == self@.eased_progress(now),
    {
        let elapsed: u64 = if self.phase != Phase::Playing {
            EASE_TIME
        } else if now <= self.last_move {
            0
        } else if now - self.last_move >= EASE_TIME {
            EASE_TIME
        } else {
            now - self.last_move
        };
        assert(elapsed * elapsed <= 75_000 * 75_000) by (nonlinear_arith)
            requires
                elapsed <= 75_000,
        ;
        let square = elapsed * elapsed;
        assert(square * elapsed <= square * 75_000 && square * 75_000 <= 75_000 * 75_000 * 75_000)
            by (nonlinear_arith)
            requires
                elapsed <= 75_000,
                square <= 75_000 * 75_000,
        ;
        let cube = square * elapsed;
        assert(3 * EASE_TIME * square - 2 * cube == 3 * EASE_TIME * elapsed * elapsed - 2 * elapsed
            * elapsed * elapsed) by (nonlinear_arith)
            requires
                square == elapsed * elapsed,
                cube == square * elapsed,
        ;
        3 * EASE_TIME * square - 2 * cube
    }

    /// Whether a tick at `now` is defined, as `Game::update` requires.
    pub fn tick_defined(&self, now: u64) -> (defined: bool)
        ensures
            defined == self@.update_defined(now),
    {
        if self.phase != Phase::Playing || now < self.last_move || now - self.last_move
            < MOVE_INTERVAL {
            return true;
        }
        if self.snake.len() == 0 {
            return false;
        }
        let head = self.snake[0];
        let (horizontal, vertical) = self.direction.offset();
        let x = head.0 as i64 + horizontal as i64;
        let y = head.1 as i64 + vertical as i64;
        if x < i32::MIN as i64 || x > i32::MAX as i64 || y < i32::MIN as i64 || y > i32::MAX as i64 {
            return false;
        }
        let next_head: Cell = (x as i32, y as i32);
        assert(next_head == self@.next_head());
        let eating = next_head.0 == self.apple.0 && next_head.1 == self.apple.1;
        let occupied_length = if eating {
            self.snake.len()
        } else {
            self.snake.len() - 1
        };
        let hit_wall = !(0 <= next_head.0 && next_head.0 < GRID_SIZE) || !(0 <= next_head.1
            && next_head.1 < GRID_SIZE);
        if hit_wall || contains_cell(&self.snake, occupied_length, next_head) || !eating {
            return true;
        }
        if self.score == u32::MAX {
            return false;
        }
        if self.snake.len() == CELL_COUNT - 1 {
            return true;
        }
        let free = free_cells(&self.snake);
        let ghost grown = self@.grown();
        let found = if free.len() >= 2 {
            let other = if free[0].0 == next_head.0 && free[0].1 == next_head.1 {
                free[1]
            } else {
                free[0]
            };
            assert(free@.contains(other));
            assert(other != next_head);
            assert(free_of(grown).contains(other));
            true
        } else if free.len() == 1 && !(free[0].0 == next_head.0 && free[0].1 == next_head.1) {
            assert(free@.contains(free@[0]));
            assert(free_of(grown).contains(free@[0]));
            true
        } else {
            false
        };
        if !found {
            assert forall|c: Cell| !free_of(grown).contains(c) by {
                if free_of(grown).contains(c) {
                    assert(grown[0] == next_head);
                    if self.snake@.contains(c) {
                        let i = choose|i: int| 0 <= i < self.snake@.len() && self.snake@[i] == c;
                        assert(grown[i + 1] == c);
                    }
                    assert(free_of(self.snake@).contains(c));
                    assert(free@.contains(c));
                    let k = choose|k: int| 0 <= k < free@.len() && free@[k] == c;
                }
            }
        }
        found
    }

    /// Moves the snake one cell if a move is due at `now`: the round ends on
    /// a wall or a bite, the snake grows and scores on an apple, and the
    /// round is won when the snake fills the board.
    pub fn update(&mut self, now: u64)
        requires
            old(self)@.update_defined(now),
        ensures
            final(self)@ == old(self)@.updated(now, final(self).apple),
            old(self)@.spawns(now) ==> free_of(final(self).snake@).contains(final(self).apple),
    {
        if self.phase != Phase::Playing || now < self.last_move || now - self.last_move
            < MOVE_INTERVAL {
            return ;
        }
        let ghost start = self@;
        self.last_move = now;
        self.turn_pending = false;

        let head = self.snake[0];
        let (horizontal, vertical) = self.direction.offset();
        let next_head: Cell = (head.0 + horizontal, head.1 + vertical);
        let eating = next_head.0 == self.apple.0 && next_head.1 == self.apple.1;
        let occupied_length = if eating {
            self.snake.len()
        } else {
            self.snake.len() - 1
        };
        let hit_wall = !(0 <= next_head.0 && next_head.0 < GRID_SIZE) || !(0 <= next_head.1
            && next_head.1 < GRID_SIZE);
        let hit_body = contains_cell(&self.snake, occupied_length, next_head);
        assert(next_head == start.next_head());
        assert(eating == start.eats());

        if hit_wall || hit_body {
            self.phase = Phase::GameOver;
            return ;
        }
        self.previous_snake = copy_cells(&self.snake);
        self.snake.insert(0, next_head);
        assert(self.snake@ =~= start.grown());
        if eating {
            self.score = self.score + 1;
            if self.score > self.best_score {
                self.best_score = self.score;
            }
            if self.snake.len() == CELL_COUNT {
                self.phase = Phase::Won;
            } else {
                let _ = self.spawn_apple();
            }
        } else {
            self.snake.pop();
        }
    }

    /// Places the apple on a random free cell of the board: the free cells
    /// are listed in reading order and one of them is drawn, so each is as
    /// likely as the generator makes its index.
    fn spawn_apple(&mut self) -> (draw: Draw)
        requires
            exists|c: Cell| #[trigger] free_of(old(self).snake@).contains(c),
        ensures
            draw.range == free_list(old(self).snake@).len(),
            draw.index < draw.range,
            final(self).apple == free_list(old(self).snake@)[draw.index as int],
            free_of(final(self).snake@).contains(final(self).apple),
            final(self)@ == (GameView { apple: final(self).apple, ..old(self)@ }),
    {
        let free = free_cells(&self.snake);
        proof {
            let c = choose|c: Cell| #[trigger] free_of(self.snake@).contains(c);
            assert(free@.contains(c));
            assert forall|i: int| 0 <= i < free@.len() implies in_grid(#[trigger] free@[i]) by {
                assert(free@.contains(free@[i]));
            }
            lemma_distinct_cells_leave_room(free@);
        }
        let draw = random_below(free.len());
        assert(free@.contains(free@[draw.index as int]));
        self.apple = free[draw.index];
        draw
    }
}

} // verus!
