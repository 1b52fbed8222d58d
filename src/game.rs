//! One game in progress: the board, the snake, the food and the score, and
//! the step the shell runs once per frame.

use vstd::prelude::*;
use crate::food::{FoodOutcome, FoodSpawner, covers, first_food};
use crate::grid::{Board, Position};
use crate::score::ScoreManager;
use crate::state::AppState;
use crate::snake::{SnakeSimulation, SnakeState, START_X, START_Y};
use crate::timer::{TimerState, MOVE_INTERVAL_NANOS};

verus! {

/// Columns of the standard board.
pub const BOARD_WIDTH: i32 = 20;

/// Rows of the standard board.
pub const BOARD_HEIGHT: i32 = 15;

/// How a game stands after a step.
#[derive(Clone, Copy, Debug, PartialEq, Eq, Structural)]
pub enum StepOutcome {
    /// The game goes on.
    Continue,
    /// The head left the board or hit the body.
    Lost,
    /// The snake fills the board: no cell is left for food.
    Won,
}

/// The screen to show after a step with outcome `outcome`.
pub fn screen_after(outcome: StepOutcome) -> (r: AppState)
    ensures
        r == (match outcome {
            StepOutcome::Continue => AppState::Playing,
            StepOutcome::Lost => AppState::LoseScreen,
            StepOutcome::Won => AppState::WinScreen,
        }),
{
    match outcome {
        StepOutcome::Continue => AppState::Playing,
        StepOutcome::Lost => AppState::LoseScreen,
        StepOutcome::Won => AppState::WinScreen,
    }
}

/// The cells a snake in state `s` covers: the head, then the body.
pub open spec fn covered(s: SnakeState) -> Seq<Position> {
    seq![s.head] + s.body
}

/// A game: the pieces are public so that a shell can read and draw them.
#[derive(Debug)]
pub struct Game {
    pub board: Board,
    pub snake: SnakeSimulation,
    pub food: FoodSpawner,
    pub scores: ScoreManager,
}

impl Game {
    /// The board is valid and the head is on it, so the game can step.
    pub open spec fn in_play(&self) -> bool {
        self.board.wf() && self.board.has(self.snake@.head)
    }

    /// A new game on the standard 20 × 15 board, with `high_score` as the
    /// best score so far.
    pub fn new(high_score: u32) -> (r: Game)
        ensures
            r.in_play(),
            r.board == (Board { width: BOARD_WIDTH, height: BOARD_HEIGHT }),
            r.snake@ == (SnakeState {
                head: Position { x: START_X, y: START_Y },
                facing: crate::grid::Direction::Right,
                pending: None,
                body: Seq::empty(),
                vacated: Position { x: START_X, y: START_Y },
            }),
            r.snake.clock() == (TimerState { elapsed: 0, interval: MOVE_INTERVAL_NANOS as nat }),
            r.food@ == Some(first_food()),
            r.scores == (ScoreManager { score: 0, high_score }),
    {
        let board = Board::new(BOARD_WIDTH, BOARD_HEIGHT);
        let snake = SnakeSimulation::spawn();
        let mut food = FoodSpawner::new();
        let occupied = snake.occupied();
        proof {
            assert(occupied@[0] == snake@.head);
            assert(!occupied@.contains(first_food())) by {
                if occupied@.contains(first_food()) {
                    let k = choose|k: int| 0 <= k < occupied@.len() && occupied@[k] == first_food();
                    assert(k == 0);
                }
            };
        }
        food.place_initial(&board, &occupied);
        Game { board, snake, food, scores: ScoreManager::new(high_score) }
    }

    /// Starts a new run on the same board: the snake and the first food go
    /// back to their starting cells, and the score is closed as `sync` does.
    pub fn reset(&mut self)
        requires
            old(self).board.wf(),
            old(self).board.has(Position { x: START_X, y: START_Y }),
            old(self).board.has(first_food()),
        ensures
            final(self).in_play(),
            final(self).board == old(self).board,
            final(self).snake@ == (SnakeState {
                head: Position { x: START_X, y: START_Y },
                facing: crate::grid::Direction::Right,
                pending: None,
                body: Seq::empty(),
                vacated: Position { x: START_X, y: START_Y },
            }),
            final(self).snake.clock() == (TimerState { elapsed: 0, interval: MOVE_INTERVAL_NANOS as nat }),
            final(self).food@ == Some(first_food()),
            final(self).scores.score == 0,
            final(self).scores.high_score == if old(self).scores.score > old(self).scores.high_score {
                old(self).scores.score
            } else {
                old(self).scores.high_score
            },
    {
        self.snake = SnakeSimulation::spawn();
        let occupied = self.snake.occupied();
        proof {
            assert(occupied@[0] == self.snake@.head);
            assert(!occupied@.contains(first_food())) by {
                if occupied@.contains(first_food()) {
                    let k = choose|k: int| 0 <= k < occupied@.len() && occupied@[k] == first_food();
                    assert(k == 0);
                }
            };
        }
        self.food.place_initial(&self.board, &occupied);
        self.scores.sync();
    }

    /// One frame of `delta` nanoseconds. When the clock fires the snake
    /// moves; if the head lands on the food the snake grows, the score goes
    /// up and new food is drawn among the free cells. The game is lost when
    /// the head has left the board or hit the body, and won when no free
    /// cell is left for food.
    pub fn step(&mut self, delta: u64) -> (r: StepOutcome)
        requires
            old(self).in_play(),
        ensures
            final(self).board == old(self).board,
            final(self).snake.clock() == (TimerState {
                elapsed: ((old(self).snake.clock().elapsed + delta) % (
                old(self).snake.clock().interval as int)) as nat,
                interval: old(self).snake.clock().interval,
            }),
            old(self).snake.clock().elapsed + delta < old(self).snake.clock().interval ==> {
                &&& r is Continue
                &&& final(self).snake@ == old(self).snake@
                &&& final(self).food@ == old(self).food@
                &&& final(self).scores == old(self).scores
            },
            old(self).snake.clock().elapsed + delta >= old(self).snake.clock().interval ==> {
                let moved = old(self).snake@.advanced();
                let ate = old(self).food@ == Some(moved.head);
                &&& !ate ==> {
                    &&& final(self).snake@ == moved
                    &&& final(self).food@ == old(self).food@
                    &&& final(self).scores == old(self).scores
                }
                &&& ate ==> {
                    &&& final(self).snake@ == (SnakeState { body: moved.grown_body(), ..moved })
                    &&& final(self).scores.score == old(self).scores.score.saturating_add(1)
                    &&& final(self).scores.high_score == old(self).scores.high_score
                    &&& (final(self).food@ is None <==> covers(
                        final(self).board,
                        covered(final(self).snake@),
                    ))
                    &&& final(self).food@ matches Some(p) ==> final(self).board.has(p)
                        && !covered(final(self).snake@).contains(p)
                }
                &&& (r is Lost) == final(self).snake@.collides(final(self).board)
                &&& (r is Won) == (!final(self).snake@.collides(final(self).board) && ate
                    && final(self).food@ is None)
            },
            r is Continue ==> final(self).in_play(),
    {
        let event = self.snake.tick(delta);
        match event {
            crate::snake::MoveEvent::Idle => StepOutcome::Continue,
            crate::snake::MoveEvent::Moved { old_head: _, new_head } => {
                let mut won = false;
                if self.food.is_eaten(new_head) {
                    self.snake.grow();
                    self.scores.add_point();
                    let occupied = self.snake.occupied();
                    let placed = self.food.on_food_eaten(&self.board, &occupied);
                    if let FoodOutcome::NoSpaceLeft = placed {
                        won = true;
                    }
                }
                if self.snake.check_self_or_wall_collision(&self.board) {
                    StepOutcome::Lost
                } else if won {
                    StepOutcome::Won
                } else {
                    StepOutcome::Continue
                }
            },
        }
    }
}

} // verus!
