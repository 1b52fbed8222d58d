//! Food placement: the free cells of the board and the food on one of them.

use vstd::prelude::*;
use rand::seq::SliceRandom;
use crate::grid::{Board, Position};

verus! {

/// Column of the first food of a game.
pub const FIRST_FOOD_X: i32 = 10;

/// Row of the first food of a game.
pub const FIRST_FOOD_Y: i32 = 3;

/// Every cell of `board` is in `occupied`.
pub open spec fn covers(board: Board, occupied: Seq<Position>) -> bool {
    forall|p: Position| board.has(p) ==> occupied.contains(p)
}

/// The cell where the first food of a game lies.
pub open spec fn first_food() -> Position {
    Position { x: FIRST_FOOD_X, y: FIRST_FOOD_Y }
}

/// Where new food went after some was eaten.
#[derive(Clone, Copy, Debug, PartialEq, Eq, Structural)]
pub enum FoodOutcome {
    /// Food now lies on this free cell.
    Placed(Position),
    /// Every cell is taken: the snake fills the board.
    NoSpaceLeft,
}

/// Whether `p` is one of `cells`.
pub fn position_in(cells: &Vec<Position>, p: Position) -> (r: bool)
    ensures
        r == cells@.contains(p),
{
    let mut i: usize = 0;
    while i < cells.len()
        invariant
            i <= cells@.len(),
            forall|j: int| 0 <= j < i ==> #[trigger] cells@[j] != p,
        decreases cells@.len() - i,
    {
        if cells[i] == p {
            assert(cells@[i as int] == p);
            return true;
        }
        i = i + 1;
    }
    false
}

/// The cells of `board` that are not in `occupied`, each once.
pub fn free_cells(board: &Board, occupied: &Vec<Position>) -> (r: Vec<Position>)
    ensures
        r@.no_duplicates(),
        forall|p: Position| #[trigger] r@.contains(p) <==> (board.has(p) && !occupied@.contains(p)),
{
    let cells = board.all_cells();
    let mut free: Vec<Position> = Vec::new();
    let mut i: usize = 0;
    while i < cells.len()
        invariant
            i <= cells@.len(),
            cells@.no_duplicates(),
            forall|p: Position| cells@.contains(p) <==> board.has(p),
            free@.no_duplicates(),
            forall|p: Position|
                #[trigger] free@.contains(p) <==> (cells@.take(i as int).contains(p) && !occupied@.contains(p)),
        decreases cells@.len() - i,
    {
        let c = cells[i];
        let ghost seen = cells@.take(i as int);
        assert(cells@.take(i as int + 1) == seen.push(c));
        if !position_in(occupied, c) {
            let ghost before = free@;
            assert(!seen.contains(c)) by {
                if seen.contains(c) {
                    let k = choose|k: int| 0 <= k < seen.len() && seen[k] == c;
                    assert(cells@[k] == cells@[i as int]);
                }
            };
            assert(!before.contains(c));
            free.push(c);
            assert forall|p: Position|
                #[trigger] free@.contains(p) <==> (seen.push(c).contains(p) && !occupied@.contains(p)) by {
                if free@.contains(p) && p != c {
                    let k = choose|k: int| 0 <= k < free@.len() && free@[k] == p;
                    assert(before[k] == p);
                }
                if p != c && before.contains(p) {
                    let k = choose|k: int| 0 <= k < before.len() && before[k] == p;
                    assert(free@[k] == p);
                }
                if p == c {
                    assert(free@[before.len() as int] == p);
                }
                if seen.push(c).contains(p) && p != c {
                    let k = choose|k: int| 0 <= k < seen.len() + 1 && seen.push(c)[k] == p;
                    assert(seen[k] == p);
                }
                if seen.contains(p) {
                    let k = choose|k: int| 0 <= k < seen.len() && seen[k] == p;
                    assert(seen.push(c)[k] == p);
                }
                if p == c {
                    assert(seen.push(c)[seen.len() as int] == p);
                }
            };
        } else {
            assert forall|p: Position|
                #[trigger] free@.contains(p) <==> (seen.push(c).contains(p) && !occupied@.contains(p)) by {
                if seen.push(c).contains(p) && p != c {
                    let k = choose|k: int| 0 <= k < seen.len() + 1 && seen.push(c)[k] == p;
                    assert(seen[k] == p);
                }
                if seen.contains(p) {
                    let k = choose|k: int| 0 <= k < seen.len() && seen[k] == p;
                    assert(seen.push(c)[k] == p);
                }
            };
        }
        i = i + 1;
    }
    assert(cells@.take(cells@.len() as int) == cells@);
    free
}

/// Relies on `rand::seq::SliceRandom::choose` for slices, drawing from
/// `rand::thread_rng`: `None` for an empty slice, else one of its elements,
/// picked uniformly.
#[verifier::external_body]
fn choose_cell(cells: &Vec<Position>) -> (r: Option<Position>)
    ensures
        r is None <==> cells@.len() == 0,
        r matches Some(p) ==> cells@.contains(p),
{
    cells.as_slice().choose(&mut rand::thread_rng()).copied()
}

/// The food on the board: at most one cell.
#[derive(Debug)]
pub struct FoodSpawner {
    current: Option<Position>,
}

impl View for FoodSpawner {
    type V = Option<Position>;

    closed spec fn view(&self) -> Option<Position> {
        self.current
    }
}

impl FoodSpawner {
    /// No food yet.
    pub fn new() -> (r: FoodSpawner)
        ensures
            r@ is None,
    {
        FoodSpawner { current: None }
    }

    pub fn current(&self) -> (r: Option<Position>)
        ensures
            r == self@,
    {
        self.current
    }

    /// Puts the first food of a game on its fixed cell, column 10, row 3,
    /// which must be on the board and free.
    pub fn place_initial(&mut self, board: &Board, occupied: &Vec<Position>)
        requires
            board.has(first_food()),
            !occupied@.contains(first_food()),
        ensures
            final(self)@ == Some(first_food()),
    {
        self.current = Some(Position { x: FIRST_FOOD_X, y: FIRST_FOOD_Y });
    }

    /// Whether the head at `head` is on the food.
    pub fn is_eaten(&self, head: Position) -> (r: bool)
        ensures
            r == (self@ == Some(head)),
    {
        match self.current {
            Some(p) => p == head,
            None => false,
        }
    }

    /// Puts the food on the drawn cell `choice`, or records that there was
    /// no cell to draw from.
    pub fn place_choice(&mut self, choice: Option<Position>) -> (r: FoodOutcome)
        ensures
            final(self)@ == choice,
            r == (match choice {
                Some(p) => FoodOutcome::Placed(p),
                None => FoodOutcome::NoSpaceLeft,
            }),
    {
        self.current = choice;
        match choice {
            Some(p) => FoodOutcome::Placed(p),
            None => FoodOutcome::NoSpaceLeft,
        }
    }

    /// Replaces eaten food: draws a cell uniformly among the cells of
    /// `board` outside `occupied`, or reports that there is none.
    pub fn on_food_eaten(&mut self, board: &Board, occupied: &Vec<Position>) -> (r: FoodOutcome)
        ensures
            (r is NoSpaceLeft) <==> covers(*board, occupied@),
            r is NoSpaceLeft ==> final(self)@ is None,
            r matches FoodOutcome::Placed(p) ==> {
                &&& board.has(p)
                &&& !occupied@.contains(p)
                &&& final(self)@ == Some(p)
            },
    {
        let free = free_cells(board, occupied);
        let choice = choose_cell(&free);
        proof {
            if free@.len() > 0 {
                assert(free@.contains(free@[0]));
            }
            if free@.len() == 0 {
                assert forall|p: Position| board.has(p) implies occupied@.contains(p) by {
                    if !occupied@.contains(p) {
                        assert(free@.contains(p));
                    }
                };
            }
        }
        self.place_choice(choice)
    }
}

} // verus!
