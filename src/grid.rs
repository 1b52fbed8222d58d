//! Grid coordinates, unit directions and the rectangular board.

use vstd::prelude::*;

verus! {

/// A cell of the grid: `x` grows to the right, `y` grows downwards.
#[derive(Clone, Copy, Debug, PartialEq, Eq, Structural)]
pub struct Position {
    pub x: i32,
    pub y: i32,
}

impl Position {
    pub fn new(x: i32, y: i32) -> (r: Position)
        ensures
            r.x == x,
            r.y == y,
    {
        Position { x, y }
    }
}

/// One of the four unit displacements on the grid.
#[derive(Clone, Copy, Debug, PartialEq, Eq, Structural)]
pub enum Direction {
    Up,
    Down,
    Left,
    Right,
}

impl Direction {
    /// Horizontal component of the unit displacement.
    pub open spec fn dx(self) -> int {
        match self {
            Direction::Left => -1,
            Direction::Right => 1,
            _ => 0,
        }
    }

    /// Vertical component of the unit displacement (rows grow downwards).
    pub open spec fn dy(self) -> int {
        match self {
            Direction::Up => -1,
            Direction::Down => 1,
            _ => 0,
        }
    }

    pub open spec fn reversed(self) -> Direction {
        match self {
            Direction::Up => Direction::Down,
            Direction::Down => Direction::Up,
            Direction::Left => Direction::Right,
            Direction::Right => Direction::Left,
        }
    }

    /// The direction that points the other way.
    pub fn opposite(self) -> (r: Direction)
        ensures
            r == self.reversed(),
            r.dx() == -self.dx(),
            r.dy() == -self.dy(),
    {
        match self {
            Direction::Up => Direction::Down,
            Direction::Down => Direction::Up,
            Direction::Left => Direction::Right,
            Direction::Right => Direction::Left,
        }
    }
}

/// `to` is one unit cell away from `from`, in direction `d`.
pub open spec fn is_step(from: Position, to: Position, d: Direction) -> bool {
    to.x == from.x + d.dx() && to.y == from.y + d.dy()
}

/// A position can move one cell in any direction without leaving `i32`.
pub open spec fn can_step(p: Position) -> bool {
    i32::MIN < p.x < i32::MAX && i32::MIN < p.y < i32::MAX
}

/// The cell next to `p` in direction `d`.
pub fn step(p: Position, d: Direction) -> (r: Position)
    requires
        can_step(p),
    ensures
        is_step(p, r, d),
{
    match d {
        Direction::Up => Position { x: p.x, y: p.y - 1 },
        Direction::Down => Position { x: p.x, y: p.y + 1 },
        Direction::Left => Position { x: p.x - 1, y: p.y },
        Direction::Right => Position { x: p.x + 1, y: p.y },
    }
}

/// A rectangular board of `width` × `height` cells, both positive.
#[derive(Clone, Copy, Debug, PartialEq, Eq, Structural)]
pub struct Board {
    pub width: i32,
    pub height: i32,
}

impl Board {
    pub open spec fn wf(self) -> bool {
        self.width > 0 && self.height > 0
    }

    pub open spec fn has(self, p: Position) -> bool {
        0 <= p.x < self.width && 0 <= p.y < self.height
    }

    pub fn new(width: i32, height: i32) -> (r: Board)
        requires
            width > 0,
            height > 0,
        ensures
            r.wf(),
            r.width == width,
            r.height == height,
    {
        Board { width, height }
    }

    /// Whether `p` lies on the board.
    pub fn contains(&self, p: Position) -> (r: bool)
        ensures
            r == self.has(p),
    {
        0 <= p.x && p.x < self.width && 0 <= p.y && p.y < self.height
    }

    /// Every cell of the board exactly once, row by row.
    pub fn all_cells(&self) -> (r: Vec<Position>)
        ensures
            r@.no_duplicates(),
            forall|p: Position| r@.contains(p) <==> self.has(p),
    {
        let mut cells: Vec<Position> = Vec::new();
        let mut y: i32 = 0;
        while y < self.height
            invariant
                0 <= y <= self.height || (y == 0 && self.height <= 0),
                cells@.no_duplicates(),
                forall|p: Position| #[trigger] cells@.contains(p) <==> (self.has(p) && p.y < y),
            decreases self.height - y,
        {
            let mut x: i32 = 0;
            while x < self.width
                invariant
                    0 <= y < self.height,
                    0 <= x <= self.width || (x == 0 && self.width <= 0),
                    cells@.no_duplicates(),
                    forall|p: Position|
                        #[trigger] cells@.contains(p) <==> (self.has(p) && (p.y < y || (p.y == y && p.x < x))),
                decreases self.width - x,
            {
                let ghost before = cells@;
                let cell = Position { x, y };
                assert(!before.contains(cell));
                cells.push(cell);
                assert forall|p: Position|
                    cells@.contains(p) <==> (self.has(p) && (p.y < y || (p.y == y && p.x < x + 1))) by {
                    if cells@.contains(p) && p != cell {
                        let k = choose|k: int| 0 <= k < cells@.len() && cells@[k] == p;
                        assert(before[k] == p);
                    }
                    if p != cell && before.contains(p) {
                        let k = choose|k: int| 0 <= k < before.len() && before[k] == p;
                        assert(cells@[k] == p);
                    }
                    if p == cell {
                        assert(cells@[before.len() as int] == p);
                    }
                };
                x = x + 1;
            }
            y = y + 1;
        }
        cells
    }
}

} // verus!
