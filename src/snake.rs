//! The snake: a head, its facing direction, a buffered direction command and
//! the ordered chain of body segments that trails it, advanced by a clock.

use vstd::prelude::*;
use crate::grid::{Board, Direction, Position, is_step, can_step, step};
use crate::timer::{MoveTimer, TimerState, MOVE_INTERVAL_NANOS};

verus! {

/// Column of the head when a game starts.
pub const START_X: i32 = 5;

/// Row of the head when a game starts.
pub const START_Y: i32 = 5;

/// The body after one move: the segment nearest the head takes the old head
/// position and every other segment takes the position of the one ahead of it.
pub open spec fn shifted_body(body: Seq<Position>, old_head: Position) -> Seq<Position> {
    Seq::new(body.len(), |i: int| if i == 0 { old_head } else { body[i - 1] })
}

/// The mathematical state of a [`SnakeSimulation`], without its clock.
pub ghost struct SnakeState {
    pub head: Position,
    pub facing: Direction,
    pub pending: Option<Direction>,
    pub body: Seq<Position>,
    /// The cell the head left on its last move; the head's own cell
    /// before the first move.
    pub vacated: Position,
}

impl SnakeState {
    /// The direction the next move goes in.
    pub open spec fn next_facing(self) -> Direction {
        match self.pending {
            Some(d) => d,
            None => self.facing,
        }
    }

    /// A direction command is taken unless it would turn the head straight
    /// into the first body segment.
    pub open spec fn accepts(self, d: Direction) -> bool {
        self.body.len() == 0 || !is_step(self.head, self.body[0], d)
    }

    /// `next` is the state one move after `self`.
    pub open spec fn moves_to(self, next: SnakeState) -> bool {
        &&& next.facing == self.next_facing()
        &&& next.pending is None
        &&& is_step(self.head, next.head, next.facing)
        &&& next.body == shifted_body(self.body, self.head)
        &&& next.vacated == self.head
    }

    /// The state one move after `self`, for a head that can step.
    pub open spec fn advanced(self) -> SnakeState {
        let d = self.next_facing();
        SnakeState {
            head: Position { x: (self.head.x + d.dx()) as i32, y: (self.head.y + d.dy()) as i32 },
            facing: d,
            pending: None,
            body: shifted_body(self.body, self.head),
            vacated: self.head,
        }
    }

    /// The first body segment lies right behind the head, as every move leaves it.
    pub open spec fn neck_behind(self) -> bool {
        self.body.len() == 0 || is_step(self.body[0], self.head, self.facing)
    }

    /// The head, or the body segment in front of segment `i`.
    pub open spec fn ahead_of(self, i: int) -> Position {
        if i == 0 {
            self.head
        } else {
            self.body[i - 1]
        }
    }

    /// The head sits on a body segment that is in its own place. A segment
    /// that shares its cell with the one in front of it was just added by
    /// growth and moves into place on the next move; it cannot be hit.
    pub open spec fn hits_body(self) -> bool {
        exists|i: int|
            0 <= i < self.body.len() && #[trigger] self.body[i] == self.head
                && self.body[i] != self.ahead_of(i)
    }

    /// The head has left `board` or hit its own body.
    pub open spec fn collides(self, board: Board) -> bool {
        !board.has(self.head) || self.hits_body()
    }

    /// The body after growth: one more segment on the cell of the last one
    /// (on the cell the head just left when there is no body yet).
    pub open spec fn grown_body(self) -> Seq<Position> {
        if self.body.len() == 0 {
            self.body.push(self.vacated)
        } else {
            self.body.push(self.body.last())
        }
    }
}

/// What one call of [`SnakeSimulation::tick`] did.
#[derive(Clone, Copy, Debug, PartialEq, Eq, Structural)]
pub enum MoveEvent {
    /// The clock did not reach its interval; nothing moved.
    Idle,
    /// The snake moved one cell.
    Moved { old_head: Position, new_head: Position },
}

/// The snake and its movement clock.
#[derive(Debug)]
pub struct SnakeSimulation {
    head: Position,
    facing: Direction,
    pending: Option<Direction>,
    body: Vec<Position>,
    vacated: Position,
    timer: MoveTimer,
}

impl View for SnakeSimulation {
    type V = SnakeState;

    closed spec fn view(&self) -> SnakeState {
        SnakeState {
            head: self.head,
            facing: self.facing,
            pending: self.pending,
            body: self.body@,
            vacated: self.vacated,
        }
    }
}

/// Whether `to` is one cell from `from` in direction `d`, without overflow.
fn lies_toward(from: Position, to: Position, d: Direction) -> (r: bool)
    ensures
        r == is_step(from, to, d),
{
    let fx = from.x as i64;
    let fy = from.y as i64;
    let tx = to.x as i64;
    let ty = to.y as i64;
    match d {
        Direction::Up => tx == fx && ty == fy - 1,
        Direction::Down => tx == fx && ty == fy + 1,
        Direction::Left => tx == fx - 1 && ty == fy,
        Direction::Right => tx == fx + 1 && ty == fy,
    }
}

/// Moves every segment onto the cell of the one ahead of it, the first one
/// onto `old_head`. Runs from the tail so that each segment reads the place
/// its neighbour held before the move.
fn shift_segments(body: &mut Vec<Position>, old_head: Position)
    ensures
        final(body)@ == shifted_body(old(body)@, old_head),
{
    let len = body.len();
    let ghost before = body@;
    if len > 0 {
        let mut i: usize = len - 1;
        while i > 0
            invariant
                0 <= i < len,
                len == before.len(),
                body@.len() == len,
                forall|j: int| 0 <= j <= i ==> #[trigger] body@[j] == before[j],
                forall|j: int| i < j < len ==> #[trigger] body@[j] == before[j - 1],
            decreases i,
        {
            let prev = body[i - 1];
            body[i] = prev;
            i = i - 1;
        }
        body[0] = old_head;
    }
    assert(body@ =~= shifted_body(before, old_head));
}

impl SnakeSimulation {
    /// The movement clock's state.
    pub closed spec fn clock(&self) -> TimerState {
        self.timer@
    }

    /// A snake with no body at `head`, facing `facing`, that moves once
    /// every `interval_nanos` nanoseconds.
    pub fn new(head: Position, facing: Direction, interval_nanos: u64) -> (r: SnakeSimulation)
        requires
            interval_nanos > 0,
        ensures
            r@ == (SnakeState { head, facing, pending: None, body: Seq::empty(), vacated: head }),
            r.clock() == (TimerState { elapsed: 0, interval: interval_nanos as nat }),
    {
        SnakeSimulation {
            head,
            facing,
            pending: None,
            body: Vec::new(),
            vacated: head,
            timer: MoveTimer::new(interval_nanos),
        }
    }

    /// The snake a game starts with: at column 5, row 5, facing right,
    /// moving ten times a second.
    pub fn spawn() -> (r: SnakeSimulation)
        ensures
            r@ == (SnakeState {
                head: Position { x: START_X, y: START_Y },
                facing: Direction::Right,
                pending: None,
                body: Seq::empty(),
                vacated: Position { x: START_X, y: START_Y },
            }),
            r.clock() == (TimerState { elapsed: 0, interval: MOVE_INTERVAL_NANOS as nat }),
    {
        SnakeSimulation::new(Position { x: START_X, y: START_Y }, Direction::Right, MOVE_INTERVAL_NANOS)
    }

    pub fn head(&self) -> (r: Position)
        ensures
            r == self@.head,
    {
        self.head
    }

    pub fn facing(&self) -> (r: Direction)
        ensures
            r == self@.facing,
    {
        self.facing
    }

    /// The cell the head left on its last move.
    pub fn vacated(&self) -> (r: Position)
        ensures
            r == self@.vacated,
    {
        self.vacated
    }

    pub fn pending(&self) -> (r: Option<Direction>)
        ensures
            r == self@.pending,
    {
        self.pending
    }

    /// The body segments, nearest the head first.
    pub fn body(&self) -> (r: &Vec<Position>)
        ensures
            r@ == self@.body,
    {
        &self.body
    }

    /// Every cell the snake covers: the head, then the body segments.
    pub fn occupied(&self) -> (r: Vec<Position>)
        ensures
            r@ == seq![self@.head] + self@.body,
    {
        let mut cells: Vec<Position> = Vec::new();
        cells.push(self.head);
        let mut i: usize = 0;
        while i < self.body.len()
            invariant
                i <= self.body@.len(),
                cells@ == seq![self.head] + self.body@.take(i as int),
            decreases self.body@.len() - i,
        {
            cells.push(self.body[i]);
            assert(self.body@.take(i as int + 1) == self.body@.take(i as int).push(self.body@[i as int]));
            i = i + 1;
        }
        assert(self.body@.take(self.body@.len() as int) == self.body@);
        cells
    }

    /// Buffers `d` as the direction of the next move, unless it would turn
    /// the head straight into the first body segment; returns whether it was
    /// taken. A later command before the move overwrites an earlier one.
    pub fn set_direction(&mut self, d: Direction) -> (accepted: bool)
        ensures
            accepted == old(self)@.accepts(d),
            final(self)@ == (SnakeState {
                pending: if accepted { Some(d) } else { old(self)@.pending },
                ..old(self)@
            }),
            final(self).clock() == old(self).clock(),
    {
        let accepted = self.body.len() == 0 || !lies_toward(self.head, self.body[0], d);
        if accepted {
            self.pending = Some(d);
        }
        accepted
    }

    /// Advances the clock by `delta` nanoseconds. When it reaches its
    /// interval the snake moves once: the buffered direction becomes the
    /// facing one, every body segment takes the place of the one ahead of it
    /// and the head steps one cell forward.
    pub fn tick(&mut self, delta: u64) -> (r: MoveEvent)
        requires
            old(self).clock().elapsed + delta >= old(self).clock().interval ==> can_step(old(self)@.head),
        ensures
            final(self).clock().interval > 0,
            final(self).clock() == (TimerState {
                elapsed: ((old(self).clock().elapsed + delta) % (old(self).clock().interval as int)) as nat,
                interval: old(self).clock().interval,
            }),
            (r is Moved) == (old(self).clock().elapsed + delta >= old(self).clock().interval),
            r is Moved ==> {
                &&& final(self)@ == old(self)@.advanced()
                &&& old(self)@.moves_to(final(self)@)
                &&& r == (MoveEvent::Moved { old_head: old(self)@.head, new_head: final(self)@.head })
            },
            r is Idle ==> final(self)@ == old(self)@,
    {
        let fired = self.timer.tick(delta);
        if !fired {
            return MoveEvent::Idle;
        }
        if let Some(d) = self.pending {
            self.facing = d;
        }
        self.pending = None;
        let old_head = self.head;
        shift_segments(&mut self.body, old_head);
        self.vacated = old_head;
        self.head = step(old_head, self.facing);
        MoveEvent::Moved { old_head, new_head: self.head }
    }

    /// Adds one segment at the tail, on the cell of the last segment (on the
    /// cell the head just left when there is no body yet); the next move
    /// brings it into place.
    pub fn grow(&mut self)
        ensures
            final(self)@ == (SnakeState { body: old(self)@.grown_body(), ..old(self)@ }),
            final(self).clock() == old(self).clock(),
    {
        let len = self.body.len();
        let tail = if len == 0 {
            self.vacated
        } else {
            self.body[len - 1]
        };
        self.body.push(tail);
    }

    /// Whether the head has left `board` or sits on a body segment that is in
    /// its own place.
    pub fn check_self_or_wall_collision(&self, board: &Board) -> (r: bool)
        ensures
            r == self@.collides(*board),
    {
        if !board.contains(self.head) {
            return true;
        }
        let mut i: usize = 0;
        while i < self.body.len()
            invariant
                i <= self.body@.len(),
                forall|j: int| 0 <= j < i ==> !(#[trigger] self.body@[j] == self@.head && self.body@[j] != self@.ahead_of(j)),
            decreases self.body@.len() - i,
        {
            let ahead = if i == 0 {
                self.head
            } else {
                self.body[i - 1]
            };
            if self.body[i] == self.head && self.body[i] != ahead {
                assert(self@.body[i as int] == self@.head && self@.body[i as int] != self@.ahead_of(i as int));
                return true;
            }
            i = i + 1;
        }
        false
    }
}

} // verus!

verus! {

/// Sum of the horizontal components of `dirs`.
pub open spec fn sum_dx(dirs: Seq<Direction>) -> int
    decreases dirs.len(),
{
    if dirs.len() == 0 {
        0
    } else {
        sum_dx(dirs.drop_last()) + dirs.last().dx()
    }
}

/// Sum of the vertical components of `dirs`.
pub open spec fn sum_dy(dirs: Seq<Direction>) -> int
    decreases dirs.len(),
{
    if dirs.len() == 0 {
        0
    } else {
        sum_dy(dirs.drop_last()) + dirs.last().dy()
    }
}

/// Movement is exact: when each head position in `heads` is one step from
/// the one before in the matching direction of `dirs`, as every move makes
/// it, the last head is the first one plus the sum of those unit vectors.
pub proof fn lemma_head_is_start_plus_moves(heads: Seq<Position>, dirs: Seq<Direction>)
    requires
        heads.len() == dirs.len() + 1,
        forall|k: int| 0 <= k < dirs.len() ==> is_step(#[trigger] heads[k], heads[k + 1], dirs[k]),
    ensures
        heads.last().x == heads[0].x + sum_dx(dirs),
        heads.last().y == heads[0].y + sum_dy(dirs),
    decreases dirs.len(),
{
    if dirs.len() > 0 {
        let n = dirs.len() - 1;
        let hs = heads.drop_last();
        let ds = dirs.drop_last();
        assert forall|k: int| 0 <= k < ds.len() implies is_step(#[trigger] hs[k], hs[k + 1], ds[k]) by {
            assert(is_step(heads[k], heads[k + 1], dirs[k]));
        };
        lemma_head_is_start_plus_moves(hs, ds);
        assert(is_step(heads[n], heads[n + 1], dirs[n]));
    }
}

/// The chain-delay property: when every body in `bodies` is the move of the
/// one before it behind the matching head of `heads` (no growth in between),
/// segment `i` (counted from 1) of body `n` holds the head of `i` moves
/// earlier.
pub proof fn lemma_body_delay(heads: Seq<Position>, bodies: Seq<Seq<Position>>, n: int)
    requires
        heads.len() == bodies.len(),
        forall|k: int|
            0 <= k < bodies.len() - 1 ==> #[trigger] bodies[k + 1] == shifted_body(bodies[k], heads[k]),
        0 <= n < bodies.len(),
    ensures
        forall|i: int| 1 <= i <= n && i <= bodies[n].len() ==> #[trigger] bodies[n][i - 1] == heads[n - i],
    decreases n,
{
    if n > 0 {
        lemma_body_delay(heads, bodies, n - 1);
        let k = n - 1;
        assert(bodies[k + 1] == shifted_body(bodies[k], heads[k]));
        assert forall|i: int| 1 <= i <= n && i <= bodies[n].len() implies #[trigger] bodies[n][i - 1] == heads[n - i] by {
            if i > 1 {
                assert(bodies[n][i - 1] == bodies[n - 1][i - 2]);
                assert(bodies[n - 1][(i - 1) - 1] == heads[(n - 1) - (i - 1)]);
            }
        };
    }
}

/// A move leaves the first body segment right behind the head, and growth
/// right after the move keeps it there.
pub proof fn lemma_move_puts_neck_behind(prev: SnakeState, next: SnakeState)
    requires
        prev.moves_to(next),
    ensures
        next.neck_behind(),
        (SnakeState { body: next.grown_body(), ..next }).neck_behind(),
{
}

/// With the first segment right behind the head, a command is refused
/// exactly when there is a body and it is the reverse of the facing direction.
pub proof fn lemma_reversal_refused(s: SnakeState, d: Direction)
    requires
        s.neck_behind(),
    ensures
        s.accepts(d) <==> !(s.body.len() > 0 && d == s.facing.reversed()),
{
}

} // verus!
