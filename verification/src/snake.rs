//! The snake: its body, its two headings, and the rules by which it turns,
//! moves and grows.

use vstd::prelude::*;
use crate::direction::Direction;
use crate::grid::{GridConfig, Position};

verus! {

/// What a snake is, as a mathematical value. The body is listed head first.
pub struct SnakeView {
    /// The heading that the next movement step uses.
    pub committed: Direction,
    /// The latest heading that was asked for and let through.
    pub pending: Direction,
    /// The cells of the body, the head at index 0 and the tail last.
    pub body: Seq<Position>,
    /// The cell that the tail left on the latest movement step.
    pub last_tail: Option<Position>,
}

/// Whether `p` is one of `body[start..]`.
pub open spec fn occupied_from(body: Seq<Position>, start: int, p: Position) -> bool {
    exists|i: int| start <= i < body.len() && #[trigger] body[i] == p
}

impl SnakeView {
    /// A snake has a head and at least one more segment, and the pending
    /// heading never points against the committed one.
    pub open spec fn wf(self) -> bool {
        &&& self.body.len() >= 2
        &&& self.pending != self.committed.spec_opposite()
    }

    /// The snake that every round starts with: two segments, facing right.
    pub open spec fn fresh() -> SnakeView {
        SnakeView {
            committed: Direction::Right,
            pending: Direction::Right,
            body: seq![Position { x: 3, y: 3 }, Position { x: 3, y: 2 }],
            last_tail: None,
        }
    }

    pub open spec fn head(self) -> Position {
        self.body[0]
    }

    pub open spec fn tail(self) -> Position {
        self.body.last()
    }

    /// Whether `p` is a cell of the body, the head included.
    pub open spec fn occupies(self, p: Position) -> bool {
        occupied_from(self.body, 0, p)
    }

    /// The snake after `requested` was asked for: a request that points
    /// against the committed heading is dropped, any other becomes pending.
    pub open spec fn requested(self, requested: Direction) -> SnakeView {
        if requested == self.committed.spec_opposite() {
            self
        } else {
            SnakeView { pending: requested, ..self }
        }
    }

    /// The snake after the pending heading was committed.
    pub open spec fn committed_pending(self) -> SnakeView {
        SnakeView { committed: self.pending, ..self }
    }

    /// Whether the head can take its next step without leaving the
    /// coordinate type.
    pub open spec fn can_move(self) -> bool {
        self.head().can_step(self.committed)
    }

    /// Where the next movement step puts the head.
    pub open spec fn next_head(self) -> Position {
        self.head().neighbor(self.committed)
    }

    /// Whether the next movement step takes the head off the grid.
    pub open spec fn hits_wall(self, grid: GridConfig) -> bool {
        !grid.contains(self.next_head())
    }

    /// Whether the next movement step takes the head onto a cell that a
    /// segment behind the head holds before the step. The neck counts, and so
    /// does the tail, though the tail is about to leave its cell.
    pub open spec fn hits_self(self) -> bool {
        occupied_from(self.body, 1, self.next_head())
    }

    /// The signals that the next movement step raises.
    pub open spec fn signals(self, grid: GridConfig) -> MoveSignals {
        MoveSignals { out_of_bounds: self.hits_wall(grid), self_collision: self.hits_self() }
    }

    /// The snake after one movement step: the head takes its step, every
    /// other segment takes the cell of the one before it, the cell that the
    /// tail left is recorded, and the pending heading is committed.
    pub open spec fn moved(self) -> SnakeView {
        SnakeView {
            committed: self.pending,
            pending: self.pending,
            body: seq![self.next_head()] + self.body.drop_last(),
            last_tail: Some(self.tail()),
        }
    }

    /// The snake after one growth: a new last segment on the recorded cell,
    /// or no change where no cell is recorded.
    pub open spec fn grown(self) -> SnakeView {
        match self.last_tail {
            Some(p) => SnakeView { body: self.body.push(p), ..self },
            None => self,
        }
    }
}

/// What one movement step reports. Both signals may be raised by the same
/// step; either one ends the round.
#[derive(Clone, Copy, Debug, PartialEq, Eq, Structural)]
pub struct MoveSignals {
    /// The head left the grid.
    pub out_of_bounds: bool,
    /// The head ran into the body.
    pub self_collision: bool,
}

impl MoveSignals {
    pub open spec fn spec_game_over(self) -> bool {
        self.out_of_bounds || self.self_collision
    }

    pub open spec fn spec_count(self) -> u8 {
        if self.out_of_bounds && self.self_collision {
            2
        } else if self.out_of_bounds || self.self_collision {
            1
        } else {
            0
        }
    }

    /// The report of a step that raised nothing.
    pub fn none() -> (r: MoveSignals)
        ensures
            r == (MoveSignals { out_of_bounds: false, self_collision: false }),
    {
        MoveSignals { out_of_bounds: false, self_collision: false }
    }

    /// Whether at least one game-over signal was raised.
    #[verifier::when_used_as_spec(spec_game_over)]
    pub fn game_over(self) -> (r: bool)
        ensures
            r == self.spec_game_over(),
    {
        self.out_of_bounds || self.self_collision
    }

    /// How many game-over signals were raised: 0, 1 or 2.
    #[verifier::when_used_as_spec(spec_count)]
    pub fn count(self) -> (r: u8)
        ensures
            r == self.spec_count(),
            (r > 0) == self.spec_game_over(),
    {
        let a: u8 = if self.out_of_bounds { 1 } else { 0 };
        let b: u8 = if self.self_collision { 1 } else { 0 };
        a + b
    }
}

/// The snake of one round.
#[derive(Debug)]
pub struct Snake {
    committed_direction: Direction,
    pending_direction: Direction,
    body: Vec<Position>,
    last_tail_position: Option<Position>,
}

impl View for Snake {
    type V = SnakeView;

    closed spec fn view(&self) -> SnakeView {
        SnakeView {
            committed: self.committed_direction,
            pending: self.pending_direction,
            body: self.body@,
            last_tail: self.last_tail_position,
        }
    }
}

/// Whether `p` is one of `body[start..]`.
fn holds_from(body: &Vec<Position>, start: usize, p: Position) -> (r: bool)
    ensures
        r == occupied_from(body@, start as int, p),
{
    let mut i: usize = start;
    while i < body.len()
        invariant
            start <= i,
            forall|j: int| start <= j < i && j < body@.len() ==> body@[j] != p,
        decreases body.len() - i,
    {
        if body[i] == p {
            return true;
        }
        i += 1;
    }
    false
}

/// Moves every element one place towards the end, drops the last, and puts
/// `head` in front.
fn shift_in(body: &mut Vec<Position>, head: Position)
    requires
        old(body)@.len() >= 1,
    ensures
        final(body)@ == seq![head] + old(body)@.drop_last(),
{
    let n: usize = body.len();
    let mut i: usize = n - 1;
    while i > 0
        invariant
            body@.len() == n,
            n == old(body)@.len(),
            i < n,
            forall|j: int| 0 <= j <= i ==> body@[j] == old(body)@[j],
            forall|j: int| i < j < n ==> body@[j] == old(body)@[j - 1],
        decreases i,
    {
        let prev = body[i - 1];
        body.set(i, prev);
        i -= 1;
    }
    body.set(0, head);
    assert(body@ =~= seq![head] + old(body)@.drop_last());
}

impl Snake {
    /// The snake that every round starts with: the head on `(3, 3)`, one
    /// segment below it on `(3, 2)`, facing right, with no cell recorded for
    /// growth.
    pub fn spawn() -> (r: Snake)
        ensures
            r@ == SnakeView::fresh(),
            r@.wf(),
    {
        let mut body: Vec<Position> = Vec::new();
        body.push(Position { x: 3, y: 3 });
        body.push(Position { x: 3, y: 2 });
        let r = Snake {
            committed_direction: Direction::Right,
            pending_direction: Direction::Right,
            body,
            last_tail_position: None,
        };
        assert(r@.body =~= SnakeView::fresh().body);
        r
    }

    /// A snake in a given state, where that state is one a snake can be in:
    /// at least two segments, and a pending heading that does not point
    /// against the committed one.
    pub fn from_parts(
        body: Vec<Position>,
        committed: Direction,
        pending: Direction,
        last_tail: Option<Position>,
    ) -> (r: Option<Snake>)
        ensures
            r is Some <==> body@.len() >= 2 && pending != committed.spec_opposite(),
            r is Some ==> r->0@ == (SnakeView { committed, pending, body: body@, last_tail }),
            r is Some ==> r->0@.wf(),
    {
        if body.len() >= 2 && !pending.is_reverse_of(committed) {
            Some(
                Snake {
                    committed_direction: committed,
                    pending_direction: pending,
                    body,
                    last_tail_position: last_tail,
                },
            )
        } else {
            None
        }
    }

    pub fn committed_direction(&self) -> (r: Direction)
        ensures
            r == self@.committed,
    {
        self.committed_direction
    }

    pub fn pending_direction(&self) -> (r: Direction)
        ensures
            r == self@.pending,
    {
        self.pending_direction
    }

    pub fn last_tail_position(&self) -> (r: Option<Position>)
        ensures
            r == self@.last_tail,
    {
        self.last_tail_position
    }

    /// The cells of the body, head first.
    pub fn body(&self) -> (r: &Vec<Position>)
        ensures
            r@ == self@.body,
    {
        &self.body
    }

    /// Number of segments, the head included.
    pub fn len(&self) -> (r: usize)
        ensures
            r == self@.body.len(),
    {
        self.body.len()
    }

    pub fn head(&self) -> (r: Position)
        requires
            self@.wf(),
        ensures
            r == self@.head(),
    {
        self.body[0]
    }

    pub fn tail(&self) -> (r: Position)
        requires
            self@.wf(),
        ensures
            r == self@.tail(),
    {
        self.body[self.body.len() - 1]
    }

    /// Whether `p` is a cell of the body, the head included.
    pub fn occupies(&self, p: Position) -> (r: bool)
        ensures
            r == self@.occupies(p),
            r == self@.body.contains(p),
    {
        holds_from(&self.body, 0, p)
    }

    /// Takes a request for a heading. One that points against the committed
    /// heading is dropped and the pending heading stays as it was; any other
    /// becomes the pending heading.
    pub fn set_pending(&mut self, requested: Direction)
        requires
            old(self)@.wf(),
        ensures
            final(self)@ == old(self)@.requested(requested),
            final(self)@.wf(),
    {
        if !requested.is_reverse_of(self.committed_direction) {
            self.pending_direction = requested;
        }
    }

    /// Makes the pending heading the committed one.
    pub fn commit(&mut self)
        requires
            old(self)@.wf(),
        ensures
            final(self)@ == old(self)@.committed_pending(),
            final(self)@.wf(),
    {
        self.committed_direction = self.pending_direction;
    }

    /// Whether the head can take its next step without leaving the
    /// coordinate type, which is what `advance` asks for.
    pub fn can_advance(&self) -> (r: bool)
        requires
            self@.wf(),
        ensures
            r == self@.can_move(),
    {
        self.body[0].checked_step(self.committed_direction).is_some()
    }

    /// One movement step. The head takes a unit step along the committed
    /// heading, every other segment takes the cell that the segment before it
    /// held, the cell that the tail left is recorded, and the pending heading
    /// is committed for the step after this one. The step is taken whatever
    /// it runs into: the result says whether the head left the grid and
    /// whether it ran into a cell that a segment behind it held before the
    /// step.
    pub fn advance(&mut self, grid: &GridConfig) -> (signals: MoveSignals)
        requires
            old(self)@.wf(),
            old(self)@.can_move(),
        ensures
            final(self)@ == old(self)@.moved(),
            signals == old(self)@.signals(*grid),
            final(self)@.wf(),
            final(self)@.body.len() == old(self)@.body.len(),
            forall|i: int|
                0 < i < final(self)@.body.len() ==> final(self)@.body[i] == old(self)@.body[i - 1],
    {
        let new_head = self.body[0].step(self.committed_direction);
        let out_of_bounds = !grid.in_bounds(new_head);
        let self_collision = holds_from(&self.body, 1, new_head);
        let vacated = self.body[self.body.len() - 1];
        shift_in(&mut self.body, new_head);
        self.last_tail_position = Some(vacated);
        self.commit();
        MoveSignals { out_of_bounds, self_collision }
    }

    /// One growth: a new last segment on the cell that the tail left on the
    /// latest movement step. Where no such cell is recorded nothing changes.
    /// The result says whether the snake grew.
    pub fn grow(&mut self) -> (grew: bool)
        requires
            old(self)@.wf(),
        ensures
            final(self)@ == old(self)@.grown(),
            grew == old(self)@.last_tail.is_some(),
            final(self)@.wf(),
    {
        match self.last_tail_position {
            Some(p) => {
                self.body.push(p);
                true
            },
            None => false,
        }
    }
}

/// A request to turn round is dropped: asking for the heading opposite to the
/// committed one changes nothing. Whatever is asked for, the committed heading
/// stays and the pending heading never points against it.
pub proof fn lemma_reversal_is_dropped(s: SnakeView, d: Direction)
    requires
        s.wf(),
    ensures
        s.requested(s.committed.spec_opposite()) == s,
        s.requested(d).committed == s.committed,
        s.requested(d).pending != s.committed.spec_opposite(),
        s.requested(d).wf(),
{
}

/// Follow the leader: after a movement step every segment behind the head
/// holds the cell that the segment before it held before the step, the head
/// holds the cell one step along the heading that was committed, and the
/// cell that the tail left is the one recorded.
pub proof fn lemma_follow_the_leader(s: SnakeView)
    requires
        s.wf(),
    ensures
        s.moved().body.len() == s.body.len(),
        s.moved().body[0] == s.head().neighbor(s.committed),
        forall|i: int| 0 < i < s.body.len() ==> s.moved().body[i] == s.body[i - 1],
        s.moved().last_tail == Some(s.body[s.body.len() - 1]),
{
}

/// A movement step keeps a snake well formed, and the heading it commits is
/// never the opposite of the heading it has just moved along.
pub proof fn lemma_move_keeps_wf(s: SnakeView)
    requires
        s.wf(),
    ensures
        s.moved().wf(),
        s.moved().committed != s.committed.spec_opposite(),
{
}

/// Growth after a movement step adds exactly one segment, at the end, on the
/// cell that the tail left on that step, and moves no other segment.
pub proof fn lemma_growth_fills_vacated_cell(s: SnakeView)
    requires
        s.wf(),
    ensures
        s.moved().grown().body.len() == s.body.len() + 1,
        s.moved().grown().body.last() == s.tail(),
        s.moved().grown().body.drop_last() == s.moved().body,
        s.moved().grown().wf(),
{
    assert(s.moved().grown().body.drop_last() =~= s.moved().body);
}

/// Growth never shortens a snake: it adds one segment where a cell is
/// recorded and none where not.
pub proof fn lemma_growth_keeps_wf(s: SnakeView)
    requires
        s.wf(),
    ensures
        s.grown().wf(),
        s.grown().body.len() == s.body.len() + (if s.last_tail is Some { 1int } else { 0 }),
{
}

} // verus!
