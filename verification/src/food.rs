//! The food: where it may be put, how a place for it is found, and when it
//! is eaten.

use vstd::prelude::*;
use crate::grid::{GridConfig, Position};
use crate::snake::Snake;

verus! {

/// How many random cells are tried before the grid is searched in order.
pub const DRAW_LIMIT: u32 = 64;

/// Whether food may be put on `p`: a cell of the grid that no segment holds.
pub open spec fn is_free(grid: GridConfig, body: Seq<Position>, p: Position) -> bool {
    grid.contains(p) && !body.contains(p)
}

/// Whether the grid has a cell that no segment holds.
pub open spec fn has_free_cell(grid: GridConfig, body: Seq<Position>) -> bool {
    exists|p: Position| is_free(grid, body, p)
}

/// Whether `q` comes before `p` when the grid is read row by row from the
/// bottom, each row from the left.
pub open spec fn precedes(q: Position, p: Position) -> bool {
    q.y < p.y || (q.y == p.y && q.x < p.x)
}

/// Whether `p` is the first free cell in reading order.
pub open spec fn is_first_free(grid: GridConfig, body: Seq<Position>, p: Position) -> bool {
    &&& is_free(grid, body, p)
    &&& forall|q: Position| #[trigger]
        grid.contains(q) && precedes(q, p) ==> body.contains(q)
}

/// Calls `rand::random_range` on the half-open range from 0 to `bound`, with
/// the generator of the calling thread. The call panics on an empty range,
/// which the precondition rules out; all that is claimed of the number drawn
/// is that it lies in the range.
#[verifier::external_body]
fn random_below(bound: u32) -> (r: u32)
    requires
        bound > 0,
    ensures
        r < bound,
{
    rand::random_range(0..bound)
}

/// A cell of the grid, drawn at random: a column is drawn below the grid's
/// width and a row below its height, each on its own, and `GridConfig::cell`
/// gives the cell they name. Which cell comes out is up to the generator; it
/// is a cell of the grid whatever was drawn.
pub fn random_position(grid: &GridConfig) -> (p: Position)
    requires
        grid.wf(),
    ensures
        grid.contains(p),
{
    let column: u32 = random_below(grid.width());
    let row: u32 = random_below(grid.height());
    grid.cell(column, row).unwrap()
}

/// The first cell in reading order that no segment of `snake` holds, or
/// `None` where the snake fills the grid.
pub fn first_free_cell(grid: &GridConfig, snake: &Snake) -> (r: Option<Position>)
    requires
        grid.wf(),
    ensures
        match r {
            Some(p) => is_first_free(*grid, snake@.body, p),
            None => !has_free_cell(*grid, snake@.body),
        },
        r is Some <==> has_free_cell(*grid, snake@.body),
{
    let width: u32 = grid.width();
    let height: u32 = grid.height();
    let mut y: u32 = 0;
    while y < height
        invariant
            grid.wf(),
            width == grid.cols(),
            height == grid.rows(),
            y <= height,
            forall|q: Position| #[trigger] grid.contains(q) && q.y < y ==> snake@.body.contains(q),
        decreases height - y,
    {
        let mut x: u32 = 0;
        while x < width
            invariant
                grid.wf(),
                width == grid.cols(),
                height == grid.rows(),
                y < height,
                x <= width,
                forall|q: Position| #[trigger]
                    grid.contains(q) && q.y < y ==> snake@.body.contains(q),
                forall|q: Position| #[trigger]
                    grid.contains(q) && q.y == y && q.x < x ==> snake@.body.contains(q),
            decreases width - x,
        {
            let p = Position { x: x as i32, y: y as i32 };
            if !snake.occupies(p) {
                assert(is_free(*grid, snake@.body, p));
                return Some(p);
            }
            assert forall|q: Position| #[trigger]
                grid.contains(q) && q.y == y && q.x < x + 1 implies snake@.body.contains(q) by {
                if q.x == x {
                    assert(q == p);
                }
            }
            x += 1;
        }
        y += 1;
    }
    None
}

/// The food of one round: at most one piece.
#[derive(Debug)]
pub struct Food {
    position: Option<Position>,
}

impl View for Food {
    type V = Option<Position>;

    closed spec fn view(&self) -> Option<Position> {
        self.position
    }
}

impl Food {
    /// Whether the food fits a grid and a body: if there is a piece, it lies
    /// on a cell of the grid that no segment holds.
    pub open spec fn fits(self, grid: GridConfig, body: Seq<Position>) -> bool {
        self@ is Some ==> is_free(grid, body, self@->0)
    }

    /// No food.
    pub fn absent() -> (r: Food)
        ensures
            r@ is None,
    {
        Food { position: None }
    }

    /// A piece of food on `p`.
    pub fn at(p: Position) -> (r: Food)
        ensures
            r@ == Some(p),
    {
        Food { position: Some(p) }
    }

    /// Where the piece lies, if there is one.
    pub fn position(&self) -> (r: Option<Position>)
        ensures
            r == self@,
    {
        self.position
    }

    /// Removes the piece, if there is one.
    pub fn clear(&mut self)
        ensures
            final(self)@ is None,
    {
        self.position = None;
    }

    /// Tells whether the head has reached the food, and removes the food if
    /// so. Only the very cell counts: a head beside the food eats nothing.
    pub fn check_consumption(&mut self, head_position: Position) -> (eaten: bool)
        ensures
            eaten == (old(self)@ == Some(head_position)),
            final(self)@ == if eaten { None } else { old(self)@ },
    {
        match self.position {
            Some(p) => {
                if p == head_position {
                    self.position = None;
                    true
                } else {
                    false
                }
            },
            None => false,
        }
    }

    /// Offers a cell for a new piece. The piece is put there if there is no
    /// food yet and the cell is free; otherwise nothing changes. The result
    /// says whether it was put.
    pub fn offer(&mut self, candidate: Position, grid: &GridConfig, snake: &Snake) -> (placed: bool)
        ensures
            placed == (old(self)@ is None && is_free(*grid, snake@.body, candidate)),
            final(self)@ == if placed { Some(candidate) } else { old(self)@ },
    {
        if self.position.is_none() && grid.in_bounds(candidate) && !snake.occupies(candidate) {
            self.position = Some(candidate);
            true
        } else {
            false
        }
    }

    /// Puts a new piece on the grid if there is none. Cells are drawn at
    /// random, and a draw that lands on the snake is thrown away; after
    /// `DRAW_LIMIT` such draws the first free cell in reading order is taken.
    /// So a piece is placed exactly when there was none and the grid has a
    /// free cell, and it always lies on a free cell. The result says whether
    /// a piece was placed.
    pub fn spawn_if_absent(&mut self, grid: &GridConfig, snake: &Snake) -> (spawned: bool)
        requires
            grid.wf(),
        ensures
            spawned == (old(self)@ is None && has_free_cell(*grid, snake@.body)),
            spawned ==> final(self)@ is Some && is_free(*grid, snake@.body, final(self)@->0),
            !spawned ==> final(self)@ == old(self)@,
            old(self).fits(*grid, snake@.body) ==> final(self).fits(*grid, snake@.body),
    {
        if self.position.is_some() {
            return false;
        }
        let mut draws: u32 = 0;
        while draws < DRAW_LIMIT
            invariant
                grid.wf(),
                old(self)@ is None,
                self@ is None,
                draws <= DRAW_LIMIT,
            decreases DRAW_LIMIT - draws,
        {
            let candidate = random_position(grid);
            if self.offer(candidate, grid, snake) {
                return true;
            }
            draws += 1;
        }
        match first_free_cell(grid, snake) {
            Some(p) => {
                self.position = Some(p);
                true
            },
            None => false,
        }
    }
}

} // verus!
