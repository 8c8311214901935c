//! Cells of the grid and the bounds of the arena.

use vstd::prelude::*;
use crate::direction::Direction;

verus! {

/// Width of the standard arena, in cells.
pub const ARENA_WIDTH: u32 = 10;

/// Height of the standard arena, in cells.
pub const ARENA_HEIGHT: u32 = 10;

/// The longest side a grid can have: the largest coordinate of a cell.
pub const MAX_SIDE: u32 = 0x7fff_ffff;

/// A cell. A position that has left the arena is still a value: the head
/// holds one after a fatal move.
#[derive(Clone, Copy, Debug, PartialEq, Eq, Structural)]
pub struct Position {
    pub x: i32,
    pub y: i32,
}

impl Position {
    /// Whether one step along `d` stays within what an `i32` can hold.
    pub open spec fn can_step(self, d: Direction) -> bool {
        &&& i32::MIN <= self.x + d.dx() <= i32::MAX
        &&& i32::MIN <= self.y + d.dy() <= i32::MAX
    }

    /// Whether a step along any heading stays within what an `i32` can hold.
    pub open spec fn is_inner(self) -> bool {
        &&& i32::MIN < self.x < i32::MAX
        &&& i32::MIN < self.y < i32::MAX
    }

    /// The cell one step along `d`.
    pub open spec fn neighbor(self, d: Direction) -> Position
        recommends
            self.can_step(d),
    {
        Position { x: (self.x + d.dx()) as i32, y: (self.y + d.dy()) as i32 }
    }

    /// The cell one step along `d`: `Left` and `Right` change `x` by one,
    /// `Down` and `Up` change `y` by one.
    pub fn step(self, d: Direction) -> (r: Position)
        requires
            self.can_step(d),
        ensures
            r == self.neighbor(d),
            r.x == self.x + d.dx(),
            r.y == self.y + d.dy(),
    {
        match d {
            Direction::Left => Position { x: self.x - 1, y: self.y },
            Direction::Up => Position { x: self.x, y: self.y + 1 },
            Direction::Right => Position { x: self.x + 1, y: self.y },
            Direction::Down => Position { x: self.x, y: self.y - 1 },
        }
    }

    /// The cell one step along `d`, or `None` where that cell has a
    /// coordinate that an `i32` cannot hold.
    pub fn checked_step(self, d: Direction) -> (r: Option<Position>)
        ensures
            r is Some <==> self.can_step(d),
            r is Some ==> r->0 == self.neighbor(d),
    {
        let fits = match d {
            Direction::Left => self.x > i32::MIN,
            Direction::Up => self.y < i32::MAX,
            Direction::Right => self.x < i32::MAX,
            Direction::Down => self.y > i32::MIN,
        };
        if fits {
            Some(self.step(d))
        } else {
            None
        }
    }
}

/// The size of the arena. Both sides are positive, and small enough that
/// every cell, and the cell one step past each edge, is a `Position`.
#[derive(Clone, Copy, Debug, PartialEq, Eq, Structural)]
pub struct GridConfig {
    width: u32,
    height: u32,
}

impl GridConfig {
    /// Number of columns.
    pub closed spec fn cols(self) -> int {
        self.width as int
    }

    /// Number of rows.
    pub closed spec fn rows(self) -> int {
        self.height as int
    }

    /// Whether a side length is one that a grid can have.
    pub open spec fn valid_side(n: int) -> bool {
        0 < n <= MAX_SIDE
    }

    /// Both sides are valid.
    pub open spec fn wf(self) -> bool {
        Self::valid_side(self.cols()) && Self::valid_side(self.rows())
    }

    /// Whether `p` is a cell of the arena.
    pub open spec fn contains(self, p: Position) -> bool {
        0 <= p.x < self.cols() && 0 <= p.y < self.rows()
    }

    /// A grid of the given size, if both sides are positive and fit the
    /// coordinate type.
    pub fn new(width: u32, height: u32) -> (r: Option<GridConfig>)
        ensures
            r is Some <==> Self::valid_side(width as int) && Self::valid_side(height as int),
            r is Some ==> r->0.wf() && r->0.cols() == width && r->0.rows() == height,
    {
        if 0 < width && width <= MAX_SIDE && 0 < height && height <= MAX_SIDE {
            Some(GridConfig { width, height })
        } else {
            None
        }
    }

    /// The standard arena of `ARENA_WIDTH` by `ARENA_HEIGHT` cells.
    pub fn arena() -> (r: GridConfig)
        ensures
            r.wf(),
            r.cols() == ARENA_WIDTH,
            r.rows() == ARENA_HEIGHT,
    {
        GridConfig { width: ARENA_WIDTH, height: ARENA_HEIGHT }
    }

    pub fn width(&self) -> (r: u32)
        ensures
            r == self.cols(),
    {
        self.width
    }

    pub fn height(&self) -> (r: u32)
        ensures
            r == self.rows(),
    {
        self.height
    }

    /// Whether `p` is a cell of the arena.
    pub fn in_bounds(&self, p: Position) -> (r: bool)
        ensures
            r == self.contains(p),
    {
        p.x >= 0 && p.y >= 0 && (p.x as u32) < self.width && (p.y as u32) < self.height
    }

    /// The cell in the given column and row, counted from 0, or `None` where
    /// the grid has no such column or no such row.
    pub fn cell(&self, column: u32, row: u32) -> (r: Option<Position>)
        requires
            self.wf(),
        ensures
            r is Some <==> column < self.cols() && row < self.rows(),
            r is Some ==> r->0.x == column && r->0.y == row && self.contains(r->0),
    {
        if column < self.width && row < self.height {
            Some(Position { x: column as i32, y: row as i32 })
        } else {
            None
        }
    }

    /// From a cell of a valid grid a step along any heading can be taken.
    pub proof fn lemma_cells_are_inner(self, p: Position)
        requires
            self.wf(),
            self.contains(p),
        ensures
            p.is_inner(),
            forall|d: Direction| p.can_step(d),
    {
    }
}

} // verus!
