//! Cursor and viewport coordinates.

use vstd::prelude::*;

verus! {

/// A direction a cursor can be asked to move in.
#[derive(Clone, Copy, PartialEq, Eq, Structural, Debug)]
pub enum Direction {
    Up,
    Down,
    Left,
    Right,
}

/// An (x, y) pair of grapheme column and row index. The pair itself is
/// unbounded; keeping it within the document is the editor's business.
#[derive(Clone, Copy, PartialEq, Eq, Structural, Debug)]
pub struct Position {
    pub x: usize,
    pub y: usize,
}

impl Default for Position {
    /// The origin, (0, 0).
    fn default() -> (r: Position)
        ensures
            r.x == 0 && r.y == 0,
    {
        Position { x: 0, y: 0 }
    }
}

impl Position {
    /// One step in the given direction, saturating at the axes.
    pub fn move_to(&self, d: &Direction) -> (r: Position)
        ensures
            r == match d {
                Direction::Up => Position { x: self.x, y: self.y.saturating_sub(1) },
                Direction::Down => Position { x: self.x, y: self.y.saturating_add(1) },
                Direction::Left => Position { x: self.x.saturating_sub(1), y: self.y },
                Direction::Right => Position { x: self.x.saturating_add(1), y: self.y },
            },
    {
        match d {
            Direction::Up => self.up(),
            Direction::Down => self.down(),
            Direction::Left => self.left(),
            Direction::Right => self.right(),
        }
    }

    /// One row up, stopping at the top.
    pub fn up(&self) -> (r: Position)
        ensures
            r.x == self.x,
            r.y == self.y.saturating_sub(1),
    {
        Position { x: self.x, y: self.y.saturating_sub(1) }
    }

    /// One row down.
    pub fn down(&self) -> (r: Position)
        ensures
            r.x == self.x,
            r.y == self.y.saturating_add(1),
    {
        Position { x: self.x, y: self.y.saturating_add(1) }
    }

    /// One column left, stopping at the margin.
    pub fn left(&self) -> (r: Position)
        ensures
            r.x == self.x.saturating_sub(1),
            r.y == self.y,
    {
        Position { x: self.x.saturating_sub(1), y: self.y }
    }

    /// One column right.
    pub fn right(&self) -> (r: Position)
        ensures
            r.x == self.x.saturating_add(1),
            r.y == self.y,
    {
        Position { x: self.x.saturating_add(1), y: self.y }
    }

    /// Component-wise saturating difference.
    pub fn saturating_sub(&self, r: &Position) -> (result: Position)
        ensures
            result.x == self.x.saturating_sub(r.x),
            result.y == self.y.saturating_sub(r.y),
    {
        Position { x: self.x.saturating_sub(r.x), y: self.y.saturating_sub(r.y) }
    }

    /// Component-wise saturating sum.
    pub fn saturating_add(&self, r: &Position) -> (result: Position)
        ensures
            result.x == self.x.saturating_add(r.x),
            result.y == self.y.saturating_add(r.y),
    {
        Position { x: self.x.saturating_add(r.x), y: self.y.saturating_add(r.y) }
    }
}

} // verus!
