use vstd::prelude::*;

verus! {

/// Number of columns of the board.
pub const ARENA_WIDTH: i32 = 10;

/// Number of rows of the board.
pub const ARENA_HEIGHT: i32 = 10;

/// One of the four headings the snake can take.
#[derive(PartialEq, Eq, Structural, Copy, Clone, Debug)]
pub enum Direction {
    Left,
    Right,
    Up,
    Down,
}

impl Direction {
    /// The heading pointing the other way.
    pub open spec fn opposite_of(self) -> Direction {
        match self {
            Direction::Left => Direction::Right,
            Direction::Right => Direction::Left,
            Direction::Up => Direction::Down,
            Direction::Down => Direction::Up,
        }
    }

    pub fn opposite(self) -> (r: Self)
        ensures
            r == self.opposite_of(),
    {
        match self {
            Self::Left => Self::Right,
            Self::Right => Self::Left,
            Self::Up => Self::Down,
            Self::Down => Self::Up,
        }
    }
}

/// Turning around twice faces the original way again, and no heading is its
/// own opposite.
pub proof fn lemma_opposite_involutive(d: Direction)
    ensures
        d.opposite_of().opposite_of() == d,
        d.opposite_of() != d,
{
}

/// A cell of the board, by column and row.
#[derive(Default, Copy, Clone, Eq, PartialEq, Structural, Hash, Debug)]
pub struct Position {
    pub x: i32,
    pub y: i32,
}

/// Whether `p` lies on the board.
pub open spec fn in_bounds(p: Position) -> bool {
    0 <= p.x < ARENA_WIDTH && 0 <= p.y < ARENA_HEIGHT
}

/// The cell next to `p` in heading `d`; rows grow upwards.
pub open spec fn moved(p: Position, d: Direction) -> Position {
    match d {
        Direction::Left => Position { x: (p.x - 1) as i32, y: p.y },
        Direction::Right => Position { x: (p.x + 1) as i32, y: p.y },
        Direction::Up => Position { x: p.x, y: (p.y + 1) as i32 },
        Direction::Down => Position { x: p.x, y: (p.y - 1) as i32 },
    }
}

impl Position {
    pub fn is_in_bounds(&self) -> (r: bool)
        ensures
            r == in_bounds(*self),
    {
        0 <= self.x && self.x < ARENA_WIDTH && 0 <= self.y && self.y < ARENA_HEIGHT
    }

    /// The cell one step away in heading `d`.
    pub fn step(&self, d: Direction) -> (r: Position)
        requires
            in_bounds(*self),
        ensures
            r == moved(*self, d),
    {
        match d {
            Direction::Left => Position { x: self.x - 1, y: self.y },
            Direction::Right => Position { x: self.x + 1, y: self.y },
            Direction::Up => Position { x: self.x, y: self.y + 1 },
            Direction::Down => Position { x: self.x, y: self.y - 1 },
        }
    }
}

} // verus!
