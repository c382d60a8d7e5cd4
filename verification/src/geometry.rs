//! Grid cells, movement directions and the fixed board they live on.

use vstd::prelude::*;

verus! {

/// Width of the playing field in cells; the walls leave half a cell of
/// margin on each side.
pub const WIDTH: i32 = 12;

/// Height of the playing field in cells; the walls leave half a cell of
/// margin above and below.
pub const HEIGHT: i32 = 12;

/// Rightmost column a snake may occupy.
pub const MAX_X: i32 = 5;

/// Leftmost column a snake may occupy.
pub const MIN_X: i32 = -5;

/// Topmost row a snake may occupy.
pub const MAX_Y: i32 = 5;

/// Bottommost row a snake may occupy.
pub const MIN_Y: i32 = -5;

/// Number of cells inside the walls.
pub const BOARD_CELLS: usize = 121;

/// The walls sit symmetrically around the origin, one cell inside the field,
/// and enclose `BOARD_CELLS` cells.
pub proof fn walls_fit_field()
    ensures
        MAX_X == WIDTH / 2 - 1,
        MIN_X == 1 - WIDTH / 2,
        MAX_Y == HEIGHT / 2 - 1,
        MIN_Y == 1 - HEIGHT / 2,
        BOARD_CELLS == (MAX_X - MIN_X + 1) * (MAX_Y - MIN_Y + 1),
{
    let columns = MAX_X - MIN_X + 1;
    let rows = MAX_Y - MIN_Y + 1;
    assert(columns * rows == 121) by (nonlinear_arith)
        requires
            columns == 11,
            rows == 11,
    ;
}

/// One of the four movement directions, or `Still` for a snake that has not
/// started to move.
#[derive(Clone, Copy, Debug, PartialEq, Eq, Structural)]
pub enum Direction {
    Still,
    Left,
    Right,
    Up,
    Down,
}

impl Direction {
    /// The direction pointing the other way; `Still` has no other way.
    pub open spec fn spec_opposite(self) -> Direction {
        match self {
            Direction::Still => Direction::Still,
            Direction::Up => Direction::Down,
            Direction::Down => Direction::Up,
            Direction::Right => Direction::Left,
            Direction::Left => Direction::Right,
        }
    }

    /// Turns a direction around.
    #[verifier::when_used_as_spec(spec_opposite)]
    pub fn opposite(self) -> (r: Direction)
        ensures
            r == self.spec_opposite(),
    {
        match self {
            Direction::Still => self,
            Direction::Up => Direction::Down,
            Direction::Down => Direction::Up,
            Direction::Right => Direction::Left,
            Direction::Left => Direction::Right,
        }
    }

    /// Horizontal displacement of one step in this direction.
    pub open spec fn dx(self) -> int {
        match self {
            Direction::Left => -1,
            Direction::Right => 1,
            _ => 0,
        }
    }

    /// Vertical displacement of one step in this direction.
    pub open spec fn dy(self) -> int {
        match self {
            Direction::Up => 1,
            Direction::Down => -1,
            _ => 0,
        }
    }
}

/// Turning around twice gives the direction one started with, and `Still`
/// turned around is still `Still`.
pub proof fn opposite_is_involution(d: Direction)
    ensures
        d.opposite().opposite() == d,
        Direction::Still.opposite() == Direction::Still,
{
}

/// A cell of the grid, addressed by column and row. The board is centred on
/// the origin.
#[derive(Clone, Copy, Debug, PartialEq, Eq, Structural)]
pub struct Point {
    pub x: i32,
    pub y: i32,
}

impl Point {
    /// The cell lies inside the walls.
    pub open spec fn spec_on_board(self) -> bool {
        MIN_X <= self.x <= MAX_X && MIN_Y <= self.y <= MAX_Y
    }

    /// Tells whether the cell lies inside the walls.
    #[verifier::when_used_as_spec(spec_on_board)]
    pub fn on_board(self) -> (r: bool)
        ensures
            r == self.spec_on_board(),
    {
        MIN_X <= self.x && self.x <= MAX_X && MIN_Y <= self.y && self.y <= MAX_Y
    }

    /// The neighbouring cell one step away in direction `d`; the cell itself
    /// for `Still`. Meaningful while the neighbour's coordinates fit in `i32`.
    pub open spec fn spec_step(self, d: Direction) -> Point
        recommends
            i32::MIN < self.x < i32::MAX,
            i32::MIN < self.y < i32::MAX,
    {
        Point { x: (self.x + d.dx()) as i32, y: (self.y + d.dy()) as i32 }
    }

    /// Moves one cell in direction `d`: left and right change the column,
    /// up and down the row, `Still` changes nothing.
    #[verifier::when_used_as_spec(spec_step)]
    pub fn step(self, d: Direction) -> (r: Point)
        requires
            i32::MIN < self.x < i32::MAX,
            i32::MIN < self.y < i32::MAX,
        ensures
            r == self.spec_step(d),
            r.x == self.x + d.dx(),
            r.y == self.y + d.dy(),
    {
        match d {
            Direction::Left => Point { x: self.x - 1, y: self.y },
            Direction::Right => Point { x: self.x + 1, y: self.y },
            Direction::Up => Point { x: self.x, y: self.y + 1 },
            Direction::Down => Point { x: self.x, y: self.y - 1 },
            Direction::Still => self,
        }
    }
}

/// Tells whether `p` is one of the cells listed in `cells`.
pub fn contains_point(cells: &Vec<Point>, p: Point) -> (found: bool)
    ensures
        found == cells@.contains(p),
{
    let mut i: usize = 0;
    while i < cells.len()
        invariant
            i <= cells.len(),
            forall|j: int| 0 <= j < i ==> cells@[j] != p,
        decreases cells.len() - i,
    {
        if cells[i] == p {
            return true;
        }
        i += 1;
    }
    false
}

} // verus!
