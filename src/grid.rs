use vstd::prelude::*;

verus! {

/// Width of the play field, in cells.
pub const GRID_WIDTH: i32 = 40;

/// Height of the play field, in cells.
pub const GRID_HEIGHT: i32 = 30;

/// Side of one cell on screen.
pub const CELL_SIZE: i32 = 20;

/// A cell of the grid. `y` grows upwards.
#[derive(Clone, Copy, Debug, PartialEq, Eq, Structural)]
pub struct Position {
    pub x: i32,
    pub y: i32,
}

/// A heading of the snake.
#[derive(Clone, Copy, Debug, PartialEq, Eq, Structural)]
pub enum Direction {
    Up,
    Down,
    Left,
    Right,
}

/// The heading that points the other way.
pub open spec fn opposite_of(d: Direction) -> Direction {
    match d {
        Direction::Up => Direction::Down,
        Direction::Down => Direction::Up,
        Direction::Left => Direction::Right,
        Direction::Right => Direction::Left,
    }
}

/// Horizontal unit step of a heading.
pub open spec fn dx(d: Direction) -> int {
    match d {
        Direction::Left => -1,
        Direction::Right => 1,
        _ => 0,
    }
}

/// Vertical unit step of a heading.
pub open spec fn dy(d: Direction) -> int {
    match d {
        Direction::Up => 1,
        Direction::Down => -1,
        _ => 0,
    }
}

/// Whether one step from `p` towards `d` stays within `i32`.
pub open spec fn can_step(p: Position, d: Direction) -> bool {
    i32::MIN <= p.x + dx(d) <= i32::MAX && i32::MIN <= p.y + dy(d) <= i32::MAX
}

/// The cell one step from `p` towards `d`.
pub open spec fn step_spec(p: Position, d: Direction) -> Position
    recommends
        can_step(p, d),
{
    Position { x: (p.x + dx(d)) as i32, y: (p.y + dy(d)) as i32 }
}

impl Direction {
    /// The heading that points the other way.
    pub fn opposite(self) -> (r: Direction)
        ensures
            r == opposite_of(self),
    {
        match self {
            Direction::Up => Direction::Down,
            Direction::Down => Direction::Up,
            Direction::Left => Direction::Right,
            Direction::Right => Direction::Left,
        }
    }
}

impl Position {
    pub fn new(x: i32, y: i32) -> (r: Position)
        ensures
            r.x == x,
            r.y == y,
    {
        Position { x, y }
    }

    /// The cell one step away towards `d`.
    pub fn step(self, d: Direction) -> (r: Position)
        requires
            can_step(self, d),
        ensures
            r == step_spec(self, d),
    {
        match d {
            Direction::Up => Position { x: self.x, y: self.y + 1 },
            Direction::Down => Position { x: self.x, y: self.y - 1 },
            Direction::Left => Position { x: self.x - 1, y: self.y },
            Direction::Right => Position { x: self.x + 1, y: self.y },
        }
    }

    /// Screen coordinates of the cell: each coordinate times `cell_size`.
    pub fn to_screen(self, cell_size: i32) -> (r: (i64, i64))
        ensures
            r.0 == self.x * cell_size,
            r.1 == self.y * cell_size,
    {
        proof {
            assert(i32::MIN * i32::MAX <= self.x * cell_size <= i32::MIN * i32::MIN) by (nonlinear_arith);
            assert(i32::MIN * i32::MAX <= self.y * cell_size <= i32::MIN * i32::MIN) by (nonlinear_arith);
        }
        (self.x as i64 * cell_size as i64, self.y as i64 * cell_size as i64)
    }
}

/// The walls of the play field, as half extents in cells: a cell is alive
/// while `-half_width < x < half_width` and `-half_height < y < half_height`.
#[derive(Clone, Copy, Debug, PartialEq, Eq, Structural)]
pub struct Bounds {
    pub half_width: i32,
    pub half_height: i32,
}

/// Whether `p` lies strictly inside the walls.
pub open spec fn inside(b: Bounds, p: Position) -> bool {
    -b.half_width < p.x < b.half_width && -b.half_height < p.y < b.half_height
}

/// Whether `p` lies in the inner field where food may appear: inside the
/// walls and off the ring of cells that touch them.
pub open spec fn in_inner_field(b: Bounds, p: Position) -> bool {
    -b.half_width + 1 < p.x < b.half_width - 1 && -b.half_height + 1 < p.y < b.half_height - 1
}

impl Bounds {
    /// The origin lies strictly inside the walls.
    pub open spec fn wf(&self) -> bool {
        self.half_width >= 1 && self.half_height >= 1
    }

    /// Bounds of a field `width` by `height` cells, centred on the origin.
    pub fn from_grid(width: i32, height: i32) -> (r: Bounds)
        requires
            width >= 0,
            height >= 0,
        ensures
            r.half_width == width / 2,
            r.half_height == height / 2,
    {
        Bounds { half_width: width / 2, half_height: height / 2 }
    }

    /// Whether `p` lies strictly inside the walls.
    pub fn contains(&self, p: Position) -> (r: bool)
        ensures
            r == inside(*self, p),
    {
        let (x, y) = (p.x as i64, p.y as i64);
        -(self.half_width as i64) < x && x < self.half_width as i64 && -(self.half_height as i64)
            < y && y < self.half_height as i64
    }
}

} // verus!
