use vstd::prelude::*;

verus! {

/// A cell of the grid, in integer coordinates; `y` grows upwards.
#[derive(Clone, Copy, Debug, PartialEq, Eq, Structural, Hash)]
pub struct Position {
    pub x: i32,
    pub y: i32,
}

/// One of the four moves a key press can ask for.
#[derive(Clone, Copy, Debug, PartialEq, Eq, Structural, Hash)]
pub enum Direction {
    Left,
    Up,
    Right,
    Down,
}

/// Horizontal offset of one step in direction `d`.
pub open spec fn dx(d: Direction) -> int {
    match d {
        Direction::Left => -1,
        Direction::Right => 1,
        _ => 0,
    }
}

/// Vertical offset of one step in direction `d`.
pub open spec fn dy(d: Direction) -> int {
    match d {
        Direction::Up => 1,
        Direction::Down => -1,
        _ => 0,
    }
}

/// Whether `v` is a coordinate that a `Position` can hold.
pub open spec fn fits(v: int) -> bool {
    i32::MIN <= v <= i32::MAX
}

/// The position at coordinates `(x, y)`, for coordinates that fit.
pub open spec fn cell(x: int, y: int) -> Position {
    Position { x: x as i32, y: y as i32 }
}

/// Whether the neighbour of `p` in direction `d` can be represented.
pub open spec fn can_step(p: Position, d: Direction) -> bool {
    fits(p.x + dx(d)) && fits(p.y + dy(d))
}

/// The neighbour of `p` in direction `d`.
pub open spec fn neighbour(p: Position, d: Direction) -> Position {
    cell(p.x + dx(d), p.y + dy(d))
}

/// The cell a crate at `c` is pushed to by a player at `p`: the reflection
/// of `p` through `c`, that is `2*c - p`.
pub open spec fn beyond(p: Position, c: Position) -> (int, int) {
    (2 * c.x - p.x, 2 * c.y - p.y)
}

impl Position {
    /// The cell at `(x, y)`.
    pub fn new(x: i32, y: i32) -> (r: Position)
        ensures
            r.x == x,
            r.y == y,
    {
        Position { x, y }
    }
}

/// The move asked for by the keys pressed in this frame.
///
/// When several are pressed, the first of left, up, right and down wins;
/// with none pressed there is no move.
pub fn direction_from_keys(left: bool, up: bool, right: bool, down: bool) -> (r: Option<Direction>)
    ensures
        left ==> r == Some(Direction::Left),
        !left && up ==> r == Some(Direction::Up),
        !left && !up && right ==> r == Some(Direction::Right),
        !left && !up && !right && down ==> r == Some(Direction::Down),
        !left && !up && !right && !down ==> r is None,
{
    if left {
        Some(Direction::Left)
    } else if up {
        Some(Direction::Up)
    } else if right {
        Some(Direction::Right)
    } else if down {
        Some(Direction::Down)
    } else {
        None
    }
}

/// The cell next to `p` in direction `d`, or `None` where that cell lies
/// beyond the range of coordinates.
pub fn step(p: Position, d: Direction) -> (r: Option<Position>)
    ensures
        r == (if can_step(p, d) { Some(neighbour(p, d)) } else { None::<Position> }),
{
    match d {
        Direction::Left => {
            if p.x == i32::MIN {
                None
            } else {
                Some(Position { x: p.x - 1, y: p.y })
            }
        },
        Direction::Right => {
            if p.x == i32::MAX {
                None
            } else {
                Some(Position { x: p.x + 1, y: p.y })
            }
        },
        Direction::Up => {
            if p.y == i32::MAX {
                None
            } else {
                Some(Position { x: p.x, y: p.y + 1 })
            }
        },
        Direction::Down => {
            if p.y == i32::MIN {
                None
            } else {
                Some(Position { x: p.x, y: p.y - 1 })
            }
        },
    }
}

/// The cell that a crate at `c` is pushed into by a player standing at `p`:
/// `c + (c - p)`. `None` where that cell lies beyond the range of
/// coordinates.
pub fn push_target(p: Position, c: Position) -> (r: Option<Position>)
    ensures
        r == (if fits(beyond(p, c).0) && fits(beyond(p, c).1) {
            Some(cell(beyond(p, c).0, beyond(p, c).1))
        } else {
            None::<Position>
        }),
{
    let x: i64 = 2 * (c.x as i64) - (p.x as i64);
    let y: i64 = 2 * (c.y as i64) - (p.y as i64);
    if x < i32::MIN as i64 || x > i32::MAX as i64 || y < i32::MIN as i64 || y > i32::MAX as i64 {
        None
    } else {
        Some(Position { x: x as i32, y: y as i32 })
    }
}

} // verus!
