use vstd::prelude::*;
use crate::position::Position;

verus! {

/// Side of a cell of the standard grid, in pixels.
pub const CELL_SIZE: i32 = 64;

/// The grid the game is drawn on: its bounds in cells and the side of one
/// cell in pixels. Where the grid sits on screen is kept by the renderer.
#[derive(Clone, Copy, Debug, PartialEq, Eq, Structural)]
pub struct Grid {
    pub width: i32,
    pub height: i32,
    pub cell_size: i32,
}

/// Cell `(i, j)` of a grid `h` cells high comes before every cell of
/// column `x` when `i < x`.
proof fn lemma_cell_index(i: int, j: int, x: int, h: int) by (nonlinear_arith)
    requires
        0 <= i < x,
        0 <= j < h,
    ensures
        0 <= i * h + j < x * h,
{
}

impl Grid {
    /// The standard grid: the arena's bounds, with cells of `CELL_SIZE`
    /// pixels.
    pub fn standard() -> (r: Grid)
        ensures
            r.width == crate::level::ARENA_WIDTH,
            r.height == crate::level::ARENA_HEIGHT,
            r.cell_size == CELL_SIZE,
    {
        Grid { width: crate::level::ARENA_WIDTH, height: crate::level::ARENA_HEIGHT, cell_size: CELL_SIZE }
    }

    /// Offset in pixels of the cell `p` from the grid's origin cell.
    pub fn cell_offset(&self, p: Position) -> (r: (i64, i64))
        ensures
            r.0 == p.x * self.cell_size,
            r.1 == p.y * self.cell_size,
    {
        assert(-0x8000_0000_0000_0000 <= p.x * self.cell_size <= 0x7fff_ffff_ffff_ffff) by (nonlinear_arith)
            requires
                i32::MIN <= p.x <= i32::MAX,
                i32::MIN <= self.cell_size <= i32::MAX,
        ;
        assert(-0x8000_0000_0000_0000 <= p.y * self.cell_size <= 0x7fff_ffff_ffff_ffff) by (nonlinear_arith)
            requires
                i32::MIN <= p.y <= i32::MAX,
                i32::MIN <= self.cell_size <= i32::MAX,
        ;
        ((p.x as i64) * (self.cell_size as i64), (p.y as i64) * (self.cell_size as i64))
    }

    /// Every cell inside the bounds, column by column from the left, each
    /// column from the bottom up.
    pub fn cells(&self) -> (r: Vec<Position>)
        requires
            0 <= self.width,
            0 <= self.height,
        ensures
            r@.len() == self.width * self.height,
            forall|x: int, y: int|
                0 <= x < self.width && 0 <= y < self.height
                    ==> #[trigger] r@[x * self.height + y] == (Position { x: x as i32, y: y as i32 }),
    {
        let mut cells: Vec<Position> = Vec::new();
        let mut x: i32 = 0;
        while x < self.width
            invariant
                0 <= x <= self.width,
                0 <= self.height,
                cells@.len() == x * self.height,
                forall|i: int, j: int|
                    0 <= i < x && 0 <= j < self.height
                        ==> #[trigger] cells@[i * self.height + j] == (Position { x: i as i32, y: j as i32 }),
            decreases self.width - x,
        {
            let mut y: i32 = 0;
            while y < self.height
                invariant
                    0 <= x < self.width,
                    0 <= y <= self.height,
                    cells@.len() == x * self.height + y,
                    forall|i: int, j: int|
                        0 <= i < x && 0 <= j < self.height
                            ==> #[trigger] cells@[i * self.height + j] == (Position { x: i as i32, y: j as i32 }),
                    forall|j: int|
                        0 <= j < y ==> #[trigger] cells@[x * self.height + j] == (Position { x: x as i32, y: j as i32 }),
                decreases self.height - y,
            {
                let ghost before = cells@;
                cells.push(Position { x, y });
                proof {
                    assert forall|i: int, j: int|
                        0 <= i < x && 0 <= j < self.height
                            implies #[trigger] cells@[i * self.height + j] == (Position { x: i as i32, y: j as i32 }) by {
                        lemma_cell_index(i, j, x as int, self.height as int);
                        assert(cells@[i * self.height + j] == before[i * self.height + j]);
                    }
                }
                y = y + 1;
            }
            assert((x + 1) * self.height == x * self.height + self.height) by (nonlinear_arith);
            assert forall|i: int, j: int|
                0 <= i < x + 1 && 0 <= j < self.height
                    implies #[trigger] cells@[i * self.height + j] == (Position { x: i as i32, y: j as i32 }) by {
                if i == x {
                    assert(cells@[x * self.height + j] == (Position { x: x as i32, y: j as i32 }));
                }
            }
            x = x + 1;
        }
        cells
    }
}

} // verus!
