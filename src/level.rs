use vstd::prelude::*;
use crate::position::Position;

verus! {

/// Width of the standard arena, in cells.
pub const ARENA_WIDTH: i32 = 10;

/// Height of the standard arena, in cells.
pub const ARENA_HEIGHT: i32 = 10;

/// Whether `p` lies on the outer ring of a `width` by `height` rectangle of
/// cells whose lower left cell is `(0, 0)`.
pub open spec fn on_border(width: int, height: int, p: Position) -> bool {
    ||| 0 <= p.x < width && (p.y == 0 || p.y == height - 1)
    ||| 0 <= p.y < height && (p.x == 0 || p.x == width - 1)
}

/// The layout of a level: where the player and the crates start, and the
/// fixed walls and goals.
pub struct Level {
    pub player: Position,
    pub walls: Vec<Position>,
    pub crates: Vec<Position>,
    pub goals: Vec<Position>,
}

/// What a sequence holds after two more cells were appended to it.
proof fn lemma_push_two(s: Seq<Position>, a: Position, b: Position)
    ensures
        forall|p: Position| s.push(a).push(b).contains(p) <==> (s.contains(p) || p == a || p == b),
{
    let t = s.push(a).push(b);
    assert forall|p: Position| t.contains(p) <==> (s.contains(p) || p == a || p == b) by {
        if t.contains(p) {
            let k = choose|k: int| 0 <= k < t.len() && t[k] == p;
            if k < s.len() {
                assert(s[k] == p);
            }
        }
        if s.contains(p) {
            let k = choose|k: int| 0 <= k < s.len() && s[k] == p;
            assert(t[k] == p);
        }
        if p == a {
            assert(t[s.len() as int] == p);
        }
        if p == b {
            assert(t[s.len() + 1int] == p);
        }
    }
}

/// Walls on every cell of the outer ring of a `width` by `height` arena.
///
/// Each column gets a wall at the bottom and the top row, then each row
/// above the bottom one gets a wall in the left and the right column.
pub fn border_walls(width: i32, height: i32) -> (r: Vec<Position>)
    requires
        1 <= width,
        1 <= height,
    ensures
        r@.len() == 2 * width + 2 * (height - 1),
        forall|p: Position| r@.contains(p) <==> on_border(width as int, height as int, p),
{
    let mut walls: Vec<Position> = Vec::new();
    let mut x: i32 = 0;
    while x < width
        invariant
            0 <= x <= width,
            1 <= height,
            walls@.len() == 2 * x,
            forall|p: Position|
                walls@.contains(p) <==> (0 <= p.x < x && (p.y == 0 || p.y == height - 1)),
        decreases width - x,
    {
        let ghost before = walls@;
        let bottom = Position { x, y: 0 };
        let top = Position { x, y: height - 1 };
        walls.push(bottom);
        walls.push(top);
        proof {
            lemma_push_two(before, bottom, top);
            assert forall|p: Position|
                walls@.contains(p) <==> (0 <= p.x < x + 1 && (p.y == 0 || p.y == height - 1)) by {
                assert(before.contains(p) <==> (0 <= p.x < x && (p.y == 0 || p.y == height - 1)));
                if p.x == x && p.y == 0 {
                    assert(p == bottom);
                }
                if p.x == x && p.y == height - 1 {
                    assert(p == top);
                }
            }
        }
        x = x + 1;
    }
    let mut y: i32 = 1;
    while y < height
        invariant
            1 <= y <= height,
            1 <= width,
            walls@.len() == 2 * width + 2 * (y - 1),
            forall|p: Position|
                walls@.contains(p) <==> (
                    (0 <= p.x < width && (p.y == 0 || p.y == height - 1))
                    || (1 <= p.y < y && (p.x == 0 || p.x == width - 1))),
        decreases height - y,
    {
        let ghost before = walls@;
        let left = Position { x: 0, y };
        let right = Position { x: width - 1, y };
        walls.push(left);
        walls.push(right);
        proof {
            lemma_push_two(before, left, right);
            assert forall|p: Position|
                walls@.contains(p) <==> (
                    (0 <= p.x < width && (p.y == 0 || p.y == height - 1))
                    || (1 <= p.y < y + 1 && (p.x == 0 || p.x == width - 1))) by {
                assert(before.contains(p) <==> (
                    (0 <= p.x < width && (p.y == 0 || p.y == height - 1))
                    || (1 <= p.y < y && (p.x == 0 || p.x == width - 1))));
                if p.y == y && p.x == 0 {
                    assert(p == left);
                }
                if p.y == y && p.x == width - 1 {
                    assert(p == right);
                }
            }
        }
        y = y + 1;
    }
    walls
}

impl Level {
    /// The standard level: a walled ten by ten arena with the player near
    /// its lower left corner, three crates and one goal.
    pub fn standard() -> (r: Level)
        ensures
            r.player == (Position { x: 1, y: 1 }),
            forall|p: Position| r.walls@.contains(p) <==> on_border(ARENA_WIDTH as int, ARENA_HEIGHT as int, p),
            r.crates@ == seq![Position { x: 2, y: 2 }, Position { x: 3, y: 3 }, Position { x: 3, y: 4 }],
            r.goals@ == seq![Position { x: 1, y: 4 }],
    {
        let walls = border_walls(ARENA_WIDTH, ARENA_HEIGHT);
        let crates = vec![Position { x: 2, y: 2 }, Position { x: 3, y: 3 }, Position { x: 3, y: 4 }];
        let goals = vec![Position { x: 1, y: 4 }];
        Level { player: Position { x: 1, y: 1 }, walls, crates, goals }
    }
}

} // verus!
