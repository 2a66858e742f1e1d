use vstd::prelude::*;
use crate::level::Level;
use crate::position::{Direction, Position, beyond, can_step, cell, neighbour, push_target, step};

verus! {

/// The crates of `crates` after the one at `from` moved to `to`.
pub open spec fn pushed(crates: Seq<Position>, from: Position, to: Position) -> Seq<Position> {
    crates.map_values(|c: Position| if c == from { to } else { c })
}

/// Whether `cells` holds `c`.
fn occupied(cells: &Vec<Position>, c: Position) -> (r: bool)
    ensures
        r == cells@.contains(c),
{
    let mut i: usize = 0;
    while i < cells.len()
        invariant
            i <= cells.len(),
            forall|j: int| 0 <= j < i ==> cells@[j] != c,
        decreases cells.len() - i,
    {
        if cells[i] == c {
            return true;
        }
        i = i + 1;
    }
    false
}

/// Moves every crate at `from` to `to`.
fn move_crate(crates: &mut Vec<Position>, from: Position, to: Position)
    ensures
        final(crates)@ == pushed(old(crates)@, from, to),
{
    let ghost before = crates@;
    let mut i: usize = 0;
    while i < crates.len()
        invariant
            i <= crates.len(),
            crates@.len() == before.len(),
            forall|j: int| 0 <= j < i ==> crates@[j] == (if before[j] == from { to } else { before[j] }),
            forall|j: int| i <= j < crates@.len() ==> crates@[j] == before[j],
        decreases crates.len() - i,
    {
        if crates[i] == from {
            crates.set(i, to);
        }
        i = i + 1;
    }
    assert(crates@ =~= pushed(before, from, to));
}

/// The state of a game in progress: where the player and the crates stand,
/// the fixed walls and goals, and how many moves were made.
pub struct Game {
    pub player: Position,
    pub walls: Vec<Position>,
    pub crates: Vec<Position>,
    pub goals: Vec<Position>,
    pub moves: u64,
}

impl Game {
    /// Whether a wall stands at `c`.
    pub open spec fn wall_at(&self, c: Position) -> bool {
        self.walls@.contains(c)
    }

    /// Whether a crate stands at `c`.
    pub open spec fn crate_at(&self, c: Position) -> bool {
        self.crates@.contains(c)
    }

    /// Whether a crate at `c` can be pushed one cell in direction `d`: the
    /// cell beyond exists and holds neither a wall nor another crate.
    pub open spec fn can_push(&self, c: Position, d: Direction) -> bool {
        &&& can_step(c, d)
        &&& !self.wall_at(neighbour(c, d))
        &&& !self.crate_at(neighbour(c, d))
    }

    /// Whether the player may step in direction `d`: the cell ahead exists,
    /// is no wall, and holds no crate unless that crate can be pushed.
    pub open spec fn move_accepted(&self, d: Direction) -> bool {
        let t = neighbour(self.player, d);
        &&& can_step(self.player, d)
        &&& !self.wall_at(t)
        &&& self.crate_at(t) ==> self.can_push(t, d)
    }

    /// At most one thing on each cell: crates on distinct cells, none on a
    /// wall, and the player on neither a wall nor a crate.
    pub open spec fn well_formed(&self) -> bool {
        &&& forall|i: int, j: int|
            0 <= i < self.crates@.len() && 0 <= j < self.crates@.len() && i != j
                ==> self.crates@[i] != self.crates@[j]
        &&& forall|i: int| 0 <= i < self.crates@.len() ==> !self.wall_at(#[trigger] self.crates@[i])
        &&& !self.wall_at(self.player)
        &&& !self.crate_at(self.player)
    }

    /// Whether every crate stands on a goal.
    pub open spec fn solved(&self) -> bool {
        forall|i: int| 0 <= i < self.crates@.len() ==> self.goals@.contains(#[trigger] self.crates@[i])
    }

    /// A game on the layout of `level`, with no move made yet.
    pub fn new(level: Level) -> (r: Game)
        ensures
            r.player == level.player,
            r.walls@ == level.walls@,
            r.crates@ == level.crates@,
            r.goals@ == level.goals@,
            r.moves == 0,
    {
        Game { player: level.player, walls: level.walls, crates: level.crates, goals: level.goals, moves: 0 }
    }

    /// Tries to move the player one cell in direction `d`.
    ///
    /// A crate in the target cell is pushed first, into the cell beyond it,
    /// where that cell holds neither a wall nor another crate. The player
    /// then steps forward unless a wall, or a crate that could not move, is
    /// in the way. A crate never pushes another: a row of two crates does
    /// not move. An accepted move adds one to the move counter; a rejected
    /// one changes nothing. Returns whether the move was accepted.
    pub fn try_move(&mut self, d: Direction) -> (accepted: bool)
        requires
            old(self).moves < u64::MAX,
        ensures
            accepted == old(self).move_accepted(d),
            final(self).walls@ == old(self).walls@,
            final(self).goals@ == old(self).goals@,
            !accepted ==> final(self).player == old(self).player,
            !accepted ==> final(self).crates@ == old(self).crates@,
            !accepted ==> final(self).moves == old(self).moves,
            accepted ==> final(self).player == neighbour(old(self).player, d),
            accepted ==> final(self).moves == old(self).moves + 1,
            accepted ==> final(self).crates@ == pushed(
                old(self).crates@,
                neighbour(old(self).player, d),
                neighbour(neighbour(old(self).player, d), d),
            ),
            accepted ==> forall|i: int|
                0 <= i < old(self).crates@.len() && old(self).crates@[i] == neighbour(old(self).player, d)
                    ==> final(self).crates@[i] == cell(
                        beyond(old(self).player, old(self).crates@[i]).0,
                        beyond(old(self).player, old(self).crates@[i]).1,
                    ),
            old(self).wall_at(neighbour(old(self).player, d)) ==> !accepted,
            old(self).crate_at(neighbour(old(self).player, d))
                && !old(self).can_push(neighbour(old(self).player, d), d) ==> !accepted,
            old(self).well_formed() ==> final(self).well_formed(),
    {
        let t = match step(self.player, d) {
            Some(t) => t,
            None => return false,
        };
        if occupied(&self.walls, t) {
            return false;
        }
        if occupied(&self.crates, t) {
            let dest = match push_target(self.player, t) {
                Some(dest) => dest,
                None => return false,
            };
            if occupied(&self.walls, dest) || occupied(&self.crates, dest) {
                return false;
            }
            move_crate(&mut self.crates, t, dest);
        } else {
            assert(self.crates@ =~= pushed(self.crates@, t, neighbour(t, d)));
        }
        self.player = t;
        self.moves = self.moves + 1;
        true
    }

    /// Whether every crate stands on a goal.
    pub fn is_solved(&self) -> (r: bool)
        ensures
            r == self.solved(),
    {
        let mut i: usize = 0;
        while i < self.crates.len()
            invariant
                i <= self.crates.len(),
                forall|j: int| 0 <= j < i ==> self.goals@.contains(#[trigger] self.crates@[j]),
            decreases self.crates.len() - i,
        {
            if !occupied(&self.goals, self.crates[i]) {
                return false;
            }
            i = i + 1;
        }
        true
    }
}

} // verus!
