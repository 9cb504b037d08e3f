use vstd::prelude::*;
use rand::Rng;
use crate::game::Game;
use crate::geometry::{in_bounds, Position, ARENA_HEIGHT, ARENA_WIDTH};

verus! {

/// Relies on `rand::thread_rng` and `Rng::gen_range`: a number drawn
/// uniformly from `0..n`; `gen_range` panics only on an empty range.
#[verifier::external_body]
fn random_below(n: usize) -> (r: usize)
    requires
        0 < n,
    ensures
        r < n,
{
    rand::thread_rng().gen_range(0..n)
}

/// Whether `p` comes before the scan cursor at column `x`, row `y`
/// (columns first, rows within a column).
pub open spec fn scanned(p: Position, x: int, y: int) -> bool {
    p.x < x || (p.x == x && p.y < y)
}

/// Whether food may be placed at `p` given the chain `chain`.
pub open spec fn is_free(chain: Seq<Position>, p: Position) -> bool {
    in_bounds(p) && !chain.contains(p)
}

impl Game {
    /// Every cell of the board that no segment occupies, each once.
    pub fn free_cells(&self) -> (r: Vec<Position>)
        ensures
            forall|p: Position| r@.contains(p) <==> is_free(self.segments@, p),
            r@.no_duplicates(),
    {
        let mut r: Vec<Position> = Vec::new();
        let mut x: i32 = 0;
        while x < ARENA_WIDTH
            invariant
                0 <= x <= ARENA_WIDTH,
                forall|p: Position| r@.contains(p) <==> (is_free(self.segments@, p) && p.x < x),
                r@.no_duplicates(),
            decreases ARENA_WIDTH - x,
        {
            let mut y: i32 = 0;
            while y < ARENA_HEIGHT
                invariant
                    0 <= x < ARENA_WIDTH,
                    0 <= y <= ARENA_HEIGHT,
                    forall|p: Position|
                        r@.contains(p) <==> (is_free(self.segments@, p) && scanned(p, x as int, y as int)),
                    r@.no_duplicates(),
                decreases ARENA_HEIGHT - y,
            {
                let cell = Position { x, y };
                let ghost before = r@;
                if !self.occupies(cell) {
                    assert(!before.contains(cell));
                    r.push(cell);
                    assert forall|i: int, j: int|
                        0 <= i < r@.len() && 0 <= j < r@.len() && i != j implies r@[i] != r@[j] by {
                        if i == before.len() as int {
                            assert(before.contains(before[j]));
                        } else if j == before.len() as int {
                            assert(before.contains(before[i]));
                        }
                    }
                    assert forall|p: Position| r@.contains(p) <==> (before.contains(p) || p == cell) by {
                        if before.contains(p) {
                            let j = choose|j: int| 0 <= j < before.len() && before[j] == p;
                            assert(r@[j] == p);
                        }
                        if p == cell {
                            assert(r@[before.len() as int] == p);
                        }
                    }
                }
                assert forall|p: Position|
                    r@.contains(p) <==> (is_free(self.segments@, p) && scanned(p, x as int, y + 1)) by {
                    if before.contains(p) {
                        let j = choose|j: int| 0 <= j < before.len() && before[j] == p;
                        assert(r@[j] == p);
                    }
                    if r@.contains(p) && !before.contains(p) {
                        let j = choose|j: int| 0 <= j < r@.len() && r@[j] == p;
                        assert(j == before.len());
                    }
                    if scanned(p, x as int, y + 1) && !scanned(p, x as int, y as int) {
                        assert(p.x == x && p.y == y);
                        assert(p == cell);
                    }
                }
                y = y + 1;
            }
            assert forall|p: Position| is_free(self.segments@, p) implies (p.x < x + 1 <==> scanned(p, x as int, ARENA_HEIGHT as int)) by {}
            x = x + 1;
        }
        r
    }

    /// Puts food at `cell` if it is on the board and no segment occupies
    /// it; returns whether it did. Food already there is not looked at.
    pub fn place_food(&mut self, cell: Position) -> (placed: bool)
        ensures
            placed == is_free(old(self).segments@, cell),
            final(self).food@ == if placed {
                old(self).food@.push(cell)
            } else {
                old(self).food@
            },
            final(self).head == old(self).head,
            final(self).segments == old(self).segments,
            final(self).last_tail_position == old(self).last_tail_position,
    {
        if cell.is_in_bounds() && !self.occupies(cell) {
            self.food.push(cell);
            true
        } else {
            false
        }
    }

    /// Spawns one piece of food on a cell drawn uniformly from those no
    /// segment occupies (the same law as drawing board cells until a free
    /// one comes up). Returns the cell, or `None` when the snake fills the
    /// board.
    pub fn spawn_food(&mut self) -> (r: Option<Position>)
        ensures
            match r {
                Some(p) => is_free(old(self).segments@, p) && final(self).food@ == old(self).food@.push(p),
                None => (forall|p: Position| !is_free(old(self).segments@, p))
                    && final(self).food == old(self).food,
            },
            final(self).head == old(self).head,
            final(self).segments == old(self).segments,
            final(self).last_tail_position == old(self).last_tail_position,
    {
        let free = self.free_cells();
        if free.len() == 0 {
            assert forall|p: Position| !is_free(self.segments@, p) by {
                if is_free(self.segments@, p) {
                    assert(free@.contains(p));
                }
            }
            return None;
        }
        let k = random_below(free.len());
        let cell = free[k];
        assert(free@.contains(cell));
        let placed = self.place_food(cell);
        assert(placed);
        Some(cell)
    }
}

} // verus!
