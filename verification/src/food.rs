//! Food placement and consumption: the free-cell set is recomputed from
//! scratch on every placement call, one cell is drawn from it at random,
//! and eating couples into the score and the growth buffer.

use rand::Rng;
use vstd::prelude::*;

use crate::grid::cells_contain;
use crate::grid::lemma_contains_after_push;
use crate::grid::GridPosition;
use crate::level::Level;
use crate::level::Score;
use crate::snake::SnakeBodyBuffer;
use crate::snake::SnakeHead;

verus! {

/// Relies on rand::Rng::gen_range over the half-open range `0..n` on
/// usize: the range is non-empty, so the call returns a value below `n`
/// instead of panicking. Which value comes back is left open — the draw
/// is random.
#[verifier::external_body]
fn random_index(n: usize) -> (r: usize)
    requires
        n > 0,
    ensures
        r < n,
{
    rand::thread_rng().gen_range(0..n)
}

impl Level {
    /// The current free-cell set as a list: every in-bounds cell of the
    /// playing plane that neither the head nor a body segment occupies,
    /// while no food is present.
    #[verifier::loop_isolation(false)]
    fn free_cells(&self) -> (pool: Vec<GridPosition>)
        requires
            self.wf(),
            self.food is None,
        ensures
            forall|p: GridPosition| pool@.contains(p) <==> self.free_cell(p),
    {
        proof {
            assert(self.arena.spec_half_size() <= 65536);
        }
        let half = self.arena.half_size();
        let mut pool: Vec<GridPosition> = Vec::new();
        let mut x: i32 = -half;
        while x <= half
            invariant
                -half <= x <= half + 1,
                forall|p: GridPosition| #[trigger]
                    pool@.contains(p) <==> (self.free_cell(p) && p.x < x),
            decreases half + 1 - x,
        {
            let mut z: i32 = -half;
            while z <= half
                invariant
                    -half <= x <= half,
                    -half <= z <= half + 1,
                    forall|p: GridPosition| #[trigger]
                        pool@.contains(p) <==> (self.free_cell(p) && (p.x < x || (p.x == x
                            && p.z < z))),
                decreases half + 1 - z,
            {
                let cell = GridPosition { x, y: 0, z };
                let ghost pool0 = pool@;
                let taken = cell == self.head.position || cells_contain(&self.body, cell);
                if !taken {
                    pool.push(cell);
                }
                proof {
                    assert(self.free_cell(cell) == !taken);
                    assert forall|p: GridPosition| #[trigger]
                        pool@.contains(p) <==> (self.free_cell(p) && (p.x < x || (p.x == x
                            && p.z <= z))) by {
                        if !taken {
                            lemma_contains_after_push(pool0, cell, p);
                        }
                        if self.free_cell(p) && p.x == x && p.z == z {
                            assert(p == cell);
                        }
                    }
                }
                z = z + 1;
            }
            x = x + 1;
        }
        proof {
            assert forall|p: GridPosition| pool@.contains(p) <==> self.free_cell(p) by {
                if self.free_cell(p) {
                    assert(p.x as int <= self.arena.spec_half_size());
                }
            }
        }
        pool
    }

    /// Place one food, drawn at random from the free-cell set, which is
    /// recomputed from scratch against the current arena bounds and
    /// occupancy. If the board is full — no free cell remains — placement
    /// is silently skipped and the level stays without food.
    pub fn spawn_food(&mut self)
        requires
            old(self).wf(),
            old(self).food is None,
        ensures
            final(self).wf(),
            final(self).arena == old(self).arena,
            final(self).head == old(self).head,
            final(self).body@ == old(self).body@,
            final(self).score == old(self).score,
            (exists|p: GridPosition| old(self).free_cell(p)) ==> (final(self).food matches Some(f)
                && old(self).free_cell(f)),
            !(exists|p: GridPosition| old(self).free_cell(p)) ==> final(self).food is None,
    {
        let pool = self.free_cells();
        if pool.len() == 0 {
            proof {
                assert forall|p: GridPosition| !old(self).free_cell(p) by {
                    if old(self).free_cell(p) {
                        assert(pool@.contains(p));
                    }
                }
            }
            return ;
        }
        let idx = random_index(pool.len());
        let f = pool[idx];
        proof {
            assert(pool@.contains(f));
            assert(old(self).free_cell(f));
        }
        self.food = Some(f);
    }

    /// The consumption phase: when the head has just moved onto the food's
    /// cell, the food is consumed — it disappears, the body is owed one
    /// more segment, and the score increases by exactly 1. Anything else
    /// leaves the level untouched.
    pub fn eat_food(&mut self) -> (ate: bool)
        requires
            old(self).wf_core(),
            old(self).score.0 < u32::MAX,
            old(self).head.buffer.0 < usize::MAX,
        ensures
            final(self).wf(),
            final(self).arena == old(self).arena,
            final(self).body@ == old(self).body@,
            ate == (old(self).food == Some(old(self).head.position)),
            ate ==> final(self).food is None && final(self).score.0 == old(self).score.0 + 1
                && final(self).head == (SnakeHead {
                buffer: SnakeBodyBuffer((old(self).head.buffer.0 + 1) as usize),
                ..old(self).head
            }),
            !ate ==> final(self).food == old(self).food && final(self).score == old(self).score
                && final(self).head == old(self).head,
    {
        let ate = match self.food {
            Some(f) => f == self.head.position,
            None => false,
        };
        if ate {
            self.food = None;
            let owed = self.head.buffer.0;
            self.head.buffer = SnakeBodyBuffer(owed + 1);
            let points = self.score.0;
            self.score = Score(points + 1);
        }
        ate
    }
}

} // verus!
