//! The level: one arena, one snake, at most one food, one score — and the
//! tick orchestrator that advances them in the fixed phase order
//! movement, collision, consumption, score, growth, respawn.

use vstd::prelude::*;

use crate::arena::ArenaSize;
use crate::grid::GridPosition;
use crate::snake::SnakeCollided;
use crate::snake::SnakeHead;
use crate::snake::SnakeMoveTimer;
use crate::snake::SnakeState;
use crate::snake::MOVE_INTERVAL_MILLIS;

verus! {

/// Non-negative food-eaten counter; one instance per level.
#[derive(Clone, Copy, Debug, PartialEq, Eq, Structural)]
pub struct Score(pub u32);

/// What one tick reported back to the host: the terminal collision signal
/// (raised exactly once), whether a move was committed, and whether food
/// was consumed.
#[derive(Clone, Copy, Debug)]
pub struct TickEvents {
    pub collided: Option<SnakeCollided>,
    pub moved: bool,
    pub ate: bool,
}

/// The whole simulation state of one level while it is active.
///
/// `body` is the snake's body chain in chain order: the segment nearest the
/// head first, the tail last. Segments are only ever appended at the tail,
/// so the order never needs re-sorting.
pub struct Level {
    pub arena: ArenaSize,
    pub head: SnakeHead,
    pub body: Vec<GridPosition>,
    pub food: Option<GridPosition>,
    pub score: Score,
}

impl Level {
    /// `p` lies on the playing plane within the arena's walls.
    pub open spec fn in_bounds(arena: ArenaSize, p: GridPosition) -> bool {
        &&& -arena.spec_half_size() <= p.x as int <= arena.spec_half_size()
        &&& -arena.spec_half_size() <= p.z as int <= arena.spec_half_size()
        &&& p.y == 0
    }

    /// The body chain holds pairwise distinct in-bounds cells, none of them
    /// the head's.
    pub open spec fn body_wf(self) -> bool {
        &&& forall|i: int, j: int|
            0 <= i < j < self.body@.len() ==> self.body@[i] != self.body@[j]
        &&& forall|i: int|
            0 <= i < self.body@.len() ==> self.body@[i] != self.head.position
        &&& forall|i: int|
            0 <= i < self.body@.len() ==> Self::in_bounds(self.arena, self.body@[i])
    }

    /// Well-formedness of everything but the food/head separation: the
    /// state as it stands between a committed move and the consumption
    /// phase, when the head may momentarily share the food's cell.
    pub open spec fn wf_core(self) -> bool {
        &&& self.arena.wf()
        &&& Self::in_bounds(self.arena, self.head.position)
        &&& self.head.timer.wf()
        &&& self.body_wf()
        &&& (self.food matches Some(f) ==> Self::in_bounds(self.arena, f)
            && !self.body@.contains(f))
    }

    /// Well-formedness at the end of every committed tick: all occupied
    /// cells (head, body, food) are pairwise distinct and in bounds.
    pub open spec fn wf(self) -> bool {
        &&& self.wf_core()
        &&& (self.food matches Some(f) ==> f != self.head.position)
    }

    /// The cell the head would move into on the next interval completion.
    pub open spec fn spec_candidate(self) -> GridPosition {
        self.head.position.spec_step(self.head.pending_direction)
    }

    /// The candidate is rejected: it is past a wall or on a body segment.
    pub open spec fn move_blocked(self) -> bool {
        ||| !Self::in_bounds(self.arena, self.spec_candidate())
        ||| self.body@.contains(self.spec_candidate())
    }

    /// The body chain after one committed move away from `head_pre`: each
    /// segment adopts its head-ward neighbour's cell, the segment nearest
    /// the head adopts the head's pre-move cell, and when growth credit is
    /// consumed a new tail segment keeps the cell that would otherwise be
    /// vacated.
    pub open spec fn shifted_body(
        head_pre: GridPosition,
        body: Seq<GridPosition>,
        grow: bool,
    ) -> Seq<GridPosition> {
        if grow {
            seq![head_pre] + body
        } else if body.len() == 0 {
            body
        } else {
            seq![head_pre] + body.drop_last()
        }
    }

    /// `p` is not occupied by the head or any body segment, and lies in
    /// bounds: a cell food could occupy.
    pub open spec fn vacant_cell(self, p: GridPosition) -> bool {
        &&& Self::in_bounds(self.arena, p)
        &&& p != self.head.position
        &&& !self.body@.contains(p)
    }

    /// Member of the free-cell set food placement samples from: vacant and
    /// not already holding food.
    pub open spec fn free_cell(self, p: GridPosition) -> bool {
        &&& self.vacant_cell(p)
        &&& self.food != Some(p)
    }

    /// The move-interval timer completes an interval within this tick's
    /// time delta.
    pub open spec fn timer_fires(self, delta: u64) -> bool {
        self.head.timer.elapsed + delta >= MOVE_INTERVAL_MILLIS
    }

    /// Create the simulation state of a fresh level: default arena, a
    /// default head at the origin owing two segments, no body yet, a zero
    /// score, and one initial food placement.
    pub fn spawn_level() -> (l: Level)
        ensures
            l.wf(),
            l.arena.0 == 11,
            l.head == (SnakeHead {
                position: GridPosition { x: 0, y: 0, z: 0 },
                active_direction: crate::grid::Direction::NegZ,
                pending_direction: crate::grid::Direction::NegZ,
                timer: SnakeMoveTimer { elapsed: 0 },
                buffer: crate::snake::SnakeBodyBuffer(2),
                state: SnakeState::Active,
            }),
            l.body@.len() == 0,
            l.score.0 == 0,
            l.food matches Some(f) && l.vacant_cell(f),
    {
        let mut l = Level {
            arena: ArenaSize::default(),
            head: SnakeHead::default(),
            body: Vec::new(),
            food: None,
            score: Score(0),
        };
        proof {
            assert(l.free_cell(GridPosition { x: 0, y: 0, z: 1 }));
        }
        l.spawn_food();
        l
    }

    /// Advance the simulation by one tick of `delta` milliseconds, running
    /// the phases in their fixed order: timer, movement (validate, commit,
    /// chain shift, growth), collision signal, food consumption, score,
    /// arena growth, food respawn.
    ///
    /// A halted head freezes the whole level: ticking it is an idempotent
    /// no-op, and the terminal signal is never raised a second time.
    pub fn tick(&mut self, delta: u64) -> (ev: TickEvents)
        requires
            old(self).wf(),
            delta <= u64::MAX - MOVE_INTERVAL_MILLIS,
            old(self).score.0 < u32::MAX,
            old(self).head.buffer.0 < usize::MAX,
        ensures
            final(self).wf(),
            final(self).arena.0 >= old(self).arena.0,
            (ev.collided is Some) <==> (old(self).head.state == SnakeState::Active && old(self).timer_fires(delta) && old(self).move_blocked()),
            old(self).head.state == SnakeState::Halted ==> final(self).head == old(self).head
                && final(self).body@ == old(self).body@ && final(self).food == old(self).food
                && final(self).score == old(self).score && final(self).arena == old(self).arena
                && ev.collided is None && !ev.moved && !ev.ate,
            old(self).head.state == SnakeState::Active && !old(self).timer_fires(delta) ==> final(self).head == (SnakeHead {
                timer: SnakeMoveTimer { elapsed: (old(self).head.timer.elapsed + delta) as u64 },
                ..old(self).head
            }) && final(self).body@ == old(self).body@ && final(self).food == old(self).food
                && final(self).score == old(self).score && final(self).arena == old(self).arena
                && ev.collided is None && !ev.moved && !ev.ate,
            old(self).head.state == SnakeState::Active && old(self).timer_fires(delta) ==> final(self).head.timer.elapsed == (old(self).head.timer.elapsed + delta) % (
            MOVE_INTERVAL_MILLIS as int),
            old(self).head.state == SnakeState::Active && old(self).timer_fires(delta) && old(self).move_blocked() ==> final(self).head.position == old(self).head.position && final(self).head.state == SnakeState::Halted && final(self).head.active_direction == old(self).head.active_direction && final(self).head.pending_direction == old(self).head.pending_direction && final(self).head.buffer == old(self).head.buffer && final(self).body@ == old(self).body@ && final(self).food == old(self).food && final(self).score
                == old(self).score && final(self).arena == old(self).arena && !ev.moved && !ev.ate,
            old(self).head.state == SnakeState::Active && old(self).timer_fires(delta) && !old(self).move_blocked() ==> ({
                &&& final(self).head.position == old(self).spec_candidate()
                &&& final(self).head.active_direction == old(self).head.pending_direction
                &&& final(self).head.pending_direction == old(self).head.pending_direction
                &&& final(self).head.state == SnakeState::Active
                &&& final(self).body@ == Level::shifted_body(
                    old(self).head.position,
                    old(self).body@,
                    old(self).head.buffer.0 > 0,
                )
                &&& ev.collided is None
                &&& ev.moved
                &&& ev.ate == (old(self).food == Some(old(self).spec_candidate()))
            }),
            old(self).head.state == SnakeState::Active && old(self).timer_fires(delta) && !old(self).move_blocked() && old(self).food != Some(old(self).spec_candidate()) ==> final(self).food == old(self).food && final(self).score == old(self).score && final(self).arena
                == old(self).arena && final(self).head.buffer.0 == old(self).head.buffer.0 - (
            if old(self).head.buffer.0 > 0 {
                1int
            } else {
                0int
            }),
            old(self).head.state == SnakeState::Active && old(self).timer_fires(delta) && !old(self).move_blocked() && old(self).food == Some(old(self).spec_candidate()) ==> ({
                &&& final(self).score.0 == old(self).score.0 + 1
                &&& final(self).arena.0 == (if old(self).arena.grow_condition(
                    (old(self).score.0 + 1) as u32,
                ) {
                    old(self).arena.0 + 2
                } else {
                    old(self).arena.0 as int
                })
                &&& final(self).head.buffer.0 == old(self).head.buffer.0 - (
                if old(self).head.buffer.0 > 0 {
                    1int
                } else {
                    0int
                }) + 1
                &&& ((exists|p: GridPosition| final(self).vacant_cell(p)) ==> (final(self).food matches Some(f)
                    && final(self).vacant_cell(f)))
                &&& (!(exists|p: GridPosition| final(self).vacant_cell(p)) ==> final(self).food is None)
            }),
    {
        if self.head.state == SnakeState::Halted {
            return TickEvents { collided: None, moved: false, ate: false };
        }
        let fired = self.head.timer.tick(delta);
        if !fired {
            return TickEvents { collided: None, moved: false, ate: false };
        }
        let collided = self.move_snake();
        if let Some(signal) = collided {
            return TickEvents { collided: Some(signal), moved: false, ate: false };
        }
        let ate = self.eat_food();
        if ate {
            let points = self.score.0;
            self.arena.maybe_grow(points);
            proof {
                assert forall|k: int|
                    0 <= k < self.body@.len() implies Level::in_bounds(
                    self.arena,
                    self.body@[k],
                ) by {
                    assert(Level::in_bounds(old(self).arena, self.body@[k]));
                }
            }
            let ghost before_spawn = *self;
            self.spawn_food();
            proof {
                assert(forall|p: GridPosition|
                    before_spawn.free_cell(p) == self.vacant_cell(p));
                if exists|p: GridPosition| self.vacant_cell(p) {
                    let w = choose|p: GridPosition| self.vacant_cell(p);
                    assert(before_spawn.free_cell(w));
                }
            }
        }
        TickEvents { collided: None, moved: true, ate }
    }

    /// Every cell the simulation currently occupies, head first, then the
    /// body chain, then the food if any.
    pub open spec fn occupied_cells(self) -> Seq<GridPosition> {
        seq![self.head.position] + self.body@ + (match self.food {
            Some(f) => seq![f],
            None => Seq::<GridPosition>::empty(),
        })
    }
}

/// In a well-formed level the occupied cells — head, body chain, and food —
/// are pairwise distinct: the snake never overlaps itself, and food never
/// sits under the snake.
pub proof fn lemma_occupied_cells_distinct(l: Level)
    requires
        l.wf(),
    ensures
        forall|i: int, j: int|
            0 <= i < j < l.occupied_cells().len()
                ==> l.occupied_cells()[i] != l.occupied_cells()[j],
{
    let cells = l.occupied_cells();
    let n = l.body@.len() as int;
    assert forall|i: int, j: int|
        0 <= i < j < cells.len() implies cells[i] != cells[j] by {
        if i == 0 {
            if j <= n {
                assert(cells[j] == l.body@[j - 1]);
            } else {
                assert(l.food matches Some(f) && cells[j] == f);
            }
        } else if i <= n {
            assert(cells[i] == l.body@[i - 1]);
            if j <= n {
                assert(cells[j] == l.body@[j - 1]);
            } else {
                assert(l.food matches Some(f) && cells[j] == f);
                assert(l.body@.contains(l.body@[i - 1]));
            }
        }
    }
}

/// In a well-formed level the head's coordinates never exceed the arena's
/// half-size on either axis.
pub proof fn lemma_head_within_bounds(l: Level)
    requires
        l.wf(),
    ensures
        -l.arena.spec_half_size() <= l.head.position.x as int <= l.arena.spec_half_size(),
        -l.arena.spec_half_size() <= l.head.position.z as int <= l.arena.spec_half_size(),
        l.head.position.y == 0,
{
}

} // verus!

