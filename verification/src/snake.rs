//! Snake movement state machine: the direction latch, the repeating
//! move-interval timer, the head state, and the per-move algorithm that
//! validates, commits, shifts the body chain, and consumes growth credit.

use vstd::prelude::*;

use crate::grid::cells_contain;
use crate::grid::lemma_step_moves;
use crate::grid::Direction;
use crate::grid::GridPosition;
use crate::level::Level;

verus! {

/// Length of one move interval, in milliseconds of simulation time.
pub const MOVE_INTERVAL_MILLIS: u64 = 300;

/// The repeating move-interval timer. It accumulates elapsed simulation
/// time; each time a whole interval completes, one move is due.
#[derive(Clone, Copy, Debug, PartialEq, Eq, Structural)]
pub struct SnakeMoveTimer {
    /// Time accumulated towards the next interval completion, in
    /// milliseconds. At most one full interval is ever stored: the latch
    /// fast-forward parks the timer exactly at the interval boundary.
    pub elapsed: u64,
}

impl SnakeMoveTimer {
    /// The timer never stores more than one full interval.
    pub open spec fn wf(self) -> bool {
        self.elapsed <= MOVE_INTERVAL_MILLIS
    }

    /// Accumulate `delta` milliseconds. Returns true when an interval
    /// completed, in which case the remainder past the last whole interval
    /// is carried over, as a repeating timer does.
    pub fn tick(&mut self, delta: u64) -> (finished: bool)
        requires
            old(self).wf(),
            delta <= u64::MAX - MOVE_INTERVAL_MILLIS,
        ensures
            final(self).wf(),
            finished == (old(self).elapsed + delta >= MOVE_INTERVAL_MILLIS),
            finished ==> final(self).elapsed == (old(self).elapsed + delta) % (MOVE_INTERVAL_MILLIS as int),
            !finished ==> final(self).elapsed == old(self).elapsed + delta,
    {
        let total = self.elapsed + delta;
        if total >= MOVE_INTERVAL_MILLIS {
            self.elapsed = total % MOVE_INTERVAL_MILLIS;
            true
        } else {
            self.elapsed = total;
            false
        }
    }

    /// Park the timer at the interval boundary so that the very next tick
    /// completes an interval and moves the snake immediately.
    pub fn fast_forward(&mut self)
        ensures
            final(self).wf(),
            final(self).elapsed == MOVE_INTERVAL_MILLIS,
    {
        self.elapsed = MOVE_INTERVAL_MILLIS;
    }
}

/// Fresh timer with no time accumulated.
impl Default for SnakeMoveTimer {
    fn default() -> (r: Self)
        ensures
            r.elapsed == 0,
            r.wf(),
    {
        SnakeMoveTimer { elapsed: 0 }
    }
}

/// Whether the head's movement phase still runs. `Halted` is terminal:
/// after a collision no further position mutation happens until the level
/// is torn down and respawned.
#[derive(Clone, Copy, Debug, PartialEq, Eq, Structural)]
pub enum SnakeState {
    Active,
    Halted,
}

/// Count of body segments the head still owes creation credit for,
/// decremented as segments are created during committed moves.
#[derive(Clone, Copy, Debug, PartialEq, Eq, Structural)]
pub struct SnakeBodyBuffer(pub usize);

/// Body segments a fresh head owes at level start.
impl Default for SnakeBodyBuffer {
    fn default() -> (r: Self)
        ensures
            r.0 == 2,
    {
        SnakeBodyBuffer(2)
    }
}

/// The terminal collision signal, raised exactly once when a move is
/// rejected and the head halts.
#[derive(Clone, Copy, Debug, PartialEq, Eq, Structural)]
pub struct SnakeCollided;

/// The snake's head: its cell, the direction of the move actually taken,
/// the latched not-yet-applied direction, the move timer, the growth
/// buffer, and the two-state movement gate.
#[derive(Clone, Copy, Debug, PartialEq, Eq, Structural)]
pub struct SnakeHead {
    pub position: GridPosition,
    pub active_direction: Direction,
    pub pending_direction: Direction,
    pub timer: SnakeMoveTimer,
    pub buffer: SnakeBodyBuffer,
    pub state: SnakeState,
}

impl SnakeHead {
    /// A directional input is accepted unless it is the exact reverse of
    /// the direction of the move actually taken.
    pub open spec fn accepts_input(self, input: Direction) -> bool {
        input != self.active_direction.spec_reverse()
    }

    /// Latch a directional input.
    ///
    /// An input equal to the exact reverse of the active direction is
    /// silently rejected and changes nothing. Any other input overwrites
    /// the pending direction — the latest keypress wins — and fast-forwards
    /// the move timer, so an accepted direction change takes effect on the
    /// very next tick.
    pub fn latch_direction(&mut self, input: Direction)
        ensures
            !old(self).accepts_input(input) ==> *final(self) == *old(self),
            old(self).accepts_input(input) ==> *final(self) == (SnakeHead {
                pending_direction: input,
                timer: SnakeMoveTimer { elapsed: MOVE_INTERVAL_MILLIS },
                ..*old(self)
            }),
            old(self).timer.wf() ==> final(self).timer.wf(),
    {
        if input == self.active_direction.reverse() {
            return ;
        }
        self.pending_direction = input;
        self.timer.fast_forward();
    }
}

/// Default-valued head, as created at level start: at the origin, facing
/// and latched towards negative z, owing two body segments, active, with
/// a fresh timer.
impl Default for SnakeHead {
    fn default() -> (r: Self)
        ensures
            r.position == (GridPosition { x: 0, y: 0, z: 0 }),
            r.active_direction == Direction::NegZ,
            r.pending_direction == Direction::NegZ,
            r.timer.elapsed == 0,
            r.buffer.0 == 2,
            r.state == SnakeState::Active,
    {
        SnakeHead {
            position: GridPosition { x: 0, y: 0, z: 0 },
            active_direction: Direction::NegZ,
            pending_direction: Direction::NegZ,
            timer: SnakeMoveTimer { elapsed: 0 },
            buffer: SnakeBodyBuffer(2),
            state: SnakeState::Active,
        }
    }
}

/// The body chain of a committed move keeps the chain's own invariants and
/// stays clear of food that was not on the candidate cell.
proof fn lemma_shifted_body_wf(l0: Level, l1: Level, grow: bool)
    requires
        l0.wf(),
        !l0.move_blocked(),
        l0.arena.spec_half_size() <= 65536,
        l1.arena == l0.arena,
        l1.food == l0.food,
        l1.head.position == l0.spec_candidate(),
        l1.body@ == Level::shifted_body(l0.head.position, l0.body@, grow),
    ensures
        l1.body_wf(),
        l1.food matches Some(f) ==> !l1.body@.contains(f),
{
    let prev = l0.head.position;
    let cand = l0.spec_candidate();
    let b0 = l0.body@;
    let b1 = l1.body@;
    lemma_step_moves(prev, l0.head.pending_direction);
    assert(forall|k: int| 1 <= k < b1.len() ==> b1[k] == b0[k - 1]);
    assert forall|k: int| 0 <= k < b1.len() implies b1[k] != l1.head.position by {
        if k >= 1 {
            assert(b0.contains(b0[k - 1]));
        }
    }
    assert forall|k1: int, k2: int|
        0 <= k1 < k2 < b1.len() implies b1[k1] != b1[k2] by {
    }
    assert forall|k: int|
        0 <= k < b1.len() implies Level::in_bounds(l1.arena, b1[k]) by {
    }
    match l1.food {
        Some(f) => {
            assert(forall|k: int| 0 <= k < b1.len() ==> b1[k] != f);
        },
        None => {},
    }
}

impl Level {
    /// The movement phase of one interval completion, for an active head:
    /// compute the candidate cell one step ahead of the head along the
    /// pending direction; on a wall or body collision halt without moving
    /// and raise the terminal signal; otherwise commit the move, let the
    /// facing reflect the move actually taken, shift the body chain, and
    /// consume one unit of growth credit if any is owed.
    #[verifier::loop_isolation(false)]
    pub fn move_snake(&mut self) -> (collided: Option<SnakeCollided>)
        requires
            old(self).wf(),
            old(self).head.state == SnakeState::Active,
        ensures
            final(self).wf_core(),
            final(self).arena == old(self).arena,
            final(self).score == old(self).score,
            final(self).food == old(self).food,
            final(self).head.timer == old(self).head.timer,
            final(self).head.pending_direction == old(self).head.pending_direction,
            final(self).head.buffer.0 <= old(self).head.buffer.0,
            collided is Some <==> old(self).move_blocked(),
            old(self).move_blocked() ==> final(self).wf()
                && final(self).head == (SnakeHead { state: SnakeState::Halted, ..old(self).head })
                && final(self).body@ == old(self).body@,
            !old(self).move_blocked() ==> ({
                &&& final(self).head.position == old(self).spec_candidate()
                &&& final(self).head.active_direction == old(self).head.pending_direction
                &&& final(self).head.state == SnakeState::Active
                &&& final(self).body@ == Level::shifted_body(
                    old(self).head.position,
                    old(self).body@,
                    old(self).head.buffer.0 > 0,
                )
                &&& final(self).body@.len() == old(self).body@.len() + (
                    if old(self).head.buffer.0 > 0 { 1int } else { 0int })
                &&& (old(self).head.buffer.0 > 0 ==> final(self).head.buffer.0 == old(self).head.buffer.0 - 1)
                &&& (old(self).head.buffer.0 == 0 ==> final(self).head.buffer.0 == 0)
            }),
            (final(self).food == Some(final(self).head.position)) == (!old(self).move_blocked()
                && old(self).food == Some(old(self).spec_candidate())),
    {
        proof {
            assert(self.arena.spec_half_size() <= 65536);
        }
        let cand = self.head.position.step(self.head.pending_direction);
        let half = self.arena.half_size();
        if cand.x > half || cand.x < -half || cand.z > half || cand.z < -half || cells_contain(
            &self.body,
            cand,
        ) {
            self.head.state = SnakeState::Halted;
            return Some(SnakeCollided);
        }
        assert(!old(self).move_blocked());
        let prev = self.head.position;
        self.head.position = cand;
        self.head.active_direction = self.head.pending_direction;
        let grow = self.head.buffer.0 > 0;
        if grow {
            let owed = self.head.buffer.0;
            self.head.buffer = SnakeBodyBuffer(owed - 1);
            self.body.insert(0, prev);
            proof {
                assert(self.body@ =~= Level::shifted_body(prev, old(self).body@, true));
            }
        } else {
            let ghost mid = *self;
            let n = self.body.len();
            if n > 0 {
                let mut i: usize = n - 1;
                while i > 0
                    invariant
                        self.arena == mid.arena,
                        self.food == mid.food,
                        self.score == mid.score,
                        self.head == mid.head,
                        i < n,
                        self.body@.len() == n,
                        forall|j: int| 0 <= j <= i ==> self.body@[j] == old(self).body@[j],
                        forall|j: int| i < j < n ==> self.body@[j] == old(self).body@[j - 1],
                    decreases i,
                {
                    let moved_cell = self.body[i - 1];
                    self.body[i] = moved_cell;
                    i = i - 1;
                }
                self.body[0] = prev;
                proof {
                    assert(self.body@ =~= Level::shifted_body(prev, old(self).body@, false));
                }
            } else {
                proof {
                    assert(self.body@ =~= Level::shifted_body(prev, old(self).body@, false));
                }
            }
        }
        proof {
            lemma_shifted_body_wf(*old(self), *self, grow);
        }
        None
    }
}

} // verus!
