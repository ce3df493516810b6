//! Arena state: the current playable size, its derived bounds, and the
//! score-gated growth rule.

use vstd::prelude::*;

verus! {

/// Largest arena size the growth rule can ever reach.
///
/// Growth fires only when a `u32` score satisfies `score >= size * size / 4`.
/// At size 131073 that quarter area is 4295032832, which exceeds `u32::MAX`,
/// so no score can grow the arena further; 131073 is the largest odd size
/// reachable from the starting size 11.
pub const MAX_ARENA_SIZE: i32 = 131073;

/// The arena's side length in cells. It starts at 11, stays odd, only ever
/// grows, and grows by exactly 2 cells at a time.
#[derive(Clone, Copy, Debug, PartialEq, Eq, Structural)]
pub struct ArenaSize(pub i32);

impl ArenaSize {
    /// Sizes the growth rule can produce: odd, at least the starting size,
    /// and small enough that the quarter-area comparison stays meaningful
    /// for a `u32` score.
    pub open spec fn wf(self) -> bool {
        &&& 11 <= self.0 <= MAX_ARENA_SIZE
        &&& self.0 % 2 == 1
    }

    /// The maximum absolute coordinate a head may occupy on either axis.
    pub open spec fn spec_half_size(self) -> int {
        self.0 as int / 2
    }

    /// `size / 2` with integer division.
    pub fn half_size(&self) -> (r: i32)
        requires
            self.0 >= 0,
        ensures
            r as int == self.spec_half_size(),
    {
        self.0 / 2
    }

    /// The number of cells in the arena.
    pub open spec fn spec_area(self) -> int {
        self.0 * self.0
    }

    /// `size * size`, widened so the product always fits.
    pub fn area(&self) -> (r: i64)
        ensures
            r as int == self.spec_area(),
    {
        let v = self.0 as i64;
        assert(0 <= v * v <= 0x4000_0000_0000_0000i64) by (nonlinear_arith)
            requires
                -0x8000_0000i64 <= v <= 0x7fff_ffffi64,
        ;
        v * v
    }

    /// The growth rule's trigger: a score-change event whose new score has
    /// reached a quarter of the arena's area.
    pub open spec fn grow_condition(self, score: u32) -> bool {
        score as int >= self.spec_area() / 4
    }

    /// Evaluate the growth rule against `score`, once.
    ///
    /// This is edge-triggered by the caller on a score-change event, not
    /// polled: a single call grows the arena at most one step even when the
    /// new score would satisfy the condition of the grown arena as well.
    pub fn maybe_grow(&mut self, score: u32)
        requires
            old(self).wf(),
        ensures
            final(self).wf(),
            old(self).grow_condition(score) ==> final(self).0 == old(self).0 + 2,
            !old(self).grow_condition(score) ==> *final(self) == *old(self),
            final(self).0 >= old(self).0,
            final(self).spec_half_size() >= old(self).spec_half_size(),
    {
        let quarter_area = self.area() / 4;
        if score as i64 >= quarter_area {
            proof {
                // A u32 score can only satisfy the condition below the cap.
                if self.0 == MAX_ARENA_SIZE {
                    assert(self.0 * self.0 == 131073 * 131073);
                    assert(score as int >= 131073 * 131073 / 4);
                }
            }
            self.0 = self.0 + 2;
        }
    }
}

/// Default-valued arena, as created at level start.
impl Default for ArenaSize {
    /// The starting side length of a fresh level's arena.
    fn default() -> (r: Self)
        ensures
            r.0 == 11,
            r.wf(),
    {
        ArenaSize(11)
    }
}

} // verus!
