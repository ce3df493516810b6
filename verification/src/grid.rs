//! Grid coordinate model: integer 3D cell addressing with pure value
//! semantics. The game plays on the `y == 0` plane; `y` is carried so that
//! positions map one-to-one onto world cells.

use vstd::prelude::*;

verus! {

/// One of the four axis-aligned unit directions a snake can face.
#[derive(Clone, Copy, Debug, PartialEq, Eq, Structural)]
pub enum Direction {
    NegX,
    PosX,
    NegZ,
    PosZ,
}

impl Direction {
    /// The x component of this direction's unit vector.
    pub open spec fn spec_dx(self) -> int {
        match self {
            Direction::NegX => -1,
            Direction::PosX => 1,
            Direction::NegZ => 0,
            Direction::PosZ => 0,
        }
    }

    /// The z component of this direction's unit vector.
    pub open spec fn spec_dz(self) -> int {
        match self {
            Direction::NegX => 0,
            Direction::PosX => 0,
            Direction::NegZ => -1,
            Direction::PosZ => 1,
        }
    }

    /// The exact opposite direction.
    pub open spec fn spec_reverse(self) -> Direction {
        match self {
            Direction::NegX => Direction::PosX,
            Direction::PosX => Direction::NegX,
            Direction::NegZ => Direction::PosZ,
            Direction::PosZ => Direction::NegZ,
        }
    }

    /// Executable counterpart of [`Direction::spec_reverse`].
    pub fn reverse(self) -> (r: Direction)
        ensures
            r == self.spec_reverse(),
    {
        match self {
            Direction::NegX => Direction::PosX,
            Direction::PosX => Direction::NegX,
            Direction::NegZ => Direction::PosZ,
            Direction::PosZ => Direction::NegZ,
        }
    }
}

/// A grid cell address: an integer triple with equality and no ownership
/// semantics. `y` stays 0 for every cell this simulation touches.
#[derive(Clone, Copy, Debug, PartialEq, Eq, Structural)]
pub struct GridPosition {
    pub x: i32,
    pub y: i32,
    pub z: i32,
}

impl GridPosition {
    /// The cell reached by one step in direction `d`.
    pub open spec fn spec_step(self, d: Direction) -> GridPosition {
        GridPosition { x: (self.x + d.spec_dx()) as i32, y: self.y, z: (self.z + d.spec_dz()) as i32 }
    }

    /// Vector addition of this position with `d`'s unit vector.
    pub fn step(self, d: Direction) -> (r: GridPosition)
        requires
            i32::MIN < self.x < i32::MAX,
            i32::MIN < self.z < i32::MAX,
        ensures
            r == self.spec_step(d),
    {
        match d {
            Direction::NegX => GridPosition { x: self.x - 1, y: self.y, z: self.z },
            Direction::PosX => GridPosition { x: self.x + 1, y: self.y, z: self.z },
            Direction::NegZ => GridPosition { x: self.x, y: self.y, z: self.z - 1 },
            Direction::PosZ => GridPosition { x: self.x, y: self.y, z: self.z + 1 },
        }
    }
}

/// Appending a cell to a chain adds exactly that cell to its members.
pub proof fn lemma_contains_after_push(s: Seq<GridPosition>, v: GridPosition, p: GridPosition)
    ensures
        s.push(v).contains(p) <==> (s.contains(p) || p == v),
{
    if s.push(v).contains(p) {
        let k = choose|k: int| 0 <= k < s.push(v).len() && s.push(v)[k] == p;
        if k < s.len() {
            assert(s[k] == p);
        }
    }
    if s.contains(p) {
        let k = choose|k: int| 0 <= k < s.len() && s[k] == p;
        assert(s.push(v)[k] == p);
    }
    assert(s.push(v)[s.len() as int] == v);
}

/// A step always leaves the cell it started from: exactly one of the two
/// plane coordinates changes.
pub proof fn lemma_step_moves(p: GridPosition, d: Direction)
    requires
        i32::MIN < p.x < i32::MAX,
        i32::MIN < p.z < i32::MAX,
    ensures
        p.spec_step(d) != p,
{
}

/// Linear scan for a cell among a chain of cells.
pub fn cells_contain(cells: &Vec<GridPosition>, p: GridPosition) -> (b: bool)
    ensures
        b == cells@.contains(p),
{
    let n = cells.len();
    let mut i: usize = 0;
    while i < n
        invariant
            i <= n,
            n == cells@.len(),
            forall|j: int| 0 <= j < i ==> cells@[j] != p,
        decreases n - i,
    {
        if cells[i] == p {
            assert(cells@[i as int] == p);
            return true;
        }
        i = i + 1;
    }
    false
}

/// The axis direction from `first` towards `second`, preferring the z axis
/// and defaulting to `PosX` when the two positions share both coordinates.
/// Consumers use it to classify the local shape of adjacent chain cells.
pub fn grid_direction(first: &GridPosition, second: &GridPosition) -> (d: Direction)
    ensures
        second.z < first.z ==> d == Direction::NegZ,
        second.z > first.z ==> d == Direction::PosZ,
        second.z == first.z && second.x < first.x ==> d == Direction::NegX,
        second.z == first.z && second.x >= first.x ==> d == Direction::PosX,
{
    if second.z < first.z {
        Direction::NegZ
    } else if second.z > first.z {
        Direction::PosZ
    } else if second.x < first.x {
        Direction::NegX
    } else {
        Direction::PosX
    }
}

} // verus!
