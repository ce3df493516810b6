//! Shape classification for the body chain: which piece each segment shows
//! and how far it is turned about the vertical axis. The rendering
//! collaborator maps the quarter-turn count to an angle and the shape to a
//! scene; everything it needs to decide is integer logic on directions and
//! is computed here.

use vstd::prelude::*;

use crate::grid::Direction;

verus! {

/// Which piece a body segment shows: the rounded tail end, a straight
/// piece, or a corner piece.
#[derive(Clone, Copy, Debug, PartialEq, Eq, Structural)]
pub enum SegmentShape {
    End,
    Straight,
    Corner,
}

/// Both directions run along the same axis, with or against each other.
pub open spec fn spec_same_axis(a: Direction, b: Direction) -> bool {
    a == b || a == b.spec_reverse()
}

/// Quarter turns about the vertical axis that make a forward-facing piece
/// face `d`: none for negative z, the piece's rest direction.
pub open spec fn spec_facing_quarter_turns(d: Direction) -> u8 {
    match d {
        Direction::NegZ => 0,
        Direction::NegX => 1,
        Direction::PosZ => 2,
        Direction::PosX => 3,
    }
}

/// Quarter turns for a corner piece entered from `back` and left towards
/// `forward`, for the four clockwise and four counter-clockwise bends.
pub open spec fn spec_corner_quarter_turns(back: Direction, forward: Direction) -> u8 {
    if (forward == Direction::NegZ && back == Direction::PosX) || (forward == Direction::NegX
        && back == Direction::PosZ) {
        3
    } else if (forward == Direction::PosZ && back == Direction::NegX) || (forward
        == Direction::PosX && back == Direction::NegZ) {
        1
    } else if (forward == Direction::NegZ && back == Direction::NegX) || (forward
        == Direction::PosX && back == Direction::PosZ) {
        2
    } else {
        0
    }
}

/// Executable counterpart of [`spec_facing_quarter_turns`]; also orients
/// the head piece by its facing direction.
pub fn facing_quarter_turns(d: Direction) -> (r: u8)
    ensures
        r == spec_facing_quarter_turns(d),
{
    match d {
        Direction::NegZ => 0,
        Direction::NegX => 1,
        Direction::PosZ => 2,
        Direction::PosX => 3,
    }
}

/// Classify one body segment from the direction towards its head-ward
/// neighbour (`forward`), the direction from its tail-ward neighbour
/// (`back`), and whether it is the tail-most segment (which shows the end
/// piece and takes its bearing from `forward` alone).
pub fn segment_visual(back: Direction, forward: Direction, is_tail: bool) -> (r: (
    SegmentShape,
    u8,
))
    ensures
        spec_same_axis(forward, back) && is_tail ==> r.0 == SegmentShape::End,
        spec_same_axis(forward, back) && !is_tail ==> r.0 == SegmentShape::Straight,
        !spec_same_axis(forward, back) ==> r.0 == SegmentShape::Corner,
        spec_same_axis(forward, back) ==> r.1 == spec_facing_quarter_turns(forward),
        !spec_same_axis(forward, back) ==> r.1 == spec_corner_quarter_turns(back, forward),
        r.1 < 4,
{
    let same_axis = forward == back || forward == back.reverse();
    if same_axis {
        let shape = if is_tail {
            SegmentShape::End
        } else {
            SegmentShape::Straight
        };
        (shape, facing_quarter_turns(forward))
    } else {
        let turns: u8 = if (matches!(forward, Direction::NegZ) && matches!(back, Direction::PosX))
            || (matches!(forward, Direction::NegX) && matches!(back, Direction::PosZ)) {
            3
        } else if (matches!(forward, Direction::PosZ) && matches!(back, Direction::NegX))
            || (matches!(forward, Direction::PosX) && matches!(back, Direction::NegZ)) {
            1
        } else if (matches!(forward, Direction::NegZ) && matches!(back, Direction::NegX))
            || (matches!(forward, Direction::PosX) && matches!(back, Direction::PosZ)) {
            2
        } else {
            0
        };
        (SegmentShape::Corner, turns)
    }
}

} // verus!
