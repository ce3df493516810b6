use snake_core::arena::ArenaSize;
use snake_core::grid::grid_direction;
use snake_core::grid::Direction;
use snake_core::grid::GridPosition;
use snake_core::level::Level;
use snake_core::level::Score;
use snake_core::snake::SnakeBodyBuffer;
use snake_core::snake::SnakeHead;
use snake_core::snake::SnakeMoveTimer;
use snake_core::snake::SnakeState;
use snake_core::visual::facing_quarter_turns;
use snake_core::visual::segment_visual;
use snake_core::visual::SegmentShape;

fn cell(x: i32, z: i32) -> GridPosition {
    GridPosition { x, y: 0, z }
}

fn head_at(x: i32, z: i32, dir: Direction) -> SnakeHead {
    SnakeHead {
        position: cell(x, z),
        active_direction: dir,
        pending_direction: dir,
        timer: SnakeMoveTimer { elapsed: 0 },
        buffer: SnakeBodyBuffer(0),
        state: SnakeState::Active,
    }
}

#[test]
fn half_size_and_area_formulas() {
    let a = ArenaSize(11);
    assert_eq!(a.half_size(), 5);
    assert_eq!(a.area(), 121);
    let b = ArenaSize(13);
    assert_eq!(b.half_size(), 6);
    assert_eq!(b.area(), 169);
}

#[test]
fn arena_grows_exactly_at_quarter_area() {
    let mut a = ArenaSize(11);
    a.maybe_grow(29);
    assert_eq!(a.0, 11);
    a.maybe_grow(30);
    assert_eq!(a.0, 13);
}

#[test]
fn arena_growth_is_one_step_per_event() {
    // A single score-change event grows the arena at most once, however
    // far past the threshold the score is.
    let mut a = ArenaSize(11);
    a.maybe_grow(4000);
    assert_eq!(a.0, 13);
    a.maybe_grow(4000);
    assert_eq!(a.0, 15);
}

#[test]
fn reversal_input_is_silently_rejected() {
    let mut h = head_at(0, 0, Direction::NegZ);
    h.timer.elapsed = 120;
    h.latch_direction(Direction::PosZ);
    assert_eq!(h.pending_direction, Direction::NegZ);
    assert_eq!(h.timer.elapsed, 120);
}

#[test]
fn accepted_input_latches_and_fast_forwards() {
    let mut h = head_at(0, 0, Direction::NegZ);
    h.timer.elapsed = 120;
    h.latch_direction(Direction::PosX);
    assert_eq!(h.pending_direction, Direction::PosX);
    assert_eq!(h.active_direction, Direction::NegZ);
    assert_eq!(h.timer.elapsed, 300);
}

#[test]
fn latest_accepted_input_wins() {
    let mut h = head_at(0, 0, Direction::NegZ);
    h.latch_direction(Direction::PosX);
    h.latch_direction(Direction::NegX);
    assert_eq!(h.pending_direction, Direction::NegX);
}

#[test]
fn latched_direction_applies_on_next_tick() {
    let mut l = Level {
        arena: ArenaSize(11),
        head: head_at(0, 0, Direction::NegZ),
        body: Vec::new(),
        food: Some(cell(3, 3)),
        score: Score(0),
    };
    l.head.latch_direction(Direction::PosX);
    // The fast-forwarded timer makes even a zero-length tick move.
    let ev = l.tick(0);
    assert!(ev.moved);
    assert_eq!(l.head.position, cell(1, 0));
    assert_eq!(l.head.active_direction, Direction::PosX);
}

#[test]
fn eat_food_counts_one_point_and_one_segment_credit() {
    let mut l = Level {
        arena: ArenaSize(11),
        head: head_at(2, 2, Direction::PosZ),
        body: Vec::new(),
        food: Some(cell(2, 2)),
        score: Score(4),
    };
    let ate = l.eat_food();
    assert!(ate);
    assert_eq!(l.score.0, 5);
    assert_eq!(l.head.buffer.0, 1);
    assert!(l.food.is_none());
}

#[test]
fn eat_food_elsewhere_changes_nothing() {
    let mut l = Level {
        arena: ArenaSize(11),
        head: head_at(2, 2, Direction::PosZ),
        body: Vec::new(),
        food: Some(cell(2, 3)),
        score: Score(4),
    };
    let ate = l.eat_food();
    assert!(!ate);
    assert_eq!(l.score.0, 4);
    assert_eq!(l.head.buffer.0, 0);
    assert_eq!(l.food, Some(cell(2, 3)));
}

#[test]
fn spawn_food_takes_the_only_free_cell() {
    // Fill the whole arena but the head's cell and one target cell: the
    // placed food can only be the target. This fails if the random draw
    // could fall outside the free-cell set.
    let target = cell(5, 5);
    let mut body = Vec::new();
    for x in -5..=5 {
        for z in -5..=5 {
            let c = cell(x, z);
            if c != cell(0, 0) && c != target {
                body.push(c);
            }
        }
    }
    let mut l = Level {
        arena: ArenaSize(11),
        head: head_at(0, 0, Direction::PosZ),
        body,
        food: None,
        score: Score(0),
    };
    l.spawn_food();
    assert_eq!(l.food, Some(target));
}

#[test]
fn spawn_food_skips_a_full_board() {
    let mut body = Vec::new();
    for x in -5..=5 {
        for z in -5..=5 {
            let c = cell(x, z);
            if c != cell(0, 0) {
                body.push(c);
            }
        }
    }
    let mut l = Level {
        arena: ArenaSize(11),
        head: head_at(0, 0, Direction::PosZ),
        body,
        food: None,
        score: Score(0),
    };
    l.spawn_food();
    assert!(l.food.is_none());
}

#[test]
fn spawn_food_lands_on_a_free_cell() {
    let mut l = Level {
        arena: ArenaSize(11),
        head: head_at(1, 0, Direction::PosZ),
        body: vec![cell(1, -1), cell(1, -2)],
        food: None,
        score: Score(0),
    };
    l.spawn_food();
    let f = l.food.expect("two body cells leave the board far from full");
    assert!(f.x.abs() <= 5 && f.z.abs() <= 5 && f.y == 0);
    assert_ne!(f, l.head.position);
    assert!(!l.body.contains(&f));
}

#[test]
fn grid_direction_prefers_z_axis() {
    assert_eq!(grid_direction(&cell(0, 0), &cell(0, -3)), Direction::NegZ);
    assert_eq!(grid_direction(&cell(0, 0), &cell(0, 2)), Direction::PosZ);
    assert_eq!(grid_direction(&cell(0, 0), &cell(-1, 0)), Direction::NegX);
    assert_eq!(grid_direction(&cell(0, 0), &cell(4, 0)), Direction::PosX);
    assert_eq!(grid_direction(&cell(2, 2), &cell(2, 2)), Direction::PosX);
}

#[test]
fn direction_reverse_pairs() {
    assert_eq!(Direction::NegZ.reverse(), Direction::PosZ);
    assert_eq!(Direction::PosZ.reverse(), Direction::NegZ);
    assert_eq!(Direction::NegX.reverse(), Direction::PosX);
    assert_eq!(Direction::PosX.reverse(), Direction::NegX);
}

#[test]
fn facing_turns_match_rest_direction() {
    assert_eq!(facing_quarter_turns(Direction::NegZ), 0);
    assert_eq!(facing_quarter_turns(Direction::NegX), 1);
    assert_eq!(facing_quarter_turns(Direction::PosZ), 2);
    assert_eq!(facing_quarter_turns(Direction::PosX), 3);
}

#[test]
fn straight_segments_and_tail_follow_forward() {
    assert_eq!(
        segment_visual(Direction::PosZ, Direction::PosZ, false),
        (SegmentShape::Straight, 2)
    );
    assert_eq!(segment_visual(Direction::PosZ, Direction::PosZ, true), (SegmentShape::End, 2));
    assert_eq!(
        segment_visual(Direction::NegX, Direction::NegX, false),
        (SegmentShape::Straight, 1)
    );
}

#[test]
fn corner_segments_turn_by_the_bend() {
    assert_eq!(
        segment_visual(Direction::PosX, Direction::NegZ, false),
        (SegmentShape::Corner, 3)
    );
    assert_eq!(
        segment_visual(Direction::PosZ, Direction::NegX, false),
        (SegmentShape::Corner, 3)
    );
    assert_eq!(
        segment_visual(Direction::NegX, Direction::PosZ, false),
        (SegmentShape::Corner, 1)
    );
    assert_eq!(
        segment_visual(Direction::NegZ, Direction::PosX, false),
        (SegmentShape::Corner, 1)
    );
    assert_eq!(
        segment_visual(Direction::NegX, Direction::NegZ, false),
        (SegmentShape::Corner, 2)
    );
    assert_eq!(
        segment_visual(Direction::PosZ, Direction::PosX, false),
        (SegmentShape::Corner, 2)
    );
    assert_eq!(
        segment_visual(Direction::NegZ, Direction::NegX, false),
        (SegmentShape::Corner, 0)
    );
    assert_eq!(
        segment_visual(Direction::PosX, Direction::PosZ, false),
        (SegmentShape::Corner, 0)
    );
}

#[test]
fn timer_keeps_remainder_past_interval() {
    let mut t = SnakeMoveTimer { elapsed: 0 };
    assert!(!t.tick(299));
    assert_eq!(t.elapsed, 299);
    assert!(t.tick(1));
    assert_eq!(t.elapsed, 0);
    assert!(t.tick(750));
    assert_eq!(t.elapsed, 150);
}
