//! Bricks and the field they are laid out in.
//!
//! A brick has no state of its own beyond being there: a brick that was hit
//! is taken out of the field. The field keeps the remaining bricks in the
//! order in which they were laid out, and that order decides which brick
//! yields when the ball touches two of them at once.

use vstd::prelude::*;
use crate::collision::{check_hit_top_edge, hits_top_edge};
use crate::geometry::{Point, Vector};

verus! {

/// Number of brick rows in a fresh field. Rows are spread along `x`.
pub const BRICK_ROWS: i32 = 8;

/// Number of bricks in each row of a fresh field. The bricks of one row are
/// stacked along `y`.
pub const BRICK_COLUMNS: i32 = 10;

/// Height of a brick in cells.
pub const BRICK_HEIGHT: i32 = 2;

/// Horizontal distance between two neighbouring rows of a fresh field.
pub open spec fn brick_pitch(arena_width: int) -> int {
    2 * (arena_width / 20)
}

/// Top-left corner of the brick in the given row and column of a fresh field.
pub open spec fn brick_corner(arena_width: int, row: int, column: int) -> Vector {
    Vector { x: row * brick_pitch(arena_width), y: column * BRICK_HEIGHT }
}

/// The corners of a fresh field, row by row.
pub open spec fn brick_layout(arena_width: int) -> Seq<Vector> {
    Seq::new(
        (BRICK_ROWS * BRICK_COLUMNS) as nat,
        |i: int| brick_corner(arena_width, i / (BRICK_COLUMNS as int), i % (BRICK_COLUMNS as int)),
    )
}

/// The ball touches the top edge of the brick at index `i`.
pub open spec fn hit_at(bricks: Seq<Vector>, ball: Vector, width: int, i: int) -> bool {
    hits_top_edge(ball, bricks[i], width)
}

/// The brick at index `i` is touched by the ball and no brick before it is.
pub open spec fn is_first_hit(bricks: Seq<Vector>, ball: Vector, width: int, i: int) -> bool {
    &&& 0 <= i < bricks.len()
    &&& hit_at(bricks, ball, width, i)
    &&& forall|j: int| 0 <= j < i ==> !#[trigger] hit_at(bricks, ball, width, j)
}

/// Index of the first brick, in field order, whose top edge the ball
/// touches; `None` where the ball touches no brick.
pub open spec fn first_hit(bricks: Seq<Vector>, ball: Vector, width: int) -> Option<int> {
    if exists|i: int| is_first_hit(bricks, ball, width, i) {
        Some(choose|i: int| is_first_hit(bricks, ball, width, i))
    } else {
        None
    }
}

/// At most one index is the first hit.
pub proof fn lemma_first_hit_unique(bricks: Seq<Vector>, ball: Vector, width: int, i: int)
    requires
        is_first_hit(bricks, ball, width, i),
    ensures
        first_hit(bricks, ball, width) == Some(i),
{
    let k: int = choose|k: int| is_first_hit(bricks, ball, width, k);
    assert(is_first_hit(bricks, ball, width, k));
    if k < i {
        assert(!hit_at(bricks, ball, width, k));
    }
    if i < k {
        assert(!hit_at(bricks, ball, width, i));
    }
}

/// Where no brick is touched, there is no first hit.
pub proof fn lemma_no_hit(bricks: Seq<Vector>, ball: Vector, width: int)
    requires
        forall|j: int| 0 <= j < bricks.len() ==> !#[trigger] hit_at(bricks, ball, width, j),
    ensures
        first_hit(bricks, ball, width) is None,
{
}

/// A brick, known by the top-left corner of its rectangle.
#[derive(Clone, Copy, Debug, PartialEq, Eq, Structural)]
pub struct BrickState {
    pub position: Point,
}

impl View for BrickState {
    type V = Vector;

    open spec fn view(&self) -> Vector {
        self.position@
    }
}

impl BrickState {
    /// A brick whose top-left corner is `position`.
    pub fn new(position: Point) -> (brick: BrickState)
        ensures
            brick.position == position,
    {
        BrickState { position }
    }
}

/// The corners of a sequence of bricks, in the same order.
pub open spec fn corners(bricks: Seq<BrickState>) -> Seq<Vector> {
    bricks.map_values(|b: BrickState| b@)
}

/// Taking a brick out of the field takes its corner out of the corners.
pub proof fn lemma_corners_remove(bricks: Seq<BrickState>, i: int)
    requires
        0 <= i < bricks.len(),
    ensures
        corners(bricks.remove(i)) == corners(bricks).remove(i),
{
    assert(corners(bricks.remove(i)) =~= corners(bricks).remove(i));
}

/// Lays out a fresh field for an arena of the given width: [`BRICK_ROWS`]
/// rows of [`BRICK_COLUMNS`] bricks each, row by row.
pub fn brick_field(arena_width: i32) -> (bricks: Vec<BrickState>)
    requires
        arena_width >= 0,
    ensures
        corners(bricks@) == brick_layout(arena_width as int),
        bricks@.len() == BRICK_ROWS * BRICK_COLUMNS,
{
    let pitch: i32 = 2 * (arena_width / 20);
    let mut bricks: Vec<BrickState> = Vec::new();
    let mut row: i32 = 0;
    while row < BRICK_ROWS
        invariant
            0 <= row <= BRICK_ROWS,
            arena_width >= 0,
            pitch == brick_pitch(arena_width as int),
            bricks@.len() == row * BRICK_COLUMNS,
            forall|i: int|
                0 <= i < bricks@.len() ==> (#[trigger] bricks@[i])@ == brick_corner(
                    arena_width as int,
                    i / (BRICK_COLUMNS as int),
                    i % (BRICK_COLUMNS as int),
                ),
        decreases BRICK_ROWS - row,
    {
        assert(0 <= row * pitch <= 7 * pitch) by (nonlinear_arith)
            requires
                0 <= row <= 7,
                0 <= pitch,
        ;
        let x: i32 = row * pitch;
        let mut column: i32 = 0;
        while column < BRICK_COLUMNS
            invariant
                0 <= row < BRICK_ROWS,
                0 <= column <= BRICK_COLUMNS,
                x == row * brick_pitch(arena_width as int),
                bricks@.len() == row * BRICK_COLUMNS + column,
                forall|i: int|
                    0 <= i < bricks@.len() ==> (#[trigger] bricks@[i])@ == brick_corner(
                        arena_width as int,
                        i / (BRICK_COLUMNS as int),
                        i % (BRICK_COLUMNS as int),
                    ),
            decreases BRICK_COLUMNS - column,
        {
            let ghost n: int = bricks@.len() as int;
            assert(n / 10 == row && n % 10 == column);
            bricks.push(BrickState::new(Point::xy(x, column * BRICK_HEIGHT)));
            column = column + 1;
        }
        row = row + 1;
    }
    assert(corners(bricks@) =~= brick_layout(arena_width as int));
    bricks
}

/// Looks for the first brick, in field order, whose top edge the ball
/// touches. `width` is the width of every brick's top edge.
pub fn find_hit(bricks: &Vec<BrickState>, ball: Point, width: i32) -> (found: Option<usize>)
    ensures
        match found {
            Some(i) => first_hit(corners(bricks@), ball@, width as int) == Some(i as int),
            None => first_hit(corners(bricks@), ball@, width as int) is None,
        },
{
    let mut i: usize = 0;
    while i < bricks.len()
        invariant
            0 <= i <= bricks@.len(),
            forall|j: int|
                0 <= j < i ==> !#[trigger] hit_at(corners(bricks@), ball@, width as int, j),
        decreases bricks@.len() - i,
    {
        if check_hit_top_edge(ball, bricks[i].position, width) {
            proof {
                lemma_first_hit_unique(corners(bricks@), ball@, width as int, i as int);
            }
            return Some(i);
        }
        i = i + 1;
    }
    proof {
        lemma_no_hit(corners(bricks@), ball@, width as int);
    }
    None
}

} // verus!
