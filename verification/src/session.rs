//! The session: one game from the first serve to the last miss.
//!
//! A session is stepped once per frame. The step moves the paddle and the
//! ball and settles what the ball ran into. Whether the ball was lost is
//! judged after the step, and a lost ball either costs a life or ends the
//! game. A session whose game is over no longer changes.

use vstd::prelude::*;
use crate::ball::{random_ball_direction, serve_direction, BallModel, BallState};
use crate::brick::{
    brick_field, brick_layout, corners, find_hit, first_hit, lemma_corners_remove, BrickState,
};
use crate::chance::coin_flip;
use crate::collision::{check_hit_top_edge, hits_top_edge};
use crate::geometry::{Point, Vector};
use crate::paddle::{PaddleModel, PlayerState};

verus! {

/// Number of balls that may be lost in a session unless the caller asks for
/// another number.
pub const MAX_MISSES: usize = 3;

/// Narrowest arena in which the rows of a fresh brick field stand apart.
pub const MIN_ARENA_WIDTH: i32 = 20;

/// Lowest arena that holds a fresh brick field from top to bottom.
pub const MIN_ARENA_HEIGHT: i32 = 20;

/// How far below the arena the ball may fall before it counts as lost.
pub const MISS_MARGIN: i32 = 10;

/// Height of the paddle in cells.
pub const PADDLE_HEIGHT: i32 = 2;

/// Whether the game is still running.
#[derive(Clone, Copy, Debug, PartialEq, Eq, Structural)]
pub enum Phase {
    Playing,
    GameOver,
}

/// Why a session could not be set up.
#[derive(Clone, Copy, Debug, PartialEq, Eq, Structural)]
pub enum ConstructionError {
    /// The arena is narrower than [`MIN_ARENA_WIDTH`]: the rows of the brick
    /// field would fall on top of each other.
    ArenaTooNarrow,
    /// The arena is lower than [`MIN_ARENA_HEIGHT`]: the brick field would
    /// reach below it.
    ArenaTooShort,
    /// No ball may be lost: the game could never end.
    NoMissesAllowed,
}

impl ConstructionError {
    /// The sentence that [`ConstructionError::describe`] returns.
    pub open spec fn message(self) -> Seq<char> {
        match self {
            ConstructionError::ArenaTooNarrow => "the arena is too narrow for the brick field"@,
            ConstructionError::ArenaTooShort => "the arena is too low for the brick field"@,
            ConstructionError::NoMissesAllowed => "a session needs at least one ball to lose"@,
        }
    }

    /// A sentence that says what was wrong with the setup.
    pub fn describe(&self) -> (text: &'static str)
        ensures
            text@ == self.message(),
    {
        match self {
            ConstructionError::ArenaTooNarrow => "the arena is too narrow for the brick field",
            ConstructionError::ArenaTooShort => "the arena is too low for the brick field",
            ConstructionError::NoMissesAllowed => "a session needs at least one ball to lose",
        }
    }
}

/// What is wrong with setting up a session in the given arena with the given
/// number of allowed misses; `None` where the session can be set up. The
/// width is judged first, then the height, then the misses.
pub open spec fn setup_error(arena: Vector, max_misses: nat) -> Option<ConstructionError> {
    if arena.x < MIN_ARENA_WIDTH {
        Some(ConstructionError::ArenaTooNarrow)
    } else if arena.y < MIN_ARENA_HEIGHT {
        Some(ConstructionError::ArenaTooShort)
    } else if max_misses == 0 {
        Some(ConstructionError::NoMissesAllowed)
    } else {
        None
    }
}

/// What a [`GameState`] stands for in contracts.
pub struct Session {
    pub arena: Vector,
    pub paddle: PaddleModel,
    pub ball: BallModel,
    pub bricks: Seq<Vector>,
    pub score: nat,
    pub max_misses: nat,
    pub phase: Phase,
}

impl Session {
    /// The session at its start: the paddle rests in the middle of the row
    /// two cells above the floor, the ball is served from the middle of the
    /// arena, the brick field is complete, and nothing was scored or missed.
    pub open spec fn initial(arena: Vector, max_misses: nat, neg_x: bool) -> Session {
        Session {
            arena,
            paddle: PaddleModel {
                position: Vector { x: arena.x / 2, y: arena.y - PADDLE_HEIGHT },
                width: arena.x / 10,
                direction: 0,
                misses: 0,
            },
            ball: BallModel {
                position: Vector { x: arena.x / 2, y: arena.y / 2 },
                direction: serve_direction(neg_x),
                initial_position: Vector { x: arena.x / 2, y: arena.y / 2 },
            },
            bricks: brick_layout(arena.x),
            score: 0,
            max_misses,
            phase: Phase::Playing,
        }
    }

    /// Width of the paddle and of every brick: a tenth of the arena's width.
    pub open spec fn surface_width(self) -> int {
        self.arena.x / 10
    }

    /// The session is one that the rules can produce: the arena holds a
    /// brick field, the paddle has the width that goes with the arena, the
    /// ball moves diagonally, and the game is over exactly when the last
    /// allowed ball was lost.
    pub open spec fn wf(self) -> bool {
        &&& self.arena.x >= MIN_ARENA_WIDTH
        &&& self.arena.y >= MIN_ARENA_HEIGHT
        &&& self.paddle.width == self.surface_width()
        &&& self.ball.wf()
        &&& self.max_misses >= 1
        &&& self.paddle.misses <= self.max_misses
        &&& (self.phase == Phase::GameOver <==> self.paddle.misses == self.max_misses)
    }

    /// The session after a steering intent was handed in: the paddle stores
    /// it for the coming step, unless the wall blocks it. A session whose
    /// game is over stays as it is.
    pub open spec fn steer(self, direction: int) -> Session {
        if self.phase == Phase::GameOver {
            self
        } else {
            Session { paddle: self.paddle.steered(direction, self.arena.x), ..self }
        }
    }

    /// The ball stands at or beyond the left or the right wall.
    pub open spec fn ball_at_side_wall(self) -> bool {
        self.ball.position.x <= 1 || self.ball.position.x > self.arena.x - 1
    }

    /// The ball stands at or above the ceiling.
    pub open spec fn ball_at_ceiling(self) -> bool {
        self.ball.position.y <= 1
    }

    /// The ball after the walls had their say. Only one wall turns the ball
    /// in a step, and a side wall comes before the ceiling.
    pub open spec fn ball_off_walls(self) -> BallModel {
        if self.ball_at_side_wall() {
            self.ball.bounced_x()
        } else if self.ball_at_ceiling() {
            self.ball.bounced_y()
        } else {
            self.ball
        }
    }

    /// The ball after the walls turned it and it moved one step.
    pub open spec fn ball_in_flight(self) -> BallModel {
        self.ball_off_walls().moved()
    }

    /// The moved ball touches the top edge of the moved paddle.
    pub open spec fn paddle_struck(self) -> bool {
        hits_top_edge(
            self.ball_in_flight().position,
            self.paddle.advanced().position,
            self.paddle.width,
        )
    }

    /// The moved ball after the paddle had its say.
    pub open spec fn ball_off_paddle(self) -> BallModel {
        if self.paddle_struck() {
            self.ball_in_flight().bounced_y()
        } else {
            self.ball_in_flight()
        }
    }

    /// The brick that the moved ball knocks out, if any: the first one in
    /// field order whose top edge it touches.
    pub open spec fn brick_struck(self) -> Option<int> {
        first_hit(self.bricks, self.ball_in_flight().position, self.surface_width())
    }

    /// The session after one simulation step. The paddle uses up its stored
    /// direction; the ball is turned by a wall, moves, and is turned by the
    /// paddle and by at most one brick, which leaves the field and scores a
    /// point. A session whose game is over stays as it is.
    pub open spec fn tick(self) -> Session {
        if self.phase == Phase::GameOver {
            self
        } else {
            match self.brick_struck() {
                Some(i) => Session {
                    paddle: self.paddle.advanced(),
                    ball: self.ball_off_paddle().bounced_y(),
                    bricks: self.bricks.remove(i),
                    score: self.score + 1,
                    ..self
                },
                None => Session {
                    paddle: self.paddle.advanced(),
                    ball: self.ball_off_paddle(),
                    ..self
                },
            }
        }
    }

    /// The positions that the next step moves the paddle and the ball to can
    /// be stored in 32 bits.
    pub open spec fn can_tick(self) -> bool {
        self.phase == Phase::Playing ==> self.paddle.can_move() && self.ball_off_walls().can_move()
    }

    /// The ball is between the side walls, heads for the wall where it
    /// stands at one, and is served from between them.
    pub open spec fn ball_between_walls(self) -> bool {
        &&& 1 <= self.ball.position.x <= self.arena.x
        &&& self.ball.position.x == 1 ==> self.ball.direction.x == -1
        &&& self.ball.position.x == self.arena.x ==> self.ball.direction.x == 1
        &&& 1 < self.ball.initial_position.x < self.arena.x
    }

    /// The ball fell further below the arena than the margin allows.
    pub open spec fn ball_lost(self) -> bool {
        self.ball.position.y > self.arena.y + MISS_MARGIN
    }

    /// The session after a ball was lost: the miss is counted, and either it
    /// was the last allowed one and the game is over, or the ball is served
    /// again. A session whose game is over stays as it is.
    pub open spec fn miss(self, neg_x: bool) -> Session {
        if self.phase == Phase::GameOver {
            self
        } else if self.paddle.misses + 1 == self.max_misses {
            Session {
                paddle: PaddleModel { misses: self.paddle.misses + 1, ..self.paddle },
                phase: Phase::GameOver,
                ..self
            }
        } else {
            Session {
                paddle: PaddleModel { misses: self.paddle.misses + 1, ..self.paddle },
                ball: self.ball.served(neg_x),
                ..self
            }
        }
    }

    /// The session after one whole frame: a simulation step, followed by the
    /// handling of the miss where the step lost the ball.
    pub open spec fn frame(self, neg_x: bool) -> Session {
        if self.tick().ball_lost() {
            self.tick().miss(neg_x)
        } else {
            self.tick()
        }
    }
}

/// The session: arena, paddle, brick field, ball, score and lives.
#[derive(Clone, Debug, PartialEq, Eq)]
pub struct GameState {
    pub dimension: Point,
    pub bouncer: PlayerState,
    pub bricks: Vec<BrickState>,
    pub ball: BallState,
    pub score: usize,
    pub max_misses: usize,
    pub phase: Phase,
}

impl View for GameState {
    type V = Session;

    open spec fn view(&self) -> Session {
        Session {
            arena: self.dimension@,
            paddle: self.bouncer@,
            ball: self.ball@,
            bricks: corners(self.bricks@),
            score: self.score as nat,
            max_misses: self.max_misses as nat,
            phase: self.phase,
        }
    }
}

impl GameState {
    /// The session is well formed, and the score has room for every brick
    /// that is still in the field.
    pub open spec fn wf(&self) -> bool {
        &&& self@.wf()
        &&& self.score + self.bricks@.len() <= usize::MAX
    }

    /// Sets up a session in an arena of the given size, with the ball served
    /// in the direction that the coin `neg_x` selects. The setup is refused
    /// where the arena cannot hold the brick field or no miss is allowed.
    pub fn with_serve(dimension: Point, max_misses: usize, neg_x: bool) -> (made: Result<
        GameState,
        ConstructionError,
    >)
        ensures
            match made {
                Ok(game) => {
                    &&& setup_error(dimension@, max_misses as nat) is None
                    &&& game@ == Session::initial(dimension@, max_misses as nat, neg_x)
                    &&& game.wf()
                },
                Err(error) => setup_error(dimension@, max_misses as nat) == Some(error),
            },
    {
        if dimension.x < MIN_ARENA_WIDTH {
            return Err(ConstructionError::ArenaTooNarrow);
        }
        if dimension.y < MIN_ARENA_HEIGHT {
            return Err(ConstructionError::ArenaTooShort);
        }
        if max_misses == 0 {
            return Err(ConstructionError::NoMissesAllowed);
        }
        let middle: i32 = dimension.x / 2;
        Ok(
            GameState {
                dimension,
                bouncer: PlayerState::new(
                    Point::xy(middle, dimension.y - PADDLE_HEIGHT),
                    dimension.x / 10,
                ),
                bricks: brick_field(dimension.x),
                ball: BallState::with_serve(Point::xy(middle, dimension.y / 2), neg_x),
                score: 0,
                max_misses,
                phase: Phase::Playing,
            },
        )
    }

    /// Sets up a session in an arena of the given size, with the ball served
    /// to the left or to the right as a fair coin decides. The setup is
    /// refused where the arena cannot hold the brick field or no miss is
    /// allowed.
    pub fn with_max_misses(dimension: Point, max_misses: usize) -> (made: Result<
        GameState,
        ConstructionError,
    >)
        ensures
            match made {
                Ok(game) => {
                    &&& setup_error(dimension@, max_misses as nat) is None
                    &&& {
                        ||| game@ == Session::initial(dimension@, max_misses as nat, true)
                        ||| game@ == Session::initial(dimension@, max_misses as nat, false)
                    }
                    &&& game.wf()
                },
                Err(error) => setup_error(dimension@, max_misses as nat) == Some(error),
            },
    {
        GameState::with_serve(dimension, max_misses, coin_flip())
    }

    /// Sets up a session in an arena of the given size in which
    /// [`MAX_MISSES`] balls may be lost, with the ball served to the left or
    /// to the right as a fair coin decides. The setup is refused where the
    /// arena cannot hold the brick field.
    pub fn new(dimension: Point) -> (made: Result<GameState, ConstructionError>)
        ensures
            match made {
                Ok(game) => {
                    &&& setup_error(dimension@, MAX_MISSES as nat) is None
                    &&& {
                        ||| game@ == Session::initial(dimension@, MAX_MISSES as nat, true)
                        ||| game@ == Session::initial(dimension@, MAX_MISSES as nat, false)
                    }
                    &&& game.wf()
                },
                Err(error) => setup_error(dimension@, MAX_MISSES as nat) == Some(error),
            },
    {
        GameState::with_max_misses(dimension, MAX_MISSES)
    }

    /// The direction in which a session serves its next ball: upwards, to
    /// the left or to the right as a fair coin decides.
    pub fn random_ball_direction() -> (direction: Point)
        ensures
            direction@ == serve_direction(true) || direction@ == serve_direction(false),
    {
        random_ball_direction()
    }

    /// One simulation step: the paddle uses up its stored direction; the
    /// ball is turned by a wall, moves, and is turned by the paddle and by
    /// the first brick it touches, which leaves the field and scores a
    /// point. Nothing happens once the game is over.
    pub fn update(&mut self)
        requires
            old(self).wf(),
            old(self)@.can_tick(),
        ensures
            final(self)@ == old(self)@.tick(),
            final(self).wf(),
    {
        if self.phase == Phase::GameOver {
            return ;
        }
        self.bouncer.advance();
        if self.ball.position.x <= 1 || self.ball.position.x > self.dimension.x - 1 {
            self.ball.bounce_x();
        } else if self.ball.position.y <= 1 {
            self.ball.bounce_y();
        }
        self.ball.move_ball();
        if check_hit_top_edge(self.ball.position, self.bouncer.position, self.bouncer.width) {
            self.ball.bounce_y();
        }
        match find_hit(&self.bricks, self.ball.position, self.dimension.x / 10) {
            Some(i) => {
                proof {
                    lemma_corners_remove(self.bricks@, i as int);
                }
                self.bricks.remove(i);
                self.ball.bounce_y();
                self.score = self.score + 1;
            },
            None => {},
        }
    }

    /// Hands in a steering intent for the coming step: a number of cells,
    /// negative to the left. The paddle drops the intent where it already
    /// reaches over the wall on that side. Nothing happens once the game is
    /// over.
    pub fn bouncer_move_x(&mut self, direction: i32)
        ensures
            final(self)@ == old(self)@.steer(direction as int),
            final(self).bricks == old(self).bricks,
            old(self).wf() ==> final(self).wf(),
    {
        if self.phase == Phase::GameOver {
            return ;
        }
        self.bouncer.set_direction(direction, self.dimension.x);
    }

    /// Tells whether the ball fell further below the arena than
    /// [`MISS_MARGIN`] allows.
    pub fn ball_lost(&self) -> (lost: bool)
        ensures
            lost == self@.ball_lost(),
    {
        self.ball.position.y as i64 > self.dimension.y as i64 + MISS_MARGIN as i64
    }

    /// Counts a lost ball. Where it was the last allowed one the game is
    /// over; otherwise the ball is put back where it started and served in
    /// the direction that the coin `neg_x` selects. Nothing happens once the
    /// game is over.
    pub fn handle_miss_with_serve(&mut self, neg_x: bool)
        requires
            old(self).wf(),
        ensures
            final(self)@ == old(self)@.miss(neg_x),
            final(self).bricks == old(self).bricks,
            final(self).wf(),
    {
        if self.phase == Phase::GameOver {
            return ;
        }
        self.bouncer.misses = self.bouncer.misses + 1;
        if self.bouncer.misses == self.max_misses {
            self.phase = Phase::GameOver;
        } else {
            self.ball.reset_with_serve(neg_x);
        }
    }

    /// Counts a lost ball. Where it was the last allowed one the game is
    /// over; otherwise the ball is put back where it started and served to
    /// the left or to the right as a fair coin decides. Nothing happens once
    /// the game is over.
    pub fn handle_miss(&mut self)
        requires
            old(self).wf(),
        ensures
            final(self)@ == old(self)@.miss(true) || final(self)@ == old(self)@.miss(false),
            final(self).bricks == old(self).bricks,
            final(self).wf(),
    {
        let neg_x: bool = coin_flip();
        self.handle_miss_with_serve(neg_x);
    }

    /// One whole frame: a simulation step, and the handling of the miss
    /// where the step lost the ball. A ball that has to be served again goes
    /// in the direction that the coin `neg_x` selects.
    pub fn play_frame_with_serve(&mut self, neg_x: bool)
        requires
            old(self).wf(),
            old(self)@.can_tick(),
        ensures
            final(self)@ == old(self)@.frame(neg_x),
            final(self).wf(),
    {
        self.update();
        if self.ball_lost() {
            self.handle_miss_with_serve(neg_x);
        }
    }

    /// One whole frame: a simulation step, and the handling of the miss
    /// where the step lost the ball. A ball that has to be served again goes
    /// to the left or to the right as a fair coin decides.
    pub fn play_frame(&mut self)
        requires
            old(self).wf(),
            old(self)@.can_tick(),
        ensures
            final(self)@ == old(self)@.frame(true) || final(self)@ == old(self)@.frame(false),
            final(self).wf(),
    {
        let neg_x: bool = coin_flip();
        self.play_frame_with_serve(neg_x);
    }

    /// Tells whether the session is well formed. A session that a
    /// constructor of this type returned, and that only the methods of this
    /// type have changed since, always is.
    pub fn is_valid(&self) -> (valid: bool)
        ensures
            valid == self.wf(),
    {
        let unit_x: bool = self.ball.direction.x == 1 || self.ball.direction.x == -1;
        let unit_y: bool = self.ball.direction.y == 1 || self.ball.direction.y == -1;
        let over: bool = self.phase == Phase::GameOver;
        let spent: bool = self.bouncer.misses == self.max_misses;
        self.dimension.x >= MIN_ARENA_WIDTH && self.dimension.y >= MIN_ARENA_HEIGHT
            && self.bouncer.width == self.dimension.x / 10 && unit_x && unit_y
            && self.max_misses >= 1 && self.bouncer.misses <= self.max_misses && over == spent
            && self.bricks.len() <= usize::MAX - self.score
    }

    /// Tells whether the next simulation step stays within the range of the
    /// coordinates: the paddle and the ball can be moved without leaving the
    /// 32 bits that hold a coordinate.
    pub fn can_update(&self) -> (able: bool)
        ensures
            able == self@.can_tick(),
    {
        if self.phase == Phase::GameOver {
            return true;
        }
        let paddle_x: i64 = self.bouncer.position.x as i64 + self.bouncer.direction as i64;
        let at_side: bool = self.ball.position.x <= 1 || self.ball.position.x as i64
            > self.dimension.x as i64 - 1;
        let at_ceiling: bool = self.ball.position.y <= 1;
        let step_x: i64 = if at_side {
            -(self.ball.direction.x as i64)
        } else {
            self.ball.direction.x as i64
        };
        let step_y: i64 = if !at_side && at_ceiling {
            -(self.ball.direction.y as i64)
        } else {
            self.ball.direction.y as i64
        };
        let ball_x: i64 = self.ball.position.x as i64 + step_x;
        let ball_y: i64 = self.ball.position.y as i64 + step_y;
        fits(paddle_x) && fits(ball_x) && fits(ball_y)
    }
}

/// Tells whether a 64-bit number can be stored in 32 bits.
fn fits(value: i64) -> (inside: bool)
    ensures
        inside == (i32::MIN <= value <= i32::MAX),
{
    -2147483648 <= value && value <= 2147483647
}

} // verus!
