//! The ball.
//!
//! The ball moves one cell diagonally per step. Walls, the paddle and bricks
//! only ever turn one component of its direction around, so both components
//! stay at plus or minus one for the whole session.

use vstd::prelude::*;
use crate::chance::coin_flip;
use crate::geometry::{Point, Vector};

verus! {

/// A direction component of a moving ball: one cell forwards or backwards.
pub open spec fn is_unit(c: int) -> bool {
    c == 1 || c == -1
}

/// The direction of a served ball: always upwards, to the left when `neg_x`
/// is set and to the right otherwise.
pub open spec fn serve_direction(neg_x: bool) -> Vector {
    Vector { x: if neg_x { -1 } else { 1 }, y: -1 }
}

/// What a [`BallState`] stands for in contracts.
pub struct BallModel {
    pub position: Vector,
    pub direction: Vector,
    pub initial_position: Vector,
}

impl BallModel {
    /// The ball moves diagonally, one cell per step on each axis.
    pub open spec fn wf(self) -> bool {
        is_unit(self.direction.x) && is_unit(self.direction.y)
    }

    /// The ball one step further along its direction.
    pub open spec fn moved(self) -> BallModel {
        BallModel { position: self.position.plus(self.direction), ..self }
    }

    /// The ball turned around horizontally.
    pub open spec fn bounced_x(self) -> BallModel {
        BallModel { direction: self.direction.flipped_x(), ..self }
    }

    /// The ball turned around vertically.
    pub open spec fn bounced_y(self) -> BallModel {
        BallModel { direction: self.direction.flipped_y(), ..self }
    }

    /// The ball put back where it started and served upwards.
    pub open spec fn served(self, neg_x: bool) -> BallModel {
        BallModel {
            position: self.initial_position,
            direction: serve_direction(neg_x),
            initial_position: self.initial_position,
        }
    }

    /// The position after one step can be stored in a [`Point`].
    pub open spec fn can_move(self) -> bool {
        self.position.plus(self.direction).fits()
    }
}

/// The ball: where it is, where it is heading, and where it is served from.
#[derive(Clone, Copy, Debug, PartialEq, Eq, Structural)]
pub struct BallState {
    pub position: Point,
    pub direction: Point,
    pub initial_position: Point,
}

impl View for BallState {
    type V = BallModel;

    open spec fn view(&self) -> BallModel {
        BallModel {
            position: self.position@,
            direction: self.direction@,
            initial_position: self.initial_position@,
        }
    }
}

/// The direction of a served ball for a given outcome of the coin.
pub fn ball_direction(neg_x: bool) -> (direction: Point)
    ensures
        direction@ == serve_direction(neg_x),
{
    Point::xy(if neg_x { -1 } else { 1 }, -1)
}

/// A serve direction chosen by a fair coin: up and to the left, or up and to
/// the right.
pub fn random_ball_direction() -> (direction: Point)
    ensures
        direction@ == serve_direction(true) || direction@ == serve_direction(false),
{
    ball_direction(coin_flip())
}

impl BallState {
    /// A ball at `position`, served from there in the direction that the
    /// coin `neg_x` selects.
    pub fn with_serve(position: Point, neg_x: bool) -> (ball: BallState)
        ensures
            ball@ == (BallModel {
                position: position@,
                direction: serve_direction(neg_x),
                initial_position: position@,
            }),
            ball@.wf(),
    {
        BallState { position, direction: ball_direction(neg_x), initial_position: position }
    }

    /// A ball at `position`, served from there to the left or to the right
    /// as a fair coin decides.
    pub fn new(position: Point) -> (ball: BallState)
        ensures
            ball.position == position,
            ball.initial_position == position,
            ball.direction@ == serve_direction(true) || ball.direction@ == serve_direction(false),
            ball@.wf(),
    {
        BallState::with_serve(position, coin_flip())
    }

    /// Moves the ball one step along its direction.
    pub fn move_ball(&mut self)
        requires
            old(self)@.can_move(),
        ensures
            final(self)@ == old(self)@.moved(),
    {
        self.position.x = self.position.x + self.direction.x;
        self.position.y = self.position.y + self.direction.y;
    }

    /// Turns the ball around horizontally.
    pub fn bounce_x(&mut self)
        requires
            old(self)@.wf(),
        ensures
            final(self)@ == old(self)@.bounced_x(),
            final(self)@.wf(),
    {
        self.direction = self.direction.flipped_x();
    }

    /// Turns the ball around vertically.
    pub fn bounce_y(&mut self)
        requires
            old(self)@.wf(),
        ensures
            final(self)@ == old(self)@.bounced_y(),
            final(self)@.wf(),
    {
        self.direction = self.direction.flipped_y();
    }

    /// Puts the ball back where it started and serves it upwards in the
    /// direction that the coin `neg_x` selects.
    pub fn reset_with_serve(&mut self, neg_x: bool)
        ensures
            final(self)@ == old(self)@.served(neg_x),
            final(self)@.wf(),
    {
        self.position = self.initial_position;
        self.direction = ball_direction(neg_x);
    }

    /// Puts the ball back where it started and serves it upwards, to the
    /// left or to the right as a fair coin decides.
    pub fn reset(&mut self)
        ensures
            final(self)@ == old(self)@.served(true) || final(self)@ == old(self)@.served(false),
            final(self).position == old(self).initial_position,
            final(self).direction.y == -1,
            final(self)@.wf(),
    {
        let neg_x: bool = coin_flip();
        self.reset_with_serve(neg_x);
    }
}

} // verus!
