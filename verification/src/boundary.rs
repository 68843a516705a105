//! What passes between the session and the program around it: steering
//! intents on the way in, a picture of the session on the way out.

use vstd::prelude::*;
use crate::brick::BrickState;
use crate::geometry::{Point, Vector};
use crate::session::{GameState, Phase, Session, PADDLE_HEIGHT};

verus! {

/// A direction that the player currently holds, as a logical command rather
/// than a key.
#[derive(Clone, Copy, Debug, PartialEq, Eq, Structural)]
pub enum Intent {
    MoveLeft,
    MoveRight,
    /// Leaving the game is the driver's business; the session ignores it.
    Quit,
}

impl Session {
    /// Number of cells by which one steering command moves the paddle: a
    /// fiftieth of the arena's width.
    pub open spec fn paddle_speed(self) -> int {
        self.arena.x / 50
    }

    /// The session after a command was handed in.
    pub open spec fn command(self, intent: Intent) -> Session {
        match intent {
            Intent::MoveLeft => self.steer(-self.paddle_speed()),
            Intent::MoveRight => self.steer(self.paddle_speed()),
            Intent::Quit => self,
        }
    }
}

/// A picture of the session for drawing and for the head-up display.
#[derive(Clone, Debug, PartialEq, Eq)]
pub struct Snapshot {
    /// Top-left corner of the paddle's rectangle.
    pub paddle_position: Point,
    /// Width and height of the paddle's rectangle.
    pub paddle_size: Point,
    /// Where the ball is; `None` once the game is over.
    pub ball: Option<Point>,
    /// Top-left corners of the bricks that are still there, in field order.
    pub bricks: Vec<Point>,
    pub score: usize,
    pub misses: usize,
    pub phase: Phase,
}

/// The positions of a sequence of bricks, in the same order.
pub open spec fn positions(bricks: Seq<BrickState>) -> Seq<Point> {
    bricks.map_values(|b: BrickState| b.position)
}

impl GameState {
    /// Hands in a command for the coming step. Moving left or right steers
    /// the paddle by a fiftieth of the arena's width; quitting changes
    /// nothing.
    pub fn apply_intent(&mut self, intent: Intent)
        requires
            old(self).wf(),
        ensures
            final(self)@ == old(self)@.command(intent),
            final(self).bricks == old(self).bricks,
            final(self).wf(),
    {
        let speed: i32 = self.dimension.x / 50;
        match intent {
            Intent::MoveLeft => self.bouncer_move_x(-speed),
            Intent::MoveRight => self.bouncer_move_x(speed),
            Intent::Quit => {},
        }
    }

    /// Takes a picture of the session. The session is left as it is.
    pub fn snapshot(&self) -> (picture: Snapshot)
        ensures
            picture.paddle_position == self.bouncer.position,
            picture.paddle_size@ == (Vector { x: self.bouncer.width as int, y: PADDLE_HEIGHT as int }),
            picture.ball == (if self.phase == Phase::GameOver {
                None
            } else {
                Some(self.ball.position)
            }),
            picture.bricks@ == positions(self.bricks@),
            picture.score == self.score,
            picture.misses == self.bouncer.misses,
            picture.phase == self.phase,
    {
        let mut bricks: Vec<Point> = Vec::new();
        let mut i: usize = 0;
        while i < self.bricks.len()
            invariant
                0 <= i <= self.bricks@.len(),
                bricks@ == positions(self.bricks@.take(i as int)),
            decreases self.bricks@.len() - i,
        {
            bricks.push(self.bricks[i].position);
            i = i + 1;
            assert(bricks@ =~= positions(self.bricks@.take(i as int)));
        }
        assert(self.bricks@.take(i as int) =~= self.bricks@);
        let ball: Option<Point> = match self.phase {
            Phase::GameOver => None,
            Phase::Playing => Some(self.ball.position),
        };
        Snapshot {
            paddle_position: self.bouncer.position,
            paddle_size: Point::xy(self.bouncer.width, PADDLE_HEIGHT),
            ball,
            bricks,
            score: self.score,
            misses: self.bouncer.misses,
            phase: self.phase,
        }
    }
}

} // verus!
