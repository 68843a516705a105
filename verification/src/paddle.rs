//! The player's paddle.
//!
//! Steering is decided once per frame: an intent is stored, the next
//! simulation step applies it to the position and forgets it. No velocity is
//! carried from one frame to the next.

use vstd::prelude::*;
use crate::geometry::{Point, Vector};

verus! {

/// How far the paddle reaches to either side of its position when steering
/// is tested against the walls.
pub const PADDLE_REACH: i32 = 3;

/// What a [`PlayerState`] stands for in contracts.
pub struct PaddleModel {
    pub position: Vector,
    pub width: int,
    pub direction: int,
    pub misses: nat,
}

impl PaddleModel {
    /// The intent would push a paddle further out that already reaches over
    /// the wall on that side.
    pub open spec fn blocked(self, intent: int, arena_width: int) -> bool {
        ||| self.position.x - PADDLE_REACH < 0 && intent < 0
        ||| self.position.x + PADDLE_REACH > arena_width && intent > 0
    }

    /// The paddle after an intent was stored: the intent itself, or no
    /// movement where the wall blocks it.
    pub open spec fn steered(self, intent: int, arena_width: int) -> PaddleModel {
        PaddleModel {
            direction: if self.blocked(intent, arena_width) {
                0
            } else {
                intent
            },
            ..self
        }
    }

    /// The paddle shifted by its stored direction.
    pub open spec fn moved(self) -> PaddleModel {
        PaddleModel {
            position: Vector { x: self.position.x + self.direction, y: self.position.y },
            ..self
        }
    }

    /// The paddle after one simulation step: shifted, with the stored
    /// direction used up.
    pub open spec fn advanced(self) -> PaddleModel {
        PaddleModel { direction: 0, ..self.moved() }
    }

    /// The shifted position can be stored in an `i32`.
    pub open spec fn can_move(self) -> bool {
        i32::MIN <= self.position.x + self.direction <= i32::MAX
    }

    /// Both ends of the paddle's reach lie inside an arena of the given width.
    pub open spec fn inside(self, arena_width: int) -> bool {
        0 <= self.position.x - PADDLE_REACH && self.position.x + PADDLE_REACH <= arena_width
    }
}

/// The paddle: where it is, where it is about to move, and how many balls it
/// has missed in this session.
#[derive(Clone, Copy, Debug, PartialEq, Eq, Structural)]
pub struct PlayerState {
    pub position: Point,
    pub width: i32,
    pub direction: i32,
    pub misses: usize,
}

impl View for PlayerState {
    type V = PaddleModel;

    open spec fn view(&self) -> PaddleModel {
        PaddleModel {
            position: self.position@,
            width: self.width as int,
            direction: self.direction as int,
            misses: self.misses as nat,
        }
    }
}

impl PlayerState {
    /// A resting paddle of the given width with no misses.
    pub fn new(position: Point, width: i32) -> (paddle: PlayerState)
        ensures
            paddle@ == (PaddleModel {
                position: position@,
                width: width as int,
                direction: 0,
                misses: 0,
            }),
    {
        PlayerState { position, width, direction: 0, misses: 0 }
    }

    /// Stores the steering intent for the coming step. The intent is dropped
    /// where the paddle already reaches over the wall it would move towards.
    pub fn set_direction(&mut self, intent: i32, arena_width: i32)
        ensures
            final(self)@ == old(self)@.steered(intent as int, arena_width as int),
    {
        let x: i64 = self.position.x as i64;
        let reach: i64 = PADDLE_REACH as i64;
        if (x - reach < 0 && intent < 0) || (x + reach > arena_width as i64 && intent > 0) {
            self.direction = 0;
        } else {
            self.direction = intent;
        }
    }

    /// Shifts the paddle by its stored direction.
    pub fn move_x(&mut self)
        requires
            old(self)@.can_move(),
        ensures
            final(self)@ == old(self)@.moved(),
    {
        self.position.x = self.position.x + self.direction;
    }

    /// One simulation step of the paddle: shifts it by the stored direction
    /// and forgets the direction, whether or not the paddle moved.
    pub fn advance(&mut self)
        requires
            old(self)@.can_move(),
        ensures
            final(self)@ == old(self)@.advanced(),
    {
        self.move_x();
        self.direction = 0;
    }
}

} // verus!
