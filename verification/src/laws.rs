//! What holds of every session, however it is played.
//!
//! The laws are stated over the models that the contracts of the executable
//! functions speak of, so each of them holds of the running code as well.

use vstd::prelude::*;
use crate::ball::BallModel;
use crate::paddle::{PaddleModel, PADDLE_REACH};
use crate::geometry::Vector;
use crate::session::{setup_error, Phase, Session};

verus! {

/// Something that happens to a session.
pub enum Event {
    /// A steering intent of so many cells is handed in.
    Steer(int),
    /// One simulation step.
    Tick,
    /// A ball is counted as lost; the flag is the coin for the next serve.
    Miss(bool),
}

/// The session after one event.
pub open spec fn apply(session: Session, event: Event) -> Session {
    match event {
        Event::Steer(direction) => session.steer(direction),
        Event::Tick => session.tick(),
        Event::Miss(neg_x) => session.miss(neg_x),
    }
}

/// The session after a sequence of events, first to last.
pub open spec fn run(session: Session, events: Seq<Event>) -> Session
    decreases events.len(),
{
    if events.len() == 0 {
        session
    } else {
        apply(run(session, events.drop_last()), events.last())
    }
}

/// Number of lost balls among the events.
pub open spec fn count_misses(events: Seq<Event>) -> nat
    decreases events.len(),
{
    if events.len() == 0 {
        0
    } else if events.last() is Miss {
        count_misses(events.drop_last()) + 1
    } else {
        count_misses(events.drop_last())
    }
}

/// The smaller of two numbers.
pub open spec fn least(a: nat, b: nat) -> nat {
    if a <= b {
        a
    } else {
        b
    }
}

/// A paddle whose move keeps both ends of its reach between the walls is
/// not held back: after the intent was stored and the step was taken, both
/// ends lie inside the arena.
pub proof fn lemma_paddle_stays_inside(paddle: PaddleModel, intent: int, arena_width: int)
    requires
        PADDLE_REACH <= paddle.position.x + intent <= arena_width - PADDLE_REACH,
    ensures
        paddle.steered(intent, arena_width).advanced().inside(arena_width),
{
}

/// The paddle ends a step inside the arena exactly when the move it was
/// asked for keeps both ends of its reach between the walls. A paddle that
/// the wall holds back already reaches over that wall.
pub proof fn lemma_paddle_inside_exactly(paddle: PaddleModel, intent: int, arena_width: int)
    ensures
        paddle.steered(intent, arena_width).advanced().inside(arena_width) <==> PADDLE_REACH
            <= paddle.position.x + intent <= arena_width - PADDLE_REACH,
{
}

/// A paddle that is steered by at most `speed` cells per step never reaches
/// over a wall by more than `speed` cells: once within that bound, it stays
/// within it.
pub proof fn lemma_paddle_overshoot_bounded(
    paddle: PaddleModel,
    intent: int,
    arena_width: int,
    speed: int,
)
    requires
        -speed <= intent <= speed,
        -speed <= paddle.position.x - PADDLE_REACH,
        paddle.position.x + PADDLE_REACH <= arena_width + speed,
    ensures
        -speed <= paddle.steered(intent, arena_width).advanced().position.x - PADDLE_REACH,
        paddle.steered(intent, arena_width).advanced().position.x + PADDLE_REACH <= arena_width
            + speed,
        paddle.steered(intent, arena_width).advanced().direction == 0,
{
}

/// Two bounces on the same axis cancel: the ball is as it was.
pub proof fn lemma_bounce_parity(ball: BallModel)
    ensures
        ball.bounced_x().bounced_x() == ball,
        ball.bounced_y().bounced_y() == ball,
        ball.bounced_x().bounced_x().direction.x == ball.direction.x,
        ball.bounced_y().bounced_y().direction.y == ball.direction.y,
{
}

/// A served ball stands where it started and heads upwards.
pub proof fn lemma_serve_restores_geometry(ball: BallModel, neg_x: bool)
    ensures
        ball.served(neg_x).position == ball.initial_position,
        ball.served(neg_x).initial_position == ball.initial_position,
        ball.served(neg_x).direction.y == -1,
        ball.served(neg_x).wf(),
{
}

/// No event breaks a well-formed session.
pub proof fn lemma_apply_keeps_wf(session: Session, event: Event)
    requires
        session.wf(),
    ensures
        apply(session, event).wf(),
{
}

/// A single event never lowers the score nor adds a brick, and it moves the
/// score and the size of the field by the same amount.
pub proof fn lemma_apply_score(session: Session, event: Event)
    ensures
        apply(session, event).score >= session.score,
        apply(session, event).score + apply(session, event).bricks.len() == session.score
            + session.bricks.len(),
{
}

/// The score never decreases, whatever happens to the session.
pub proof fn lemma_score_never_decreases(session: Session, events: Seq<Event>)
    ensures
        run(session, events).score >= session.score,
    decreases events.len(),
{
    if events.len() > 0 {
        lemma_score_never_decreases(session, events.drop_last());
    }
}

/// Once the game is over, nothing changes the session any more.
pub proof fn lemma_game_over_is_final(session: Session, events: Seq<Event>)
    requires
        session.phase == Phase::GameOver,
    ensures
        run(session, events) == session,
    decreases events.len(),
{
    if events.len() > 0 {
        lemma_game_over_is_final(session, events.drop_last());
    }
}

/// Every lost ball is counted once, until the last allowed one is lost; the
/// game is over exactly from then on.
pub proof fn lemma_misses_counted(session: Session, events: Seq<Event>)
    requires
        session.wf(),
    ensures
        run(session, events).wf(),
        run(session, events).max_misses == session.max_misses,
        run(session, events).paddle.misses == least(
            session.paddle.misses + count_misses(events),
            session.max_misses,
        ),
        run(session, events).phase == Phase::GameOver <==> session.paddle.misses + count_misses(
            events,
        ) >= session.max_misses,
    decreases events.len(),
{
    if events.len() > 0 {
        lemma_misses_counted(session, events.drop_last());
    }
}

/// A fresh session in which exactly as many balls were lost as it allows is
/// over, and stays over whatever follows.
pub proof fn lemma_game_over_after_last_miss(
    session: Session,
    events: Seq<Event>,
    further: Seq<Event>,
)
    requires
        session.wf(),
        session.paddle.misses == 0,
        count_misses(events) == session.max_misses,
    ensures
        run(session, events).phase == Phase::GameOver,
        run(session, events).paddle.misses == session.max_misses,
        run(run(session, events), further) == run(session, events),
{
    lemma_misses_counted(session, events);
    lemma_game_over_is_final(run(session, events), further);
}

/// A session that can be set up starts well formed, with its ball between
/// the side walls.
pub proof fn lemma_fresh_session_is_sound(arena: Vector, max_misses: nat, neg_x: bool)
    requires
        setup_error(arena, max_misses) is None,
    ensures
        Session::initial(arena, max_misses, neg_x).wf(),
        Session::initial(arena, max_misses, neg_x).ball_between_walls(),
{
}

/// The side walls hold the ball: once between them, it stays between them,
/// whatever happens to the session.
pub proof fn lemma_ball_stays_between_walls(session: Session, events: Seq<Event>)
    requires
        session.wf(),
        session.ball_between_walls(),
    ensures
        run(session, events).ball_between_walls(),
    decreases events.len(),
{
    if events.len() > 0 {
        lemma_ball_stays_between_walls(session, events.drop_last());
        lemma_misses_counted(session, events.drop_last());
    }
}

/// A whole frame is a simulation step, followed by a counted miss where the
/// step lost the ball.
pub proof fn lemma_frame_is_run(session: Session, neg_x: bool)
    ensures
        session.frame(neg_x) == run(
            session,
            if session.tick().ball_lost() {
                seq![Event::Tick, Event::Miss(neg_x)]
            } else {
                seq![Event::Tick]
            },
        ),
{
    let one: Seq<Event> = seq![Event::Tick];
    let two: Seq<Event> = seq![Event::Tick, Event::Miss(neg_x)];
    assert(one.drop_last() =~= Seq::<Event>::empty());
    assert(two.drop_last() =~= one);
    assert(run(session, Seq::<Event>::empty()) == session);
    assert(run(session, one) == session.tick());
    assert(run(session, two) == session.tick().miss(neg_x));
}

} // verus!
