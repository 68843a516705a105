use breakout::ball::BallState;
use breakout::boundary::{Intent, Snapshot};
use breakout::brick::BrickState;
use breakout::geometry::Point;
use breakout::paddle::PlayerState;
use breakout::session::{
    ConstructionError, GameState, Phase, MAX_MISSES, MIN_ARENA_HEIGHT, MIN_ARENA_WIDTH,
    MISS_MARGIN, PADDLE_HEIGHT,
};

fn session(neg_x: bool) -> GameState {
    GameState::with_serve(Point::xy(40, 20), 3, neg_x).unwrap()
}

fn bare(ball: BallState, bricks: Vec<BrickState>) -> GameState {
    GameState {
        dimension: Point::xy(40, 20),
        bouncer: PlayerState::new(Point::xy(20, 18), 4),
        bricks,
        ball,
        score: 0,
        max_misses: 3,
        phase: Phase::Playing,
    }
}

fn flying(position: Point, direction: Point) -> BallState {
    BallState { position, direction, initial_position: Point::xy(20, 10) }
}

#[test]
fn constants_have_their_values() {
    assert_eq!(MAX_MISSES, 3);
    assert_eq!(MIN_ARENA_WIDTH, 20);
    assert_eq!(MIN_ARENA_HEIGHT, 20);
    assert_eq!(MISS_MARGIN, 10);
    assert_eq!(PADDLE_HEIGHT, 2);
}

#[test]
fn fresh_session_is_laid_out_from_the_arena() {
    let game = session(false);
    assert_eq!(game.dimension, Point::xy(40, 20));
    assert_eq!(game.bouncer.position, Point::xy(20, 18));
    assert_eq!(game.bouncer.width, 4);
    assert_eq!(game.bouncer.direction, 0);
    assert_eq!(game.bouncer.misses, 0);
    assert_eq!(game.ball.position, Point::xy(20, 10));
    assert_eq!(game.ball.initial_position, Point::xy(20, 10));
    assert_eq!(game.ball.direction, Point::xy(1, -1));
    assert_eq!(game.bricks.len(), 80);
    assert_eq!(game.bricks[54].position, Point::xy(20, 8));
    assert_eq!(game.score, 0);
    assert_eq!(game.max_misses, 3);
    assert_eq!(game.phase, Phase::Playing);
    assert!(game.is_valid());
    assert!(game.can_update());
}

#[test]
fn fresh_session_in_a_large_arena() {
    let game = GameState::with_serve(Point::xy(101, 61), 5, true).unwrap();
    assert_eq!(game.bouncer.position, Point::xy(50, 59));
    assert_eq!(game.bouncer.width, 10);
    assert_eq!(game.ball.position, Point::xy(50, 30));
    assert_eq!(game.ball.direction, Point::xy(-1, -1));
    assert_eq!(game.bricks[79].position, Point::xy(70, 18));
    assert_eq!(game.max_misses, 5);
    assert!(game.is_valid());
}

#[test]
fn setup_is_refused_in_a_narrow_arena() {
    assert_eq!(
        GameState::with_serve(Point::xy(19, 20), 3, false),
        Err(ConstructionError::ArenaTooNarrow)
    );
    assert_eq!(GameState::new(Point::xy(0, 100)), Err(ConstructionError::ArenaTooNarrow));
    assert_eq!(
        GameState::with_max_misses(Point::xy(-40, 20), 3),
        Err(ConstructionError::ArenaTooNarrow)
    );
}

#[test]
fn setup_is_refused_in_a_low_arena() {
    assert_eq!(
        GameState::with_serve(Point::xy(20, 19), 3, false),
        Err(ConstructionError::ArenaTooShort)
    );
    assert_eq!(GameState::new(Point::xy(40, 0)), Err(ConstructionError::ArenaTooShort));
    assert_eq!(
        GameState::with_max_misses(Point::xy(40, -1), 3),
        Err(ConstructionError::ArenaTooShort)
    );
}

#[test]
fn setup_is_refused_without_a_ball_to_lose() {
    assert_eq!(
        GameState::with_serve(Point::xy(40, 20), 0, false),
        Err(ConstructionError::NoMissesAllowed)
    );
    assert_eq!(
        GameState::with_max_misses(Point::xy(40, 20), 0),
        Err(ConstructionError::NoMissesAllowed)
    );
}

#[test]
fn setup_judges_width_before_height_before_misses() {
    assert_eq!(
        GameState::with_serve(Point::xy(10, 10), 0, false),
        Err(ConstructionError::ArenaTooNarrow)
    );
    assert_eq!(
        GameState::with_serve(Point::xy(40, 10), 0, false),
        Err(ConstructionError::ArenaTooShort)
    );
}

#[test]
fn smallest_arena_is_accepted() {
    let game = GameState::with_serve(Point::xy(20, 20), 1, false).unwrap();
    assert_eq!(game.bouncer.position, Point::xy(10, 18));
    assert_eq!(game.bouncer.width, 2);
    assert_eq!(game.bricks[79].position, Point::xy(14, 18));
    assert!(game.is_valid());
}

#[test]
fn largest_arena_is_accepted() {
    let game = GameState::with_serve(Point::xy(i32::MAX, i32::MAX), usize::MAX, false).unwrap();
    assert_eq!(game.bouncer.position, Point::xy(i32::MAX / 2, i32::MAX - 2));
    assert_eq!(game.ball.position, Point::xy(i32::MAX / 2, i32::MAX / 2));
    assert_eq!(game.bricks[79].position, Point::xy(7 * 2 * (i32::MAX / 20), 18));
    assert!(game.is_valid());
    assert!(game.can_update());
    assert!(!game.ball_lost());
}

#[test]
fn errors_describe_themselves() {
    assert_eq!(
        ConstructionError::ArenaTooNarrow.describe(),
        "the arena is too narrow for the brick field"
    );
    assert_eq!(
        ConstructionError::ArenaTooShort.describe(),
        "the arena is too low for the brick field"
    );
    assert_eq!(
        ConstructionError::NoMissesAllowed.describe(),
        "a session needs at least one ball to lose"
    );
}

#[test]
fn new_session_allows_three_misses_and_serves_upwards() {
    let mut left = 0;
    let mut right = 0;
    for _ in 0..400 {
        let game = GameState::new(Point::xy(40, 20)).unwrap();
        assert_eq!(game.max_misses, 3);
        assert_eq!(game.ball.position, Point::xy(20, 10));
        assert_eq!(game.ball.direction.y, -1);
        assert!(game.is_valid());
        if game.ball.direction.x == -1 {
            left += 1;
        } else {
            assert_eq!(game.ball.direction.x, 1);
            right += 1;
        }
    }
    assert!(left > 0);
    assert!(right > 0);
}

#[test]
fn with_max_misses_differs_from_with_serve_only_in_the_serve() {
    let made = GameState::with_max_misses(Point::xy(40, 20), 7).unwrap();
    let neg_x = made.ball.direction.x == -1;
    assert_eq!(made, GameState::with_serve(Point::xy(40, 20), 7, neg_x).unwrap());
}

#[test]
fn first_tick_moves_the_ball_and_leaves_the_paddle() {
    let mut game = session(false);
    let paddle = game.bouncer;
    game.update();
    assert_eq!(game.ball.position, Point::xy(21, 9));
    assert_eq!(game.bouncer, paddle);
    assert_eq!(game.bouncer.position, Point::xy(20, 18));
    assert_eq!(game.score, 1);
    assert_eq!(game.bricks.len(), 79);
    assert_eq!(game.ball.direction, Point::xy(1, 1));
}

#[test]
fn ticks_until_the_ball_is_lost_then_one_miss() {
    let mut game = session(false);
    game.update();
    assert_eq!(game.ball.position, Point::xy(21, 9));
    let mut ticks = 1;
    while !(game.ball.position.y > 30) {
        assert!(ticks < 100000);
        assert!(game.can_update());
        assert!(!game.ball_lost());
        game.update();
        ticks += 1;
    }
    assert_eq!(ticks, 185);
    assert_eq!(game.ball.position, Point::xy(31, 31));
    assert!(game.ball_lost());
    assert_eq!(game.score, 41);
    assert_eq!(game.bricks.len(), 39);
    assert_eq!(game.bouncer.misses, 0);
    game.handle_miss_with_serve(false);
    assert_eq!(game.bouncer.misses, 1);
    assert_eq!(game.phase, Phase::Playing);
    assert_eq!(game.ball.position, Point::xy(20, 10));
    assert_eq!(game.ball.direction, Point::xy(1, -1));
    assert_eq!(game.score, 41);
    assert!(game.is_valid());
}

#[test]
fn frames_handle_the_miss_themselves() {
    let mut game = session(false);
    for _ in 0..184 {
        game.play_frame_with_serve(true);
        assert_eq!(game.bouncer.misses, 0);
    }
    assert_eq!(game.ball.position, Point::xy(32, 30));
    game.play_frame_with_serve(true);
    assert_eq!(game.bouncer.misses, 1);
    assert_eq!(game.phase, Phase::Playing);
    assert_eq!(game.ball.position, Point::xy(20, 10));
    assert_eq!(game.ball.direction, Point::xy(-1, -1));
    assert_eq!(game.score, 41);
}

#[test]
fn whole_game_ends_after_three_misses() {
    let mut game = session(false);
    let mut frames = 0;
    let mut last_score = 0;
    let mut last_misses = 0;
    while game.phase == Phase::Playing {
        assert!(frames < 100000);
        assert!(game.is_valid());
        assert!(game.can_update());
        let bricks = game.bricks.len();
        game.play_frame_with_serve(false);
        frames += 1;
        assert!(game.score >= last_score);
        assert!(game.score - last_score <= 1);
        assert_eq!(game.score + game.bricks.len(), last_score + bricks);
        assert!(game.bouncer.misses >= last_misses);
        assert!(game.bouncer.misses - last_misses <= 1);
        assert!(1 <= game.ball.position.x && game.ball.position.x <= 40);
        last_score = game.score;
        last_misses = game.bouncer.misses;
    }
    assert_eq!(frames, 185 + 62);
    assert_eq!(game.bouncer.misses, 3);
    assert_eq!(game.score, 43);
    assert_eq!(game.bricks.len(), 37);
    assert_eq!(game.ball.position, Point::xy(25, 31));
    assert_eq!(game.phase, Phase::GameOver);
    assert!(game.is_valid());
}

#[test]
fn random_frames_play_a_whole_game() {
    let mut game = GameState::new(Point::xy(40, 20)).unwrap();
    let mut frames = 0;
    let mut last_score = 0;
    while game.phase == Phase::Playing && frames < 100000 {
        assert!(game.can_update());
        game.play_frame();
        frames += 1;
        assert!(game.score >= last_score);
        assert!(game.is_valid());
        assert!(game.bouncer.misses <= 3);
        last_score = game.score;
    }
    if game.phase == Phase::GameOver {
        assert_eq!(game.bouncer.misses, 3);
    }
}

#[test]
fn brick_is_knocked_out_when_the_ball_enters_its_band() {
    let mut game = bare(
        flying(Point::xy(5, 6), Point::xy(1, -1)),
        vec![BrickState::new(Point::xy(5, 3))],
    );
    assert!(game.is_valid());
    game.update();
    assert_eq!(game.ball.position, Point::xy(6, 5));
    assert_eq!(game.ball.direction, Point::xy(1, -1));
    assert_eq!(game.bricks.len(), 1);
    assert_eq!(game.score, 0);
    game.update();
    assert_eq!(game.ball.position, Point::xy(7, 4));
    assert_eq!(game.bricks.len(), 0);
    assert_eq!(game.score, 1);
    assert_eq!(game.ball.direction, Point::xy(1, 1));
    game.update();
    assert_eq!(game.ball.position, Point::xy(8, 5));
    assert_eq!(game.score, 1);
}

#[test]
fn ball_in_line_with_the_corner_misses_the_brick() {
    let mut game = bare(
        flying(Point::xy(4, 5), Point::xy(1, -1)),
        vec![BrickState::new(Point::xy(5, 3))],
    );
    game.update();
    assert_eq!(game.ball.position, Point::xy(5, 4));
    assert_eq!(game.bricks.len(), 1);
    assert_eq!(game.score, 0);
    assert_eq!(game.ball.direction, Point::xy(1, -1));
}

#[test]
fn only_the_first_touched_brick_yields() {
    let mut game = bare(
        flying(Point::xy(20, 10), Point::xy(1, -1)),
        vec![
            BrickState::new(Point::xy(0, 0)),
            BrickState::new(Point::xy(20, 10)),
            BrickState::new(Point::xy(20, 8)),
        ],
    );
    game.update();
    assert_eq!(game.ball.position, Point::xy(21, 9));
    assert_eq!(game.score, 1);
    assert_eq!(
        game.bricks,
        vec![BrickState::new(Point::xy(0, 0)), BrickState::new(Point::xy(20, 8))]
    );
    assert_eq!(game.ball.direction, Point::xy(1, 1));
}

#[test]
fn paddle_turns_the_ball_without_scoring() {
    let mut game = bare(flying(Point::xy(20, 16), Point::xy(1, 1)), Vec::new());
    game.update();
    assert_eq!(game.ball.position, Point::xy(21, 17));
    assert_eq!(game.ball.direction, Point::xy(1, -1));
    assert_eq!(game.score, 0);
    assert_eq!(game.bouncer.misses, 0);
    game.update();
    assert_eq!(game.ball.position, Point::xy(22, 16));
    assert_eq!(game.ball.direction, Point::xy(1, -1));
}

#[test]
fn paddle_and_brick_in_one_step_cancel() {
    let mut game = bare(
        flying(Point::xy(20, 16), Point::xy(1, 1)),
        vec![BrickState::new(Point::xy(20, 18))],
    );
    game.update();
    assert_eq!(game.ball.position, Point::xy(21, 17));
    assert_eq!(game.ball.direction, Point::xy(1, 1));
    assert_eq!(game.score, 1);
    assert_eq!(game.bricks.len(), 0);
}

#[test]
fn paddle_is_tested_where_it_stands_after_its_move() {
    let mut game = GameState {
        dimension: Point::xy(100, 60),
        bouncer: PlayerState::new(Point::xy(50, 58), 10),
        bricks: Vec::new(),
        ball: BallState {
            position: Point::xy(50, 56),
            direction: Point::xy(1, 1),
            initial_position: Point::xy(50, 30),
        },
        score: 0,
        max_misses: 3,
        phase: Phase::Playing,
    };
    assert!(game.is_valid());
    game.bouncer_move_x(2);
    assert_eq!(game.bouncer.direction, 2);
    game.update();
    assert_eq!(game.bouncer.position, Point::xy(52, 58));
    assert_eq!(game.bouncer.direction, 0);
    assert_eq!(game.ball.position, Point::xy(51, 57));
    assert_eq!(game.ball.direction, Point::xy(1, 1));
}

#[test]
fn side_walls_turn_the_ball_around() {
    let mut game = bare(flying(Point::xy(2, 10), Point::xy(-1, 1)), Vec::new());
    game.update();
    assert_eq!(game.ball.position, Point::xy(1, 11));
    game.update();
    assert_eq!(game.ball.position, Point::xy(2, 12));
    assert_eq!(game.ball.direction, Point::xy(1, 1));
    let mut right = bare(flying(Point::xy(39, 5), Point::xy(1, 1)), Vec::new());
    right.update();
    assert_eq!(right.ball.position, Point::xy(40, 6));
    assert_eq!(right.ball.direction, Point::xy(1, 1));
    right.update();
    assert_eq!(right.ball.position, Point::xy(39, 7));
    assert_eq!(right.ball.direction, Point::xy(-1, 1));
}

#[test]
fn ceiling_turns_the_ball_around() {
    let mut game = bare(flying(Point::xy(10, 2), Point::xy(1, -1)), Vec::new());
    game.update();
    assert_eq!(game.ball.position, Point::xy(11, 1));
    assert_eq!(game.ball.direction, Point::xy(1, -1));
    game.update();
    assert_eq!(game.ball.position, Point::xy(12, 2));
    assert_eq!(game.ball.direction, Point::xy(1, 1));
}

#[test]
fn side_wall_comes_before_the_ceiling() {
    let mut game = bare(flying(Point::xy(1, 1), Point::xy(-1, -1)), Vec::new());
    game.update();
    assert_eq!(game.ball.position, Point::xy(2, 0));
    assert_eq!(game.ball.direction, Point::xy(1, -1));
    game.update();
    assert_eq!(game.ball.position, Point::xy(3, 1));
    assert_eq!(game.ball.direction, Point::xy(1, 1));
}

#[test]
fn tick_uses_up_the_steering() {
    let mut game = GameState::with_serve(Point::xy(100, 60), 3, false).unwrap();
    game.bouncer_move_x(-2);
    assert_eq!(game.bouncer.direction, -2);
    game.update();
    assert_eq!(game.bouncer.position, Point::xy(48, 58));
    assert_eq!(game.bouncer.direction, 0);
    game.update();
    assert_eq!(game.bouncer.position, Point::xy(48, 58));
}

#[test]
fn steering_is_dropped_at_the_wall() {
    let mut game = GameState::with_serve(Point::xy(100, 60), 3, false).unwrap();
    game.bouncer.position = Point::xy(2, 58);
    game.bouncer_move_x(-2);
    assert_eq!(game.bouncer.direction, 0);
    game.bouncer_move_x(2);
    assert_eq!(game.bouncer.direction, 2);
    game.bouncer.position = Point::xy(98, 58);
    game.bouncer_move_x(2);
    assert_eq!(game.bouncer.direction, 0);
}

#[test]
fn ball_is_lost_beyond_the_margin_only() {
    let mut game = bare(flying(Point::xy(10, 30), Point::xy(1, 1)), Vec::new());
    assert!(!game.ball_lost());
    game.update();
    assert_eq!(game.ball.position, Point::xy(11, 31));
    assert!(game.ball_lost());
}

#[test]
fn single_allowed_miss_ends_the_game_at_once() {
    let mut game = GameState::with_serve(Point::xy(40, 20), 1, false).unwrap();
    game.update();
    game.update();
    let score = game.score;
    let ball = game.ball;
    game.handle_miss_with_serve(true);
    assert_eq!(game.phase, Phase::GameOver);
    assert_eq!(game.bouncer.misses, 1);
    assert_eq!(game.ball, ball);
    assert!(game.is_valid());
    assert!(game.can_update());
    let frozen = game.clone();
    game.update();
    assert_eq!(game.score, score);
    assert_eq!(game.bouncer.misses, 1);
    assert_eq!(game.bricks, frozen.bricks);
    assert_eq!(game, frozen);
}

#[test]
fn forced_miss_by_a_fallen_ball_ends_the_game() {
    let mut game = GameState::with_serve(Point::xy(40, 20), 1, false).unwrap();
    game.ball.position = Point::xy(10, 30);
    game.ball.direction = Point::xy(1, 1);
    game.play_frame_with_serve(false);
    assert_eq!(game.phase, Phase::GameOver);
    assert_eq!(game.bouncer.misses, 1);
    assert_eq!(game.ball.position, Point::xy(11, 31));
    let frozen = game.clone();
    game.update();
    assert_eq!(game, frozen);
    game.play_frame_with_serve(true);
    assert_eq!(game, frozen);
    game.play_frame();
    assert_eq!(game, frozen);
}

#[test]
fn finished_game_ignores_everything() {
    let mut game = GameState::with_serve(Point::xy(100, 60), 1, false).unwrap();
    game.handle_miss();
    assert_eq!(game.phase, Phase::GameOver);
    let frozen = game.clone();
    game.bouncer_move_x(2);
    assert_eq!(game, frozen);
    game.apply_intent(Intent::MoveLeft);
    assert_eq!(game, frozen);
    game.handle_miss();
    assert_eq!(game, frozen);
    game.handle_miss_with_serve(true);
    assert_eq!(game, frozen);
    for _ in 0..10 {
        game.update();
    }
    assert_eq!(game, frozen);
}

#[test]
fn misses_are_counted_up_to_the_limit() {
    let mut game = GameState::with_serve(Point::xy(40, 20), 4, false).unwrap();
    for expected in 1..=3 {
        game.update();
        game.handle_miss_with_serve(expected % 2 == 0);
        assert_eq!(game.bouncer.misses, expected);
        assert_eq!(game.phase, Phase::Playing);
        assert_eq!(game.ball.position, Point::xy(20, 10));
        assert_eq!(game.ball.direction.y, -1);
        assert_eq!(game.ball.direction.x, if expected % 2 == 0 { -1 } else { 1 });
    }
    game.handle_miss_with_serve(false);
    assert_eq!(game.bouncer.misses, 4);
    assert_eq!(game.phase, Phase::GameOver);
    game.handle_miss_with_serve(false);
    assert_eq!(game.bouncer.misses, 4);
}

#[test]
fn random_miss_serves_upwards_from_the_start() {
    let mut left = 0;
    let mut right = 0;
    for _ in 0..400 {
        let mut game = session(false);
        game.update();
        game.handle_miss();
        assert_eq!(game.bouncer.misses, 1);
        assert_eq!(game.phase, Phase::Playing);
        assert_eq!(game.ball.position, Point::xy(20, 10));
        assert_eq!(game.ball.direction.y, -1);
        if game.ball.direction.x == -1 {
            left += 1;
        } else {
            assert_eq!(game.ball.direction.x, 1);
            right += 1;
        }
    }
    assert!(left > 0);
    assert!(right > 0);
}

#[test]
fn validity_check_rejects_broken_sessions() {
    let good = session(false);
    assert!(good.is_valid());
    let mut fast = good.clone();
    fast.ball.direction = Point::xy(2, -1);
    assert!(!fast.is_valid());
    let mut still = good.clone();
    still.ball.direction = Point::xy(1, 0);
    assert!(!still.is_valid());
    let mut narrow = good.clone();
    narrow.dimension = Point::xy(19, 20);
    assert!(!narrow.is_valid());
    let mut low = good.clone();
    low.dimension = Point::xy(40, 19);
    assert!(!low.is_valid());
    let mut wide = good.clone();
    wide.bouncer.width = 5;
    assert!(!wide.is_valid());
    let mut lifeless = good.clone();
    lifeless.max_misses = 0;
    assert!(!lifeless.is_valid());
    let mut over = good.clone();
    over.phase = Phase::GameOver;
    assert!(!over.is_valid());
    let mut spent = good.clone();
    spent.bouncer.misses = 3;
    assert!(!spent.is_valid());
    spent.phase = Phase::GameOver;
    assert!(spent.is_valid());
    let mut beyond = good.clone();
    beyond.bouncer.misses = 4;
    assert!(!beyond.is_valid());
    let mut full = good.clone();
    full.score = usize::MAX - 79;
    assert!(!full.is_valid());
    full.score = usize::MAX - 80;
    assert!(full.is_valid());
}

#[test]
fn update_check_sees_the_edge_of_the_range() {
    let mut game = session(false);
    game.ball.position = Point::xy(10, i32::MIN);
    assert!(game.can_update());
    game.ball.direction = Point::xy(1, 1);
    assert!(!game.can_update());
    game.ball.position = Point::xy(10, i32::MAX);
    assert!(!game.can_update());
    game.ball.position = Point::xy(i32::MAX, 10);
    game.ball.direction = Point::xy(-1, 1);
    assert!(!game.can_update());
    game.ball.direction = Point::xy(1, 1);
    assert!(game.can_update());
    game.ball.position = Point::xy(20, 10);
    game.bouncer.direction = i32::MAX;
    assert!(!game.can_update());
    game.bouncer.position = Point::xy(0, 18);
    assert!(game.can_update());
    game.bouncer.position = Point::xy(1, 18);
    assert!(!game.can_update());
    game.phase = Phase::GameOver;
    game.bouncer.misses = 3;
    assert!(game.can_update());
}

#[test]
fn intents_steer_by_a_fiftieth_of_the_width() {
    let mut game = GameState::with_serve(Point::xy(100, 60), 3, false).unwrap();
    game.apply_intent(Intent::MoveLeft);
    assert_eq!(game.bouncer.direction, -2);
    game.apply_intent(Intent::MoveRight);
    assert_eq!(game.bouncer.direction, 2);
    let before = game.clone();
    game.apply_intent(Intent::Quit);
    assert_eq!(game, before);
    game.update();
    assert_eq!(game.bouncer.position, Point::xy(52, 58));
}

#[test]
fn intents_in_a_narrow_arena_do_not_move_the_paddle() {
    let mut game = session(false);
    game.apply_intent(Intent::MoveRight);
    assert_eq!(game.bouncer.direction, 0);
    game.update();
    assert_eq!(game.bouncer.position, Point::xy(20, 18));
}

#[test]
fn snapshot_shows_the_running_game() {
    let mut game = session(false);
    game.update();
    let picture: Snapshot = game.snapshot();
    assert_eq!(picture.paddle_position, Point::xy(20, 18));
    assert_eq!(picture.paddle_size, Point::xy(4, 2));
    assert_eq!(picture.ball, Some(Point::xy(21, 9)));
    assert_eq!(picture.bricks.len(), 79);
    for i in 0..79 {
        assert_eq!(picture.bricks[i], game.bricks[i].position);
    }
    assert_eq!(picture.bricks[54], Point::xy(20, 10));
    assert_eq!(picture.score, 1);
    assert_eq!(picture.misses, 0);
    assert_eq!(picture.phase, Phase::Playing);
}

#[test]
fn snapshot_hides_the_ball_once_the_game_is_over() {
    let mut game = GameState::with_serve(Point::xy(40, 20), 1, false).unwrap();
    game.handle_miss_with_serve(false);
    let picture = game.snapshot();
    assert_eq!(picture.ball, None);
    assert_eq!(picture.phase, Phase::GameOver);
    assert_eq!(picture.misses, 1);
    assert_eq!(picture.score, 0);
    assert_eq!(picture.bricks.len(), 80);
}

#[test]
fn snapshot_of_an_empty_field() {
    let game = bare(flying(Point::xy(5, 6), Point::xy(1, -1)), Vec::new());
    let picture = game.snapshot();
    assert_eq!(picture.bricks, Vec::<Point>::new());
    assert_eq!(picture.ball, Some(Point::xy(5, 6)));
}
