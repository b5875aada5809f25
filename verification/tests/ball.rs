use pong::ball::{apply_velocity, check_for_collisions, Ball};
use pong::field::{ObstacleKind, StaticObstacle};
use pong::geometry::{Aabb, Collision, Point};
use pong::motion::Velocity;
use pong::paddle::{Paddle, Role};

const U: i64 = 1_000_000;

fn ball_at(x: i64, y: i64, vx: i32, vy: i32) -> Ball {
    Ball::new(x * U, y * U, Velocity { x: vx, y: vy })
}

fn shape(x: i64, y: i64, half_width: i64, half_height: i64) -> Aabb {
    Aabb { center: Point { x: x * U, y: y * U }, half_width: half_width * U, half_height: half_height * U }
}

fn far_paddles() -> (Paddle, Paddle) {
    (Paddle::new(Role::Player, -500 * U, 0), Paddle::new(Role::Opponent, 500 * U, 0))
}

#[test]
fn the_ball_is_twenty_across() {
    let ball = ball_at(3, -4, 0, 0);
    assert_eq!(ball.bounding_box(), shape(3, -4, 10, 10));
}

#[test]
fn the_ball_moves_by_velocity_times_time() {
    let mut ball = ball_at(590, 0, 200, 0);
    apply_velocity(&mut ball, 100_000);
    assert_eq!(ball.position, Point { x: 610 * U, y: 0 });
    assert_eq!(ball.velocity, Velocity { x: 200, y: 0 });

    let mut ball = ball_at(0, -60, 200, 200);
    apply_velocity(&mut ball, 16_000);
    assert_eq!(ball.position, Point { x: 3_200_000, y: -56_800_000 });

    let mut ball = ball_at(1, 2, -7, 3);
    apply_velocity(&mut ball, 16_667);
    assert_eq!(ball.position, Point { x: U - 116_669, y: 2 * U + 50_001 });
    assert_eq!(ball.velocity, Velocity { x: -7, y: 3 });
}

#[test]
fn no_time_no_movement() {
    let mut ball = ball_at(5, 6, 200, -200);
    apply_velocity(&mut ball, 0);
    assert_eq!(ball, ball_at(5, 6, 200, -200));
}

#[test]
fn movement_is_checked_against_the_coordinate_range() {
    let ball = Ball::new(i64::MAX - 10, 0, Velocity { x: 1, y: 0 });
    assert!(ball.check_can_move(10));
    assert!(!ball.check_can_move(11));
    let ball = Ball::new(0, i64::MIN + 10, Velocity { x: 0, y: -1 });
    assert!(ball.check_can_move(10));
    assert!(!ball.check_can_move(11));
    let ball = Ball::new(i64::MAX, i64::MIN, Velocity { x: -1, y: 1 });
    assert!(ball.check_can_move(u32::MAX));
    let ball = Ball::new(0, 0, Velocity { x: i32::MAX, y: i32::MIN });
    assert!(ball.check_can_move(u32::MAX));

    let mut ball = Ball::new(i64::MAX - 10, i64::MIN + 10, Velocity { x: 1, y: -1 });
    apply_velocity(&mut ball, 10);
    assert_eq!(ball.position, Point { x: i64::MAX, y: i64::MIN });
}

#[test]
fn a_ball_moving_into_a_side_turns_back() {
    let wall = shape(0, 0, 50, 50);
    let mut ball = ball_at(-55, 0, 200, 30);
    ball.bounce_off(&wall);
    assert_eq!(ball.velocity, Velocity { x: -200, y: 30 });
    let mut ball = ball_at(55, 0, -200, 30);
    ball.bounce_off(&wall);
    assert_eq!(ball.velocity, Velocity { x: 200, y: 30 });
    let mut ball = ball_at(0, 55, 30, -200);
    ball.bounce_off(&wall);
    assert_eq!(ball.velocity, Velocity { x: 30, y: 200 });
    let mut ball = ball_at(0, -55, 30, 200);
    ball.bounce_off(&wall);
    assert_eq!(ball.velocity, Velocity { x: 30, y: -200 });
}

#[test]
fn a_ball_moving_away_from_a_side_keeps_its_course() {
    let wall = shape(0, 0, 50, 50);
    for vx in [-200, 0] {
        let mut ball = ball_at(-55, 0, vx, 30);
        ball.bounce_off(&wall);
        assert_eq!(ball.velocity, Velocity { x: vx, y: 30 });
    }
    for vx in [200, 0] {
        let mut ball = ball_at(55, 0, vx, -30);
        ball.bounce_off(&wall);
        assert_eq!(ball.velocity, Velocity { x: vx, y: -30 });
    }
    for vy in [200, 0] {
        let mut ball = ball_at(0, 55, 30, vy);
        ball.bounce_off(&wall);
        assert_eq!(ball.velocity, Velocity { x: 30, y: vy });
    }
    for vy in [-200, 0] {
        let mut ball = ball_at(0, -55, -30, vy);
        ball.bounce_off(&wall);
        assert_eq!(ball.velocity, Velocity { x: -30, y: vy });
    }
}

#[test]
fn ball_moving_left_on_a_left_side_is_not_turned() {
    // The ball overlaps the left side of the wall and already moves away from it.
    let wall = shape(-600, 0, 5, 300);
    let mut ball = ball_at(-612, 0, -200, 0);
    ball.bounce_off(&wall);
    assert_eq!(ball.velocity, Velocity { x: -200, y: 0 });
    assert_eq!(ball.position, Point { x: -612 * U, y: 0 });
}

#[test]
fn a_ball_inside_or_apart_keeps_its_course() {
    let wall = shape(0, 0, 50, 50);
    let mut ball = ball_at(0, 0, 200, -200);
    ball.bounce_off(&wall);
    assert_eq!(ball, ball_at(0, 0, 200, -200));
    let mut ball = ball_at(100, 100, -200, -200);
    ball.bounce_off(&wall);
    assert_eq!(ball, ball_at(100, 100, -200, -200));
}

#[test]
fn the_largest_speeds_can_turn() {
    let wall = shape(0, 0, 50, 50);
    let mut ball = ball_at(55, 0, -i32::MAX, 0);
    ball.bounce_off(&wall);
    assert_eq!(ball.velocity.x, i32::MAX);
    ball.position.x = -55 * U;
    ball.bounce_off(&wall);
    assert_eq!(ball.velocity.x, -i32::MAX);
    assert!(ball.velocity.is_reversible());
    assert!(!Velocity { x: i32::MIN, y: 0 }.is_reversible());
    assert!(!Velocity { x: 0, y: i32::MIN }.is_reversible());
}

#[test]
fn the_ball_bounces_off_walls_and_paddles_but_not_off_goals() {
    let (player, opponent) = far_paddles();
    let obstacles = vec![
        StaticObstacle { shape: shape(600, -60, 5, 300), kind: ObstacleKind::RightGoal },
        StaticObstacle { shape: shape(-600, -60, 5, 300), kind: ObstacleKind::LeftGoal },
        StaticObstacle { shape: shape(0, 240, 600, 5), kind: ObstacleKind::Wall },
        StaticObstacle { shape: shape(0, -360, 600, 5), kind: ObstacleKind::Wall },
    ];

    let mut ball = ball_at(288, 228, 200, 200);
    check_for_collisions(&mut ball, &player, &opponent, &obstacles);
    assert_eq!(ball, ball_at(288, 228, 200, -200));

    let mut ball = ball_at(100, -348, -200, -200);
    check_for_collisions(&mut ball, &player, &opponent, &obstacles);
    assert_eq!(ball, ball_at(100, -348, -200, 200));

    let mut ball = ball_at(483, 30, 200, -200);
    check_for_collisions(&mut ball, &player, &opponent, &obstacles);
    assert_eq!(ball, ball_at(483, 30, -200, -200));

    let mut ball = ball_at(-483, 30, -200, -200);
    check_for_collisions(&mut ball, &player, &opponent, &obstacles);
    assert_eq!(ball, ball_at(-483, 30, 200, -200));

    let mut ball = ball_at(588, 0, 200, 200);
    check_for_collisions(&mut ball, &player, &opponent, &obstacles);
    assert_eq!(ball, ball_at(588, 0, 200, 200));

    let mut ball = ball_at(0, -60, 200, 200);
    check_for_collisions(&mut ball, &player, &opponent, &obstacles);
    assert_eq!(ball, ball_at(0, -60, 200, 200));
}

#[test]
fn a_later_obstacle_can_turn_the_ball_again() {
    let (player, opponent) = far_paddles();
    // The ball is squeezed between the right side of one wall and the left side of another.
    let on_the_left = StaticObstacle { shape: shape(-14, 0, 5, 300), kind: ObstacleKind::Wall };
    let on_the_right = StaticObstacle { shape: shape(14, 0, 5, 300), kind: ObstacleKind::Wall };

    let mut ball = ball_at(0, 0, 200, 0);
    check_for_collisions(&mut ball, &player, &opponent, &vec![on_the_right, on_the_left]);
    assert_eq!(ball.velocity, Velocity { x: 200, y: 0 });

    let mut ball = ball_at(0, 0, 200, 0);
    check_for_collisions(&mut ball, &player, &opponent, &vec![on_the_left, on_the_right]);
    assert_eq!(ball.velocity, Velocity { x: -200, y: 0 });

    let mut ball = ball_at(0, 0, -200, 0);
    check_for_collisions(&mut ball, &player, &opponent, &vec![on_the_left, on_the_right]);
    assert_eq!(ball.velocity, Velocity { x: -200, y: 0 });
}

#[test]
fn paddles_are_tried_before_walls() {
    let player = Paddle::new(Role::Player, -14 * U, 0);
    let opponent = Paddle::new(Role::Opponent, 500 * U, 0);
    let wall = StaticObstacle { shape: shape(14, 0, 5, 300), kind: ObstacleKind::Wall };
    // The wall, tried last, has the last word on the horizontal speed.
    let mut ball = ball_at(0, 0, -200, 0);
    check_for_collisions(&mut ball, &player, &opponent, &vec![wall]);
    assert_eq!(ball.velocity, Velocity { x: -200, y: 0 });
    let mut ball = ball_at(0, 0, 200, 0);
    check_for_collisions(&mut ball, &player, &opponent, &vec![wall]);
    assert_eq!(ball.velocity, Velocity { x: -200, y: 0 });
}

#[test]
fn bouncing_again_without_moving_changes_nothing() {
    let (player, opponent) = far_paddles();
    let obstacles = vec![
        StaticObstacle { shape: shape(-14, 0, 5, 300), kind: ObstacleKind::Wall },
        StaticObstacle { shape: shape(0, 14, 300, 5), kind: ObstacleKind::Wall },
        StaticObstacle { shape: shape(14, 0, 5, 300), kind: ObstacleKind::Wall },
        StaticObstacle { shape: shape(0, -200, 300, 5), kind: ObstacleKind::Wall },
    ];
    for vx in [-200, 0, 200] {
        for vy in [-200, 0, 200] {
            let mut ball = ball_at(0, 0, vx, vy);
            check_for_collisions(&mut ball, &player, &opponent, &obstacles);
            let once = ball;
            check_for_collisions(&mut ball, &player, &opponent, &obstacles);
            assert_eq!(ball, once);
            assert_eq!(ball.position, Point { x: 0, y: 0 });
        }
    }
    let mut ball = ball_at(0, 0, 200, 200);
    check_for_collisions(&mut ball, &player, &opponent, &obstacles);
    assert_eq!(ball.velocity, Velocity { x: -200, y: -200 });
}

#[test]
fn with_nothing_to_hit_the_ball_keeps_its_course() {
    let (player, opponent) = far_paddles();
    let mut ball = ball_at(0, 0, 200, 200);
    check_for_collisions(&mut ball, &player, &opponent, &Vec::new());
    assert_eq!(ball, ball_at(0, 0, 200, 200));
}

#[test]
fn a_hit_turns_only_the_component_that_points_into_the_side() {
    let cases = [
        (Some(Collision::Left), (200, 30), (-200, 30)),
        (Some(Collision::Left), (-200, 30), (-200, 30)),
        (Some(Collision::Right), (-200, 30), (200, 30)),
        (Some(Collision::Right), (200, 30), (200, 30)),
        (Some(Collision::Top), (30, -200), (30, 200)),
        (Some(Collision::Top), (30, 200), (30, 200)),
        (Some(Collision::Bottom), (30, 200), (30, -200)),
        (Some(Collision::Bottom), (30, -200), (30, -200)),
        (Some(Collision::Inside), (200, -200), (200, -200)),
        (None, (-200, 200), (-200, 200)),
    ];
    for (hit, before, after) in cases {
        let mut ball = ball_at(1, 2, before.0, before.1);
        ball.deflect(hit);
        assert_eq!(ball, ball_at(1, 2, after.0, after.1));
        ball.deflect(hit);
        assert_eq!(ball, ball_at(1, 2, after.0, after.1));
    }
}
