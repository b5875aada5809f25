//! The measures of the field and the obstacles that stand on it.

use vstd::prelude::*;
use crate::geometry::{Aabb, Point};

verus! {

/// Millionths of a unit in one unit, and microseconds in one second.
pub const UNIT: i64 = 1_000_000;

/// Height of the window, in units.
pub const HEIGHT: i64 = 720;

/// Width of the window, in units.
pub const WIDTH: i64 = 1200;

/// Width of the playing field, in units.
pub const FIELD_WIDTH: i64 = 1200;

/// Height of the playing field, in units: the window without the scoreboard.
pub const FIELD_HEIGHT: i64 = 600;

/// Lowest position of a paddle's center, in millionths of a unit.
pub const MIN_PADDLE_Y: i64 = -280_000_000;

/// Highest position of a paddle's center, in millionths of a unit.
pub const MAX_PADDLE_Y: i64 = 160_000_000;

/// Greatest upward speed of a paddle, in units per second.
pub const MAX_PADDLE_SPEED: i32 = 300;

/// Greatest downward speed of a paddle, in units per second.
pub const MIN_PADDLE_SPEED: i32 = -300;

/// What one frame with a key held adds to the player's speed.
pub const KEY_PUSH: i32 = 100;

/// The speed at which the opponent follows the ball.
pub const OPPONENT_SPEED: i32 = 100;

/// Half of a paddle's width, in millionths of a unit.
pub const PADDLE_HALF_WIDTH: i64 = 10_000_000;

/// Half of a paddle's height, in millionths of a unit.
pub const PADDLE_HALF_HEIGHT: i64 = 75_000_000;

/// Horizontal position of the player's paddle.
pub const PLAYER_X: i64 = -500_000_000;

/// Horizontal position of the opponent's paddle.
pub const OPPONENT_X: i64 = 500_000_000;

/// Radius of the ball, in millionths of a unit.
pub const BALL_RADIUS: i64 = 10_000_000;

/// Horizontal position at which the ball starts, and to which it goes back
/// after a goal.
pub const BALL_SPAWN_X: i64 = 0;

/// Height at which the ball starts, and to which it goes back after a goal.
pub const BALL_SPAWN_Y: i64 = -60_000_000;

/// The velocity with which the ball starts, along either axis.
pub const INITIAL_BALL_SPEED: i32 = 200;

/// Horizontal position of the goal behind the player.
pub const LEFT_GOAL_X: i64 = -600_000_000;

/// Horizontal position of the goal behind the opponent.
pub const RIGHT_GOAL_X: i64 = 600_000_000;

/// Height at which both goals are centered: the middle of the field.
pub const GOAL_Y: i64 = -60_000_000;

/// Half of a goal's width, in millionths of a unit.
pub const GOAL_HALF_WIDTH: i64 = 5_000_000;

/// Half of a goal's height, in millionths of a unit.
pub const GOAL_HALF_HEIGHT: i64 = 300_000_000;

/// Height of the center of the wall above the field.
pub const TOP_WALL_Y: i64 = 240_000_000;

/// Height of the center of the wall below the field.
pub const BOTTOM_WALL_Y: i64 = -360_000_000;

/// Half of a wall's width, in millionths of a unit.
pub const WALL_HALF_WIDTH: i64 = 600_000_000;

/// Half of a wall's height, in millionths of a unit.
pub const WALL_HALF_HEIGHT: i64 = 5_000_000;

/// What an obstacle is to the ball.
#[derive(Clone, Copy, Debug, PartialEq, Eq, Structural)]
pub enum ObstacleKind {
    /// The ball bounces off it.
    Wall,
    /// The goal at the left end of the field.
    LeftGoal,
    /// The goal at the right end of the field.
    RightGoal,
}

/// A box that stands still for the whole game.
#[derive(Clone, Copy, Debug, PartialEq, Eq, Structural)]
pub struct StaticObstacle {
    pub shape: Aabb,
    pub kind: ObstacleKind,
}

impl StaticObstacle {
    /// The ball bounces off this obstacle.
    pub open spec fn is_wall(self) -> bool {
        self.kind == ObstacleKind::Wall
    }

    /// The ball scores at this obstacle.
    pub open spec fn is_goal(self) -> bool {
        self.kind == ObstacleKind::LeftGoal || self.kind == ObstacleKind::RightGoal
    }
}

/// The goal behind the opponent: ten units wide and as high as the field.
pub open spec fn right_goal() -> StaticObstacle {
    StaticObstacle {
        shape: Aabb {
            center: Point { x: RIGHT_GOAL_X, y: GOAL_Y },
            half_width: GOAL_HALF_WIDTH,
            half_height: GOAL_HALF_HEIGHT,
        },
        kind: ObstacleKind::RightGoal,
    }
}

/// The goal behind the player: ten units wide and as high as the field.
pub open spec fn left_goal() -> StaticObstacle {
    StaticObstacle {
        shape: Aabb {
            center: Point { x: LEFT_GOAL_X, y: GOAL_Y },
            half_width: GOAL_HALF_WIDTH,
            half_height: GOAL_HALF_HEIGHT,
        },
        kind: ObstacleKind::LeftGoal,
    }
}

/// The wall above the field: as wide as the field and ten units high.
pub open spec fn top_wall() -> StaticObstacle {
    StaticObstacle {
        shape: Aabb {
            center: Point { x: 0, y: TOP_WALL_Y },
            half_width: WALL_HALF_WIDTH,
            half_height: WALL_HALF_HEIGHT,
        },
        kind: ObstacleKind::Wall,
    }
}

/// The wall below the field: as wide as the field and ten units high.
pub open spec fn bottom_wall() -> StaticObstacle {
    StaticObstacle {
        shape: Aabb {
            center: Point { x: 0, y: BOTTOM_WALL_Y },
            half_width: WALL_HALF_WIDTH,
            half_height: WALL_HALF_HEIGHT,
        },
        kind: ObstacleKind::Wall,
    }
}

/// The obstacles of the field, in the order in which a frame goes through
/// them: the goal behind the opponent, the goal behind the player, the wall
/// above and the wall below.
pub open spec fn field_obstacles() -> Seq<StaticObstacle> {
    seq![right_goal(), left_goal(), top_wall(), bottom_wall()]
}

/// Builds the obstacles of the field.
pub fn build_field() -> (obstacles: Vec<StaticObstacle>)
    ensures
        obstacles@ == field_obstacles(),
{
    let goal = Aabb {
        center: Point { x: RIGHT_GOAL_X, y: GOAL_Y },
        half_width: GOAL_HALF_WIDTH,
        half_height: GOAL_HALF_HEIGHT,
    };
    let wall = Aabb {
        center: Point { x: 0, y: TOP_WALL_Y },
        half_width: WALL_HALF_WIDTH,
        half_height: WALL_HALF_HEIGHT,
    };
    let mut obstacles: Vec<StaticObstacle> = Vec::new();
    obstacles.push(StaticObstacle { shape: goal, kind: ObstacleKind::RightGoal });
    obstacles.push(
        StaticObstacle {
            shape: Aabb { center: Point { x: LEFT_GOAL_X, y: GOAL_Y }, ..goal },
            kind: ObstacleKind::LeftGoal,
        },
    );
    obstacles.push(StaticObstacle { shape: wall, kind: ObstacleKind::Wall });
    obstacles.push(
        StaticObstacle {
            shape: Aabb { center: Point { x: 0, y: BOTTOM_WALL_Y }, ..wall },
            kind: ObstacleKind::Wall,
        },
    );
    obstacles
}

/// The point where the ball is put into play.
pub open spec fn spawn_point() -> Point {
    Point { x: BALL_SPAWN_X, y: BALL_SPAWN_Y }
}

} // verus!
