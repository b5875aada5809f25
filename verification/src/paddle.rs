//! The two paddles: how keys steer the player's, how the opponent's follows
//! the ball, and how both move.

use vstd::prelude::*;
use crate::field::{
    KEY_PUSH, MAX_PADDLE_SPEED, MAX_PADDLE_Y, MIN_PADDLE_SPEED, MIN_PADDLE_Y, OPPONENT_SPEED,
    PADDLE_HALF_HEIGHT, PADDLE_HALF_WIDTH,
};
use crate::geometry::{Aabb, Point};
use crate::motion::{clamped, travel, Velocity};

verus! {

/// Who moves a paddle.
#[derive(Clone, Copy, Debug, PartialEq, Eq, Structural)]
pub enum Role {
    Player,
    Opponent,
}

/// Which of the two keys are held in a frame.
#[derive(Clone, Copy, Debug, PartialEq, Eq, Structural)]
pub struct KeyState {
    pub up: bool,
    pub down: bool,
}

impl KeyState {
    /// What the keys add to the player's vertical speed. The up key wins
    /// over the down key; with neither held nothing is added.
    pub open spec fn push(self) -> int {
        if self.up {
            KEY_PUSH as int
        } else if self.down {
            -KEY_PUSH
        } else {
            0
        }
    }
}

/// A paddle. Its position counts millionths of a unit, its velocity units
/// per second.
#[derive(Clone, Copy, Debug, PartialEq, Eq, Structural)]
pub struct Paddle {
    pub position: Point,
    pub velocity: Velocity,
    pub role: Role,
}

impl Paddle {
    /// The paddle is within its vertical range and no faster than allowed,
    /// and it does not move sideways.
    pub open spec fn wf(self) -> bool {
        &&& MIN_PADDLE_Y <= self.position.y <= MAX_PADDLE_Y
        &&& MIN_PADDLE_SPEED <= self.velocity.y <= MAX_PADDLE_SPEED
        &&& self.velocity.x == 0
    }

    /// The box that the paddle fills.
    pub open spec fn bounds(self) -> Aabb {
        Aabb {
            center: self.position,
            half_width: PADDLE_HALF_WIDTH,
            half_height: PADDLE_HALF_HEIGHT,
        }
    }

    /// The paddle after a frame in which `keys` were held.
    pub open spec fn steered(self, keys: KeyState) -> Paddle {
        Paddle {
            velocity: Velocity {
                x: self.velocity.x,
                y: clamped(
                    self.velocity.y + keys.push(),
                    MIN_PADDLE_SPEED as int,
                    MAX_PADDLE_SPEED as int,
                ) as i32,
            },
            ..self
        }
    }

    /// The paddle after one frame for each entry of `frames`, in order.
    pub open spec fn steered_through(self, frames: Seq<KeyState>) -> Paddle
        decreases frames.len(),
    {
        if frames.len() == 0 {
            self
        } else {
            self.steered_through(frames.drop_last()).steered(frames.last())
        }
    }

    /// The paddle heading for a ball at height `ball_y`: down where the ball
    /// is below it, up where the ball is above it, at rest where both are
    /// level.
    pub open spec fn following(self, ball_y: i64) -> Paddle {
        Paddle {
            velocity: Velocity {
                x: self.velocity.x,
                y: if ball_y < self.position.y {
                    -OPPONENT_SPEED
                } else if ball_y > self.position.y {
                    OPPONENT_SPEED as int
                } else {
                    0
                } as i32,
            },
            ..self
        }
    }

    /// The paddle after `micros` microseconds at its vertical speed, held
    /// within its vertical range.
    pub open spec fn moved(self, micros: u32) -> Paddle {
        Paddle {
            position: Point {
                x: self.position.x,
                y: clamped(
                    self.position.y + self.velocity.y * micros,
                    MIN_PADDLE_Y as int,
                    MAX_PADDLE_Y as int,
                ) as i64,
            },
            ..self
        }
    }

    /// A paddle at rest at the given place.
    pub fn new(role: Role, x: i64, y: i64) -> (paddle: Paddle)
        ensures
            paddle == (Paddle { position: Point { x, y }, velocity: Velocity { x: 0, y: 0 }, role }),
            paddle.wf() <==> MIN_PADDLE_Y <= y <= MAX_PADDLE_Y,
    {
        Paddle { position: Point { x, y }, velocity: Velocity { x: 0, y: 0 }, role }
    }

    /// The box that the paddle fills.
    pub fn bounding_box(&self) -> (shape: Aabb)
        ensures
            shape == self.bounds(),
    {
        Aabb {
            center: self.position,
            half_width: PADDLE_HALF_WIDTH,
            half_height: PADDLE_HALF_HEIGHT,
        }
    }
}

/// Turns the keys held in a frame into the player's vertical speed: the up
/// key adds to it, else the down key takes from it, and the result is held
/// within the speed limits. With no key held the speed stays as it was.
pub fn player_input(paddle: &mut Paddle, keys: KeyState)
    ensures
        *final(paddle) == old(paddle).steered(keys),
        MIN_PADDLE_SPEED <= final(paddle).velocity.y <= MAX_PADDLE_SPEED,
        old(paddle).wf() ==> final(paddle).wf(),
{
    let mut speed: i64 = paddle.velocity.y as i64;
    if keys.up {
        speed = speed + KEY_PUSH as i64;
    } else if keys.down {
        speed = speed - KEY_PUSH as i64;
    }
    if speed < MIN_PADDLE_SPEED as i64 {
        speed = MIN_PADDLE_SPEED as i64;
    } else if speed > MAX_PADDLE_SPEED as i64 {
        speed = MAX_PADDLE_SPEED as i64;
    }
    paddle.velocity.y = speed as i32;
}

/// Sets the opponent's vertical speed towards the ball's height `ball_y`.
pub fn opponent_input(paddle: &mut Paddle, ball_y: i64)
    ensures
        *final(paddle) == old(paddle).following(ball_y),
        old(paddle).wf() ==> final(paddle).wf(),
{
    if ball_y < paddle.position.y {
        paddle.velocity.y = -OPPONENT_SPEED;
    } else if ball_y > paddle.position.y {
        paddle.velocity.y = OPPONENT_SPEED;
    } else {
        paddle.velocity.y = 0;
    }
}

/// Moves one paddle for `micros` microseconds and holds it within its
/// vertical range.
pub fn move_paddle(paddle: &mut Paddle, micros: u32)
    ensures
        *final(paddle) == old(paddle).moved(micros),
        MIN_PADDLE_Y <= final(paddle).position.y <= MAX_PADDLE_Y,
        old(paddle).wf() ==> final(paddle).wf(),
{
    let target: i128 = paddle.position.y as i128 + travel(paddle.velocity.y, micros) as i128;
    if target < MIN_PADDLE_Y as i128 {
        paddle.position.y = MIN_PADDLE_Y;
    } else if target > MAX_PADDLE_Y as i128 {
        paddle.position.y = MAX_PADDLE_Y;
    } else {
        paddle.position.y = target as i64;
    }
}

/// Moves both paddles for `micros` microseconds, each held within its
/// vertical range.
pub fn move_paddles(player: &mut Paddle, opponent: &mut Paddle, micros: u32)
    ensures
        *final(player) == old(player).moved(micros),
        *final(opponent) == old(opponent).moved(micros),
        MIN_PADDLE_Y <= final(player).position.y <= MAX_PADDLE_Y,
        MIN_PADDLE_Y <= final(opponent).position.y <= MAX_PADDLE_Y,
        old(player).wf() ==> final(player).wf(),
        old(opponent).wf() ==> final(opponent).wf(),
{
    move_paddle(player, micros);
    move_paddle(opponent, micros);
}

/// However long the keys are played, and whatever the speed was before, the
/// player's vertical speed is within the speed limits after any frame.
pub proof fn lemma_speed_stays_bounded(paddle: Paddle, frames: Seq<KeyState>)
    requires
        frames.len() > 0,
    ensures
        MIN_PADDLE_SPEED <= paddle.steered_through(frames).velocity.y <= MAX_PADDLE_SPEED,
{
}

/// Steering, following and moving keep a well-formed paddle well-formed.
pub proof fn lemma_paddle_stays_well_formed(paddle: Paddle, keys: KeyState, ball_y: i64, micros: u32)
    requires
        paddle.wf(),
    ensures
        paddle.steered(keys).wf(),
        paddle.following(ball_y).wf(),
        paddle.moved(micros).wf(),
{
}

} // verus!
