//! The ball: how it moves, and how it bounces off walls and paddles.

use vstd::prelude::*;
use crate::field::{StaticObstacle, ObstacleKind, BALL_RADIUS};
use crate::geometry::{collide, Aabb, Collision, Point};
use crate::motion::{travel, Velocity};
use crate::paddle::Paddle;

verus! {

/// The ball. Its position counts millionths of a unit, its velocity units
/// per second. Nothing holds the position within the field.
#[derive(Clone, Copy, Debug, PartialEq, Eq, Structural)]
pub struct Ball {
    pub position: Point,
    pub velocity: Velocity,
}

/// `velocity` after a hit on the given side of an obstacle. A component
/// changes sign only where it points into the obstacle: to the right on a
/// hit on the left side, to the left on the right side, downwards on the
/// top side, upwards on the bottom side.
pub open spec fn deflected(velocity: Velocity, hit: Option<Collision>) -> Velocity {
    match hit {
        Some(Collision::Left) if velocity.x > 0 => Velocity { x: (-velocity.x) as i32, y: velocity.y },
        Some(Collision::Right) if velocity.x < 0 => Velocity { x: (-velocity.x) as i32, y: velocity.y },
        Some(Collision::Top) if velocity.y < 0 => Velocity { x: velocity.x, y: (-velocity.y) as i32 },
        Some(Collision::Bottom) if velocity.y > 0 => Velocity { x: velocity.x, y: (-velocity.y) as i32 },
        _ => velocity,
    }
}

/// `velocity` after the box `ball` was held against each of `shapes` in
/// turn. Every shape is judged by the same box; a later one deflects what
/// the earlier ones left.
pub open spec fn deflected_by_all(ball: Aabb, velocity: Velocity, shapes: Seq<Aabb>) -> Velocity
    decreases shapes.len(),
{
    if shapes.len() == 0 {
        velocity
    } else {
        deflected(
            deflected_by_all(ball, velocity, shapes.drop_last()),
            ball.side_hit(shapes.last()),
        )
    }
}

/// The shapes of the walls among `obstacles`, in their order.
pub open spec fn wall_shapes(obstacles: Seq<StaticObstacle>) -> Seq<Aabb>
    decreases obstacles.len(),
{
    if obstacles.len() == 0 {
        Seq::empty()
    } else if obstacles.last().is_wall() {
        wall_shapes(obstacles.drop_last()).push(obstacles.last().shape)
    } else {
        wall_shapes(obstacles.drop_last())
    }
}

/// What the ball bounces off, in the order in which it is tried: the
/// player's paddle, the opponent's paddle, then the walls.
pub open spec fn colliders(player: Paddle, opponent: Paddle, obstacles: Seq<StaticObstacle>) -> Seq<Aabb> {
    seq![player.bounds(), opponent.bounds()] + wall_shapes(obstacles)
}

impl Ball {
    /// The box that the ball fills.
    pub open spec fn bounds(self) -> Aabb {
        Aabb { center: self.position, half_width: BALL_RADIUS, half_height: BALL_RADIUS }
    }

    /// Along both axes, the place reached after `micros` microseconds is
    /// within the range of a coordinate.
    pub open spec fn can_move(self, micros: u32) -> bool {
        &&& i64::MIN <= self.position.x + self.velocity.x * micros <= i64::MAX
        &&& i64::MIN <= self.position.y + self.velocity.y * micros <= i64::MAX
    }

    /// The ball after `micros` microseconds at its velocity.
    pub open spec fn moved(self, micros: u32) -> Ball {
        Ball {
            position: Point {
                x: (self.position.x + self.velocity.x * micros) as i64,
                y: (self.position.y + self.velocity.y * micros) as i64,
            },
            velocity: self.velocity,
        }
    }

    /// The ball after it bounced off what `shapes` holds.
    pub open spec fn bounced(self, shapes: Seq<Aabb>) -> Ball {
        Ball {
            position: self.position,
            velocity: deflected_by_all(self.bounds(), self.velocity, shapes),
        }
    }

    /// A ball at the given place with the given velocity.
    pub fn new(x: i64, y: i64, velocity: Velocity) -> (ball: Ball)
        ensures
            ball == (Ball { position: Point { x, y }, velocity }),
    {
        Ball { position: Point { x, y }, velocity }
    }

    /// The box that the ball fills.
    pub fn bounding_box(&self) -> (shape: Aabb)
        ensures
            shape == self.bounds(),
    {
        Aabb { center: self.position, half_width: BALL_RADIUS, half_height: BALL_RADIUS }
    }

    /// Tells whether the ball can move for `micros` microseconds without
    /// leaving the range of a coordinate.
    pub fn check_can_move(&self, micros: u32) -> (ok: bool)
        ensures
            ok == self.can_move(micros),
    {
        let x: i128 = self.position.x as i128 + travel(self.velocity.x, micros) as i128;
        let y: i128 = self.position.y as i128 + travel(self.velocity.y, micros) as i128;
        i64::MIN as i128 <= x && x <= i64::MAX as i128 && i64::MIN as i128 <= y && y
            <= i64::MAX as i128
    }

    /// Turns the ball's velocity after a hit on the given side of an
    /// obstacle, or leaves it where there was no hit.
    pub fn deflect(&mut self, hit: Option<Collision>)
        requires
            old(self).velocity.reversible(),
        ensures
            final(self).position == old(self).position,
            final(self).velocity == deflected(old(self).velocity, hit),
            final(self).velocity.reversible(),
    {
        match hit {
            Some(Collision::Left) => {
                if self.velocity.x > 0 {
                    self.velocity.x = -self.velocity.x;
                }
            },
            Some(Collision::Right) => {
                if self.velocity.x < 0 {
                    self.velocity.x = -self.velocity.x;
                }
            },
            Some(Collision::Top) => {
                if self.velocity.y < 0 {
                    self.velocity.y = -self.velocity.y;
                }
            },
            Some(Collision::Bottom) => {
                if self.velocity.y > 0 {
                    self.velocity.y = -self.velocity.y;
                }
            },
            Some(Collision::Inside) => {},
            None => {},
        }
    }

    /// Deflects the ball's velocity by one shape that it may have hit.
    pub fn bounce_off(&mut self, shape: &Aabb)
        requires
            old(self).velocity.reversible(),
        ensures
            final(self).position == old(self).position,
            final(self).velocity == deflected(
                old(self).velocity,
                old(self).bounds().side_hit(*shape),
            ),
            final(self).velocity.reversible(),
    {
        let own = self.bounding_box();
        let hit = collide(&own, shape);
        self.deflect(hit);
    }
}

/// Moves the ball for `micros` microseconds at its velocity.
pub fn apply_velocity(ball: &mut Ball, micros: u32)
    requires
        old(ball).can_move(micros),
    ensures
        *final(ball) == old(ball).moved(micros),
        final(ball).position.x == old(ball).position.x + old(ball).velocity.x * micros,
        final(ball).position.y == old(ball).position.y + old(ball).velocity.y * micros,
        final(ball).velocity == old(ball).velocity,
{
    ball.position.x = ball.position.x + travel(ball.velocity.x, micros);
    ball.position.y = ball.position.y + travel(ball.velocity.y, micros);
}

/// Bounces the ball off the two paddles and off every wall among
/// `obstacles`, in that order. The ball stays where it is; only its
/// velocity changes.
pub fn check_for_collisions(
    ball: &mut Ball,
    player: &Paddle,
    opponent: &Paddle,
    obstacles: &Vec<StaticObstacle>,
)
    requires
        old(ball).velocity.reversible(),
    ensures
        *final(ball) == old(ball).bounced(colliders(*player, *opponent, obstacles@)),
        final(ball).velocity.reversible(),
{
    let ghost start = *ball;
    let ghost paddles = seq![player.bounds(), opponent.bounds()];
    let player_box = player.bounding_box();
    let opponent_box = opponent.bounding_box();
    ball.bounce_off(&player_box);
    ball.bounce_off(&opponent_box);
    proof {
        reveal_with_fuel(deflected_by_all, 3);
    }
    let mut i: usize = 0;
    while i < obstacles.len()
        invariant
            i <= obstacles.len(),
            paddles == seq![player.bounds(), opponent.bounds()],
            ball.position == start.position,
            ball.velocity.reversible(),
            ball.velocity == deflected_by_all(
                start.bounds(),
                start.velocity,
                paddles + wall_shapes(obstacles@.take(i as int)),
            ),
        decreases obstacles.len() - i,
    {
        let obstacle = obstacles[i];
        proof {
            let before = obstacles@.take(i as int);
            let upto = obstacles@.take(i + 1);
            assert(upto.drop_last() =~= before);
            if obstacle.is_wall() {
                let shapes = paddles + wall_shapes(upto);
                assert(shapes.drop_last() =~= paddles + wall_shapes(before));
            }
        }
        match obstacle.kind {
            ObstacleKind::Wall => {
                ball.bounce_off(&obstacle.shape);
            },
            _ => {},
        }
        i = i + 1;
    }
    proof {
        assert(obstacles@.take(obstacles.len() as int) =~= obstacles@);
    }
}

/// The sign that a run of hits leaves on the horizontal speed: negative
/// where the last hit on a left or right side was on a left side, positive
/// where it was on a right side, zero where there was none.
spec fn horizontal_turn(ball: Aabb, shapes: Seq<Aabb>) -> int
    decreases shapes.len(),
{
    if shapes.len() == 0 {
        0
    } else {
        match ball.side_hit(shapes.last()) {
            Some(Collision::Left) => -1,
            Some(Collision::Right) => 1,
            _ => horizontal_turn(ball, shapes.drop_last()),
        }
    }
}

/// The sign that a run of hits leaves on the vertical speed: negative where
/// the last hit on a top or bottom side was on a bottom side, positive where
/// it was on a top side, zero where there was none.
spec fn vertical_turn(ball: Aabb, shapes: Seq<Aabb>) -> int
    decreases shapes.len(),
{
    if shapes.len() == 0 {
        0
    } else {
        match ball.side_hit(shapes.last()) {
            Some(Collision::Bottom) => -1,
            Some(Collision::Top) => 1,
            _ => vertical_turn(ball, shapes.drop_last()),
        }
    }
}

/// `speed` with the sign that `turn` asks for, or unchanged where it asks
/// for none.
spec fn turned(speed: int, turn: int) -> int {
    if turn < 0 && speed > 0 {
        -speed
    } else if turn > 0 && speed < 0 {
        -speed
    } else {
        speed
    }
}

/// A run of hits does to each component what its last hit on that axis does.
proof fn lemma_deflected_by_all_is_last_turn(ball: Aabb, velocity: Velocity, shapes: Seq<Aabb>)
    requires
        velocity.reversible(),
    ensures
        deflected_by_all(ball, velocity, shapes).x == turned(
            velocity.x as int,
            horizontal_turn(ball, shapes),
        ),
        deflected_by_all(ball, velocity, shapes).y == turned(
            velocity.y as int,
            vertical_turn(ball, shapes),
        ),
        deflected_by_all(ball, velocity, shapes).reversible(),
    decreases shapes.len(),
{
    if shapes.len() > 0 {
        lemma_deflected_by_all_is_last_turn(ball, velocity, shapes.drop_last());
    }
}

/// A hit never turns a component that already points away from the side
/// that was hit, and no hit, or one that singles out no side, turns nothing.
pub proof fn lemma_moving_away_is_left_alone(velocity: Velocity, hit: Option<Collision>)
    ensures
        hit == Some(Collision::Left) && velocity.x <= 0 ==> deflected(velocity, hit) == velocity,
        hit == Some(Collision::Right) && velocity.x >= 0 ==> deflected(velocity, hit) == velocity,
        hit == Some(Collision::Top) && velocity.y >= 0 ==> deflected(velocity, hit) == velocity,
        hit == Some(Collision::Bottom) && velocity.y <= 0 ==> deflected(velocity, hit) == velocity,
        hit == Some(Collision::Inside) || hit is None ==> deflected(velocity, hit) == velocity,
{
}

/// After a hit the velocity points away from the side that was hit, so the
/// same hit again changes nothing.
pub proof fn lemma_deflected_once_is_enough(velocity: Velocity, hit: Option<Collision>)
    requires
        velocity.reversible(),
    ensures
        deflected(deflected(velocity, hit), hit) == deflected(velocity, hit),
        deflected(velocity, hit).reversible(),
{
}

/// A ball whose velocity can change sign keeps such a velocity however it
/// bounces, and it stays where it is.
pub proof fn lemma_bounce_keeps_reversible(ball: Ball, shapes: Seq<Aabb>)
    requires
        ball.velocity.reversible(),
    ensures
        ball.bounced(shapes).velocity.reversible(),
        ball.bounced(shapes).position == ball.position,
{
    lemma_deflected_by_all_is_last_turn(ball.bounds(), ball.velocity, shapes);
}

/// Bouncing a ball that has not moved off the same shapes a second time
/// changes nothing.
pub proof fn lemma_bouncing_twice_is_bouncing_once(ball: Ball, shapes: Seq<Aabb>)
    requires
        ball.velocity.reversible(),
    ensures
        ball.bounced(shapes).bounced(shapes) == ball.bounced(shapes),
        ball.bounced(shapes).position == ball.position,
{
    let once = ball.bounced(shapes);
    lemma_deflected_by_all_is_last_turn(ball.bounds(), ball.velocity, shapes);
    lemma_deflected_by_all_is_last_turn(once.bounds(), once.velocity, shapes);
}

} // verus!
