//! The whole game: its state at the start, and what one frame does to it.

use vstd::prelude::*;
use crate::ball::{
    apply_velocity, check_for_collisions, colliders, lemma_bounce_keeps_reversible, Ball,
};
use crate::field::{
    build_field, field_obstacles, spawn_point, StaticObstacle, BALL_SPAWN_X, BALL_SPAWN_Y,
    INITIAL_BALL_SPEED, OPPONENT_X, PLAYER_X,
};
use crate::geometry::Point;
use crate::motion::Velocity;
use crate::paddle::{move_paddles, opponent_input, player_input, KeyState, Paddle, Role};
use crate::score::{score_goal, tally_goals, Score};

verus! {

/// Everything that a game holds between two frames.
#[derive(Clone, Debug, PartialEq, Eq)]
pub struct World {
    pub player: Paddle,
    pub opponent: Paddle,
    pub ball: Ball,
    pub obstacles: Vec<StaticObstacle>,
    pub score: Score,
}

impl World {
    /// Both paddles are well-formed and carry their own role, and the ball's
    /// velocity can change sign.
    pub open spec fn wf(self) -> bool {
        &&& self.player.wf()
        &&& self.player.role == Role::Player
        &&& self.opponent.wf()
        &&& self.opponent.role == Role::Opponent
        &&& self.ball.velocity.reversible()
    }

    /// A frame of `micros` microseconds can be played within the range of
    /// the coordinates and of the counters.
    pub open spec fn can_step(self, micros: u32) -> bool {
        &&& self.ball.velocity.reversible()
        &&& self.ball.can_move(micros)
        &&& self.score.can_count(self.ball.moved(micros).bounds(), self.obstacles@)
    }

    /// The game after a frame of `micros` microseconds in which `keys` were
    /// held. The keys steer the player and the opponent turns towards the
    /// ball; then the ball and both paddles move; then the ball bounces off
    /// paddles and walls; then the goals are judged.
    pub open spec fn after_step(self, keys: KeyState, micros: u32) -> World {
        let player = self.player.steered(keys).moved(micros);
        let opponent = self.opponent.following(self.ball.position.y).moved(micros);
        let ball = self.ball.moved(micros).bounced(colliders(player, opponent, self.obstacles@));
        World {
            player,
            opponent,
            ball: ball.after_goals(self.obstacles@),
            obstacles: self.obstacles,
            score: self.score.after_goals(ball.bounds(), self.obstacles@),
        }
    }

    /// The game at its start: both paddles at rest at mid-height, the ball
    /// at the spawn point on its way up and to the right, two goals and two
    /// walls around the field, and no points.
    pub fn new() -> (world: World)
        ensures
            world.player == (Paddle {
                position: Point { x: PLAYER_X, y: 0 },
                velocity: Velocity { x: 0, y: 0 },
                role: Role::Player,
            }),
            world.opponent == (Paddle {
                position: Point { x: OPPONENT_X, y: 0 },
                velocity: Velocity { x: 0, y: 0 },
                role: Role::Opponent,
            }),
            world.ball == (Ball {
                position: spawn_point(),
                velocity: Velocity { x: INITIAL_BALL_SPEED, y: INITIAL_BALL_SPEED },
            }),
            world.obstacles@ == field_obstacles(),
            world.score == (Score { player: 0, opponent: 0 }),
            world.wf(),
    {
        World {
            player: Paddle::new(Role::Player, PLAYER_X, 0),
            opponent: Paddle::new(Role::Opponent, OPPONENT_X, 0),
            ball: Ball::new(
                BALL_SPAWN_X,
                BALL_SPAWN_Y,
                Velocity { x: INITIAL_BALL_SPEED, y: INITIAL_BALL_SPEED },
            ),
            obstacles: build_field(),
            score: Score::new(),
        }
    }

    /// The paddle with the given role.
    pub fn paddle(&self, role: Role) -> (paddle: &Paddle)
        ensures
            *paddle == (match role {
                Role::Player => self.player,
                Role::Opponent => self.opponent,
            }),
    {
        match role {
            Role::Player => &self.player,
            Role::Opponent => &self.opponent,
        }
    }

    /// Plays one frame of `micros` microseconds in which `keys` were held.
    pub fn step(&mut self, keys: KeyState, micros: u32)
        requires
            old(self).can_step(micros),
        ensures
            *final(self) == old(self).after_step(keys, micros),
            old(self).wf() ==> final(self).wf(),
    {
        player_input(&mut self.player, keys);
        opponent_input(&mut self.opponent, self.ball.position.y);
        apply_velocity(&mut self.ball, micros);
        move_paddles(&mut self.player, &mut self.opponent, micros);
        check_for_collisions(&mut self.ball, &self.player, &self.opponent, &self.obstacles);
        score_goal(&mut self.ball, &self.obstacles, &mut self.score);
    }

    /// Tells whether a frame of `micros` microseconds can be played.
    pub fn check_can_step(&self, micros: u32) -> (ok: bool)
        ensures
            ok == self.can_step(micros),
    {
        if !self.ball.velocity.is_reversible() || !self.ball.check_can_move(micros) {
            return false;
        }
        let mut ball = self.ball;
        apply_velocity(&mut ball, micros);
        let shape = ball.bounding_box();
        let tally = tally_goals(&shape, &self.obstacles);
        tally.left as u64 <= u64::MAX - self.score.player && tally.right as u64 <= u64::MAX
            - self.score.opponent
    }

    /// Plays one frame where it can be played, and leaves the game as it is
    /// where it cannot. Tells which of the two it did.
    pub fn try_step(&mut self, keys: KeyState, micros: u32) -> (played: bool)
        ensures
            played == old(self).can_step(micros),
            played ==> *final(self) == old(self).after_step(keys, micros),
            !played ==> *final(self) == *old(self),
            old(self).wf() ==> final(self).wf(),
    {
        if self.check_can_step(micros) {
            self.step(keys, micros);
            true
        } else {
            false
        }
    }
}

/// A frame keeps a well-formed game well-formed: the paddles stay within
/// their vertical range and their speed limits, the score does not fall, and
/// the obstacles stay as they are.
pub proof fn lemma_step_keeps_well_formed(world: World, keys: KeyState, micros: u32)
    requires
        world.wf(),
        world.can_step(micros),
    ensures
        world.after_step(keys, micros).wf(),
        world.after_step(keys, micros).obstacles == world.obstacles,
        world.after_step(keys, micros).score.player >= world.score.player,
        world.after_step(keys, micros).score.opponent >= world.score.opponent,
{
    let player = world.player.steered(keys).moved(micros);
    let opponent = world.opponent.following(world.ball.position.y).moved(micros);
    let moved = world.ball.moved(micros);
    lemma_bounce_keeps_reversible(moved, colliders(player, opponent, world.obstacles@));
}

} // verus!
