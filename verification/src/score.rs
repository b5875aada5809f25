//! The score: how goals change it, and how it is shown.

use vstd::prelude::*;
use crate::ball::Ball;
use crate::field::{spawn_point, StaticObstacle, ObstacleKind, BALL_SPAWN_X, BALL_SPAWN_Y};
use crate::geometry::{collide, Aabb, Collision, Point};

verus! {

/// The points of both sides. They only ever grow.
#[derive(Clone, Copy, Debug, PartialEq, Eq, Structural)]
pub struct Score {
    pub player: u64,
    pub opponent: u64,
}

/// What the goals of a field say of a ball: how many of them it hit on a
/// left side, how many on a right side, and whether it reached any.
#[derive(Clone, Copy, Debug, PartialEq, Eq, Structural)]
pub struct GoalTally {
    pub left: usize,
    pub right: usize,
    pub reached: bool,
}

/// The two lines of the scoreboard.
#[derive(Clone, Debug, PartialEq, Eq)]
pub struct Scoreboard {
    pub player: String,
    pub opponent: String,
}

/// How many goals among `obstacles` the box `ball` hits on the side `side`.
pub open spec fn goal_hits(ball: Aabb, obstacles: Seq<StaticObstacle>, side: Collision) -> nat
    decreases obstacles.len(),
{
    if obstacles.len() == 0 {
        0
    } else if obstacles.last().is_goal() && ball.side_hit(obstacles.last().shape) == Some(side) {
        goal_hits(ball, obstacles.drop_last(), side) + 1
    } else {
        goal_hits(ball, obstacles.drop_last(), side)
    }
}

/// The box `ball` overlaps a goal among `obstacles`.
pub open spec fn reaches_goal(ball: Aabb, obstacles: Seq<StaticObstacle>) -> bool {
    exists|i: int|
        0 <= i < obstacles.len() && (#[trigger] obstacles[i]).is_goal() && ball.overlaps(
            obstacles[i].shape,
        )
}

/// The figure that stands for a number below ten.
pub open spec fn digit(d: int) -> char {
    if d == 0 {
        '0'
    } else if d == 1 {
        '1'
    } else if d == 2 {
        '2'
    } else if d == 3 {
        '3'
    } else if d == 4 {
        '4'
    } else if d == 5 {
        '5'
    } else if d == 6 {
        '6'
    } else if d == 7 {
        '7'
    } else if d == 8 {
        '8'
    } else {
        '9'
    }
}

/// `n` in decimal figures, without leading zeros.
pub open spec fn decimal(n: nat) -> Seq<char>
    decreases n,
{
    if n < 10 {
        seq![digit(n as int)]
    } else {
        decimal(n / 10).push(digit((n % 10) as int))
    }
}

/// The player's line of the scoreboard: a caption, then the points.
pub open spec fn player_label(points: u64) -> Seq<char> {
    seq!['y', 'o', 'u', ' ', ' ', ' '] + decimal(points as nat)
}

/// The opponent's line of the scoreboard: the points, then a caption.
pub open spec fn opponent_label(points: u64) -> Seq<char> {
    decimal(points as nat) + seq![' ', ' ', ' ', 'c', 'p', 'u']
}

impl Ball {
    /// The ball after the goals were judged: back at the spawn point where
    /// it reached a goal, as it was where it reached none. Its velocity
    /// stays.
    pub open spec fn after_goals(self, obstacles: Seq<StaticObstacle>) -> Ball {
        Ball {
            position: if reaches_goal(self.bounds(), obstacles) {
                spawn_point()
            } else {
                self.position
            },
            velocity: self.velocity,
        }
    }
}

impl Score {
    /// The goals that the box `ball` hits can be counted without leaving the
    /// range of a counter.
    pub open spec fn can_count(self, ball: Aabb, obstacles: Seq<StaticObstacle>) -> bool {
        &&& self.player + goal_hits(ball, obstacles, Collision::Left) <= u64::MAX
        &&& self.opponent + goal_hits(ball, obstacles, Collision::Right) <= u64::MAX
    }

    /// The score after the goals were judged for the box `ball`: a point
    /// for the player for every goal hit on its left side, a point for the
    /// opponent for every goal hit on its right side.
    pub open spec fn after_goals(self, ball: Aabb, obstacles: Seq<StaticObstacle>) -> Score {
        Score {
            player: (self.player + goal_hits(ball, obstacles, Collision::Left)) as u64,
            opponent: (self.opponent + goal_hits(ball, obstacles, Collision::Right)) as u64,
        }
    }

    /// The score at the start of a game.
    pub fn new() -> (score: Score)
        ensures
            score == (Score { player: 0, opponent: 0 }),
    {
        Score { player: 0, opponent: 0 }
    }
}

/// Holds the box `ball` against every goal among `obstacles`.
pub fn tally_goals(ball: &Aabb, obstacles: &Vec<StaticObstacle>) -> (tally: GoalTally)
    ensures
        tally.left == goal_hits(*ball, obstacles@, Collision::Left),
        tally.right == goal_hits(*ball, obstacles@, Collision::Right),
        tally.reached == reaches_goal(*ball, obstacles@),
{
    let mut left: usize = 0;
    let mut right: usize = 0;
    let mut reached = false;
    let mut i: usize = 0;
    while i < obstacles.len()
        invariant
            i <= obstacles.len(),
            left <= i,
            right <= i,
            left == goal_hits(*ball, obstacles@.take(i as int), Collision::Left),
            right == goal_hits(*ball, obstacles@.take(i as int), Collision::Right),
            reached == reaches_goal(*ball, obstacles@.take(i as int)),
        decreases obstacles.len() - i,
    {
        let obstacle = obstacles[i];
        let ghost before = obstacles@.take(i as int);
        let ghost upto = obstacles@.take(i + 1);
        proof {
            assert(upto.drop_last() =~= before);
        }
        let is_goal = match obstacle.kind {
            ObstacleKind::Wall => false,
            ObstacleKind::LeftGoal => true,
            ObstacleKind::RightGoal => true,
        };
        if is_goal {
            match collide(ball, &obstacle.shape) {
                Some(Collision::Left) => {
                    left = left + 1;
                    reached = true;
                },
                Some(Collision::Right) => {
                    right = right + 1;
                    reached = true;
                },
                Some(_) => {
                    reached = true;
                },
                None => {},
            }
        }
        i = i + 1;
    }
    proof {
        assert(obstacles@.take(obstacles.len() as int) =~= obstacles@);
    }
    GoalTally { left, right, reached }
}

/// Judges the goals: a ball that overlaps a goal among `obstacles` goes back
/// to the spawn point with its velocity unchanged, and every goal that it
/// hit on a left side gives the player a point, every goal that it hit on a
/// right side gives the opponent a point. All goals are judged by the place
/// where the ball was when the judging began.
pub fn score_goal(ball: &mut Ball, obstacles: &Vec<StaticObstacle>, score: &mut Score)
    requires
        old(score).can_count(old(ball).bounds(), obstacles@),
    ensures
        *final(ball) == old(ball).after_goals(obstacles@),
        *final(score) == old(score).after_goals(old(ball).bounds(), obstacles@),
        final(ball).velocity == old(ball).velocity,
        final(score).player >= old(score).player,
        final(score).opponent >= old(score).opponent,
{
    let own = ball.bounding_box();
    let tally = tally_goals(&own, obstacles);
    if tally.reached {
        ball.position = Point { x: BALL_SPAWN_X, y: BALL_SPAWN_Y };
    }
    score.player = score.player + tally.left as u64;
    score.opponent = score.opponent + tally.right as u64;
}

/// The text of one figure.
fn digit_text(d: u64) -> (text: &'static str)
    requires
        d < 10,
    ensures
        text@ == seq![digit(d as int)],
{
    proof {
        reveal_strlit("0");
        reveal_strlit("1");
        reveal_strlit("2");
        reveal_strlit("3");
        reveal_strlit("4");
        reveal_strlit("5");
        reveal_strlit("6");
        reveal_strlit("7");
        reveal_strlit("8");
        reveal_strlit("9");
    }
    let text = if d == 0 {
        "0"
    } else if d == 1 {
        "1"
    } else if d == 2 {
        "2"
    } else if d == 3 {
        "3"
    } else if d == 4 {
        "4"
    } else if d == 5 {
        "5"
    } else if d == 6 {
        "6"
    } else if d == 7 {
        "7"
    } else if d == 8 {
        "8"
    } else {
        "9"
    };
    text
}

/// Appends `n` in decimal figures to `text`.
fn push_decimal(text: &mut String, n: u64)
    ensures
        final(text)@ == old(text)@ + decimal(n as nat),
    decreases n,
{
    if n >= 10 {
        push_decimal(text, n / 10);
    }
    text.append(digit_text(n % 10));
}

/// `n` in decimal figures.
pub fn decimal_text(n: u64) -> (text: String)
    ensures
        text@ == decimal(n as nat),
{
    let mut text = String::new();
    push_decimal(&mut text, n);
    text
}

/// Writes the two lines of the scoreboard for `score`.
pub fn update_score(score: &Score) -> (board: Scoreboard)
    ensures
        board.player@ == player_label(score.player),
        board.opponent@ == opponent_label(score.opponent),
{
    proof {
        reveal_strlit("you   ");
        reveal_strlit("   cpu");
    }
    let mut player = String::from_str("you   ");
    push_decimal(&mut player, score.player);
    let mut opponent = decimal_text(score.opponent);
    opponent.append("   cpu");
    Scoreboard { player, opponent }
}

/// A ball that hits one goal on its left side gives the player one point,
/// one that hits it on its right side gives the opponent one point, and no
/// other hit gives a point. Whatever the side, the ball goes back to the
/// spawn point, and its velocity is what it was.
pub proof fn lemma_one_goal_hit(ball: Ball, score: Score, goal: StaticObstacle)
    requires
        goal.is_goal(),
        ball.bounds().overlaps(goal.shape),
        score.player < u64::MAX,
        score.opponent < u64::MAX,
    ensures
        ball.after_goals(seq![goal]).position == spawn_point(),
        ball.after_goals(seq![goal]).velocity == ball.velocity,
        ball.bounds().side_hit(goal.shape) == Some(Collision::Left) ==> {
            &&& score.after_goals(ball.bounds(), seq![goal]).player == score.player + 1
            &&& score.after_goals(ball.bounds(), seq![goal]).opponent == score.opponent
        },
        ball.bounds().side_hit(goal.shape) == Some(Collision::Right) ==> {
            &&& score.after_goals(ball.bounds(), seq![goal]).player == score.player
            &&& score.after_goals(ball.bounds(), seq![goal]).opponent == score.opponent + 1
        },
        ball.bounds().side_hit(goal.shape) != Some(Collision::Left) && ball.bounds().side_hit(
            goal.shape,
        ) != Some(Collision::Right) ==> score.after_goals(ball.bounds(), seq![goal]) == score,
{
    let goals = seq![goal];
    assert(goals[0].is_goal() && ball.bounds().overlaps(goals[0].shape));
    reveal_with_fuel(goal_hits, 2);
}

/// A ball that overlaps no goal stays where it is, and the score stays.
pub proof fn lemma_no_goal_reached(ball: Ball, score: Score, obstacles: Seq<StaticObstacle>)
    requires
        !reaches_goal(ball.bounds(), obstacles),
    ensures
        ball.after_goals(obstacles) == ball,
        score.after_goals(ball.bounds(), obstacles) == score,
{
    lemma_hits_need_overlap(ball.bounds(), obstacles, Collision::Left);
    lemma_hits_need_overlap(ball.bounds(), obstacles, Collision::Right);
}

/// Without an overlap with a goal there is no hit on any side of one.
proof fn lemma_hits_need_overlap(ball: Aabb, obstacles: Seq<StaticObstacle>, side: Collision)
    requires
        !reaches_goal(ball, obstacles),
    ensures
        goal_hits(ball, obstacles, side) == 0,
    decreases obstacles.len(),
{
    if obstacles.len() > 0 {
        let rest = obstacles.drop_last();
        assert forall|i: int| 0 <= i < rest.len() implies !((#[trigger] rest[i]).is_goal()
            && ball.overlaps(rest[i].shape)) by {
            assert(rest[i] == obstacles[i]);
        }
        lemma_hits_need_overlap(ball, rest, side);
    }
}

} // verus!
