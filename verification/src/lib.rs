//! Gameplay rules of a two-paddle ball game, on exact integer arithmetic.
//!
//! Lengths are counted in millionths of a field unit and time in
//! microseconds, so that a speed in whole units per second times an elapsed
//! time is a length without rounding.
//!
//! A frame runs in a fixed order: the keys steer the player's paddle and the
//! opponent's paddle turns towards the ball ([`paddle`]); the ball and the
//! paddles move ([`ball`], [`paddle`]); the ball bounces off paddles and
//! walls ([`ball`], [`geometry`]); the goals are judged and the scoreboard is
//! written ([`score`]). [`world`] holds the state of a game and plays whole
//! frames; [`field`] holds the measures of the field.

pub mod ball;
pub mod field;
pub mod geometry;
pub mod motion;
pub mod paddle;
pub mod score;
pub mod world;
