//! Simulation core of a minimal paddle-and-ball arcade game.
//!
//! A fixed rectangular arena is bounded by four walls; one player-controlled
//! paddle sits near the left wall and may only move vertically; one ball moves
//! freely. The core is the per-tick simulation step: deriving the direction
//! signal from the input state, advancing the paddle and clamping it to the
//! arena, integrating the ball, and detecting and resolving contact between
//! the ball and the paddle or the walls. Rendering, input devices and window
//! management belong to a host presentation layer that calls into this core
//! once per fixed tick and reads the resulting positions back.
//!
//! All coordinates are integers in *subunits*: one world unit is
//! [`units::SUBUNITS_PER_UNIT`] subunits. Velocities are in subunits per
//! millisecond (numerically equal to world units per second), and tick
//! durations are in milliseconds, so integration is exact integer arithmetic.

pub mod arena;
pub mod collision;
pub mod entities;
pub mod geometry;
pub mod motion;
pub mod tick;
pub mod units;
