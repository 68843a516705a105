//! Simulation core of a single-player brick-breaking arcade game played on a
//! character grid.
//!
//! The crate holds the per-frame rules only: entity state, motion, collision
//! tests, scoring and the life counter. Drawing, keyboard polling and frame
//! pacing belong to the program around it, which feeds the session with
//! steering intents and reads a snapshot back after each frame.
//!
//! Every executable function carries a contract over a mathematical model of
//! the data it touches: a [`geometry::Point`] stands for a
//! [`geometry::Vector`] of unbounded integers, and so on up to the whole
//! session.

pub mod ball;
pub mod boundary;
pub mod brick;
mod chance;
pub mod collision;
pub mod geometry;
pub mod laws;
pub mod paddle;
pub mod session;
