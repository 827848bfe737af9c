//! Core logic of a two-player pong game: paddle movement, ball physics,
//! scoring, and the menu / pause / round-over state machine.
//!
//! Geometry is measured in centipixels (hundredths of a pixel), so that
//! positions, velocities and the spin rule are plain integers. The host
//! shell that owns the window converts to screen pixels when drawing.

pub mod config;
pub mod entities;
pub mod game;
pub mod geom;
pub mod laws;
pub mod rng;
