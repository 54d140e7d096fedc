//! Simulation core of a small fixed-screen shoot-'em-up: a player ship that
//! slides along the bottom of the screen, a formation of bugs that sweeps left
//! and right and steps down at the edges, lasers that fly upward, and the
//! collision pass that removes a laser together with every bug it touches.
//! `world` runs one tick of all of these; `scene` sequences the splash
//! screen, the menu and the game.
//!
//! All coordinates are fixed-point integers: one pixel is `SCALE` units.
//! The origin is the centre of the window, `x` grows to the right and `y`
//! grows upward.

pub mod geometry;
pub mod laser;
pub mod player;
pub mod formation;
pub mod collision;
pub mod world;
pub mod scene;
