//! A particle visual-effects engine: it spawns, updates and removes
//! short-lived two-dimensional particles that follow pointer movement,
//! under one of four selectable styles, and emits one filled-circle draw
//! command per live particle each frame.
//!
//! All quantities are fixed-point integers: one unit is `num::SCALE`
//! sub-units, so `25 * SCALE` stands for a radius of 25 pixels and
//! `SCALE / 2` for an alpha of one half.

pub mod engine;
pub mod laws;
pub mod num;
pub mod particle;
pub mod rng;
pub mod style;
