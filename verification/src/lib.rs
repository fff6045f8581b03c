//! Simulation core of a top-down arcade survival game.
//!
//! A player-controlled entity continuously oscillates in size, must dodge or
//! absorb procedurally spawned hazards relative to an always-advancing
//! viewpoint, and the run ends when the player is destroyed or left behind.
//!
//! All quantities are fixed-point integers in milli-units (one thousandth of
//! a world unit), so every rule of the game — size clamping, behaviour
//! selection, penetration thresholds, view culling, timers — is stated and
//! proved exactly. The rendering, physics and input collaborators live
//! outside this crate and exchange plain values with it.

pub mod fx;
pub mod vec2;
pub mod rng;
pub mod timer;
pub mod score;
pub mod scale;
pub mod strategy;
pub mod obstacle;
pub mod collision;
pub mod culling;
pub mod factory;
pub mod state;
pub mod world;
