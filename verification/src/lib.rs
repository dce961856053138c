//! A verified input-driven transform controller for a keyboard-steered
//! camera.
//!
//! Each frame the controller reads a snapshot of the held keys together with
//! the elapsed time since the previous frame and updates a single transform:
//! held directional keys move the position at one world unit per second
//! (the direction is normalised, so the speed is independent of how many
//! axes are active), and the rotation keys turn the yaw by a fixed step per
//! frame.  All geometry is kept in fixed-point integers — positions in
//! micro-units and yaw in micro-radians — so every update is exact and every
//! contract states the resulting value precisely.

pub mod controller;
pub mod input;
pub mod laws;
pub mod scene;
pub mod transform;
