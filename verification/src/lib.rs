//! Animation core for a dandelion-seed scene: a fixed-point affine-transform
//! algebra, a small colour type, and the per-frame behavioural state machine
//! that drives the animated seeds from tracked body positions.
//!
//! All scalar quantities are fixed-point numbers: an `i64` holding the real
//! value times [`fixed::FX_ONE`]. The GPU, window and network layers live
//! outside this crate and convert at the boundary.

pub mod affine_matrix;
pub mod color;
pub mod dancer_mock;
pub mod dandelion;
pub mod fixed;
pub mod ground;
pub mod kinect_tracker;
pub mod rng;
pub mod scene;
pub mod state;
pub mod trig;
