//! An interactive 2D viewport: pointer, wheel, keyboard and resize events are
//! turned into a camera transform, an animation clock is advanced once per
//! frame, and a small state machine decides which calls the host makes on its
//! surface, renderer and model for every event it delivers.
//!
//! All lengths, scales and angles are exact integers counted in millionths
//! (see [`fixed::UNIT`]); the crate holds no floating-point arithmetic.

pub mod fixed;
pub mod trig;
pub mod camera;
pub mod controller;
pub mod controller_laws;
pub mod surface;
pub mod orchestrator;
pub mod orchestrator_laws;
