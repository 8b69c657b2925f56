//! A verified core for a small real-time rendering harness.
//!
//! The library models and verifies the parts of the harness that decide,
//! compute and keep invariants: fixed-point camera transforms, the
//! presentation-surface configuration and its resize rules, and the
//! per-frame acquire/encode/submit/present protocol with its ordering
//! guarantees. The GPU, the window system and the immediate-mode UI are
//! external collaborators: the event loop that drives them lives outside
//! this library and exchanges plain values with it.

pub mod camera;
pub mod error;
pub mod frame;
pub mod math;
pub mod overlay;
pub mod surface;
