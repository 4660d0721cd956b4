//! A second-order dynamics filter: given a target value that moves over time,
//! it produces a smoothly animated output that tracks the target with a
//! configurable natural frequency, damping ratio and response gain, and stays
//! stable under large or variable time steps.
//!
//! All quantities are fixed-point numbers: an `i64` holding the value scaled
//! by `fixed_point::FX_SCALE`. The engine-facing layer converts between these
//! and its own number formats at the boundary.

pub mod fixed_point;
pub mod solver;
pub mod system;
pub mod rotation;
pub mod scheduler;
