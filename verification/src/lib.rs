//! Signal-to-control mapping for a live face-tracking avatar puppet.
//!
//! The library converts per-frame tracking signals into avatar-ready control
//! parameters: named blendshape coefficients become named expression weights,
//! and 3D body landmarks become named bone rotations.  All quantities are
//! carried as fixed-point integers in millionths of a unit, so that every
//! mapping rule is stated and proved exactly.

pub mod config;
pub mod expression;
pub mod extensions;
pub mod fixed;
pub mod glb;
pub mod live_expressions;
pub mod pose;
pub mod vec3;
