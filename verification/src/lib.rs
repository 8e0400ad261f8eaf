//! The deciding half of a path tracer.
//!
//! Real numbers travel through this library as binary64 bit patterns (see
//! [`scalar`]). The library holds the scene, chooses among intersections,
//! decides how a surface scatters and when a path ends, and lays out the
//! picture. The arithmetic between those decisions is the caller's.
pub mod geometry;
pub mod material;
pub mod output;
pub mod renderer;
pub mod scalar;
