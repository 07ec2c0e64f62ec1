//! Verified core of a Monte-Carlo path tracer: render configuration, raster
//! enumeration, closest-hit selection, per-pixel sampling and the path
//! integrator's recursion. Geometry and color arithmetic are floating point
//! and stay with the caller, which hands them in as plain values (distances as
//! `f32` bit patterns) or as functions.

pub mod config;
pub mod float_bits;
pub mod hit;
pub mod integrator;
pub mod raster;
pub mod sampling;
