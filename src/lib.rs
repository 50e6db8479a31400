//! Parametric surfaces sampled on a grid, their tessellation into triangle
//! meshes, and an orbit camera driven by pointer input.

pub mod manifold;
pub mod geometry;
pub mod navigator;
