//! A 2D particle-physics simulator that renders its state as dot-matrix art
//! on a character grid.
//!
//! Coordinates are fixed-point: an `i64` counts units of `1 / SCALE` of one
//! sub-cell, where a character cell is 2 sub-cells wide and 4 sub-cells tall.
//! The physics (forward-Euler integration, wall reflection, pairwise elastic
//! collisions) and the rasterizer are verified; terminal I/O lives outside
//! this crate.

pub mod math;
pub mod point;
pub mod particle;
pub mod screen;
pub mod universe;
