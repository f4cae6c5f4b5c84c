//! Decides, for triangles with integer vertex coordinates on a bounded plane,
//! whether the origin (0, 0) lies inside them (boundary included), and counts
//! how many triangles of a batch contain it.

pub mod batch;
pub mod classify;
pub mod geometry;
pub mod ratio;
