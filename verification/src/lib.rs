//! Marching squares over a boolean grid: the cells, the pattern code of each
//! lattice point, the outline primitives each code stands for, and the
//! pointer handling that flips cells.

pub mod grid;
pub mod pattern;
pub mod shape;
pub mod contour;
pub mod pointer;
pub mod app;
pub mod layout;
