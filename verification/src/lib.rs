//! Escape-time stability of points of a parametric plane: the iteration
//! engine behind Mandelbrot and Julia rendering, the mapping from raster
//! pixels to plane coordinates, and the per-pixel generators built on both.

pub mod complex;
pub mod engine;
pub mod julia;
pub mod mandelbrot;
pub mod offload;
pub mod pixel;
pub mod plane;

pub use crate::engine::is_stable;
