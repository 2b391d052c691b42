//! An incremental, budget-aware renderer for a tree of vector shapes.
//!
//! The scene is traversed depth-first by an explicit, resumable stack;
//! every visited node opens a compositing layer on the final surface and
//! closes it again, off-screen and hidden nodes are culled, and a
//! completed render is cached so that pure pan/zoom changes replay the
//! snapshot under an exact affine correction instead of re-rendering.
//! Surfaces are modelled as logs of drawing commands; the raster backend
//! that executes those commands, and the clock that drives the per-tick
//! time budget, live outside the crate and are injected by the host.

pub mod geometry;
pub mod laws;
pub mod paint;
pub mod render;
pub mod shadow;
pub mod shape;
pub mod surface;
pub mod viewbox;
