//! Core logic of a screen-capture-and-annotate tool.
//!
//! The library models pointer coordinates, capture regions and annotation
//! shapes as plain integers, keeps the shape-editing state machine that turns
//! pointer gestures into persisted vector shapes, and rasterizes the outline
//! shapes onto a pixel buffer through the `image` and `imageproc` crates.
//! The windowing front end around it only forwards pointer events and plain
//! values in and out.

pub mod geometry;
pub mod hotkeys;
pub mod painting;
pub mod raster;
pub mod session;
