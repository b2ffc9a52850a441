//! Dimension-and-layout engine for polaroid-style prints.
//!
//! The library converts physical measurements (millimeters, held as exact
//! rationals) to pixel grids at a given resolution, selects one of three
//! fixed print templates from an image's pixel aspect ratio, and computes
//! the ordered sequence of geometric transforms (resize-to-fill-and-crop,
//! border, frame extension, centered composite onto an output page) as
//! pixel-space instructions for a raster backend to carry out.

pub mod layout;
pub mod units;
