//! Renders the raw bytes of files — or of whole directory trees — as square
//! PNG rasters, one pixel (or one bit) per byte, for visual inspection of
//! binary data.
//!
//! The pipeline: the planner fixes the square dimension from the total input
//! size and the color mode's multiplier; the transcoder maps raw bytes to
//! pixel channel bytes; the compositor streams every source into one
//! contiguous pixel buffer and pads it to exactly
//! `dimension^2 * bytes_per_pixel` bytes; the raster sink encodes the buffer
//! as a PNG file.

pub mod compositor;
pub mod fstree;
pub mod mode;
pub mod output;
pub mod parse;
pub mod planner;
pub mod raster;
pub mod transcode;
