//! Rendering of raster images as ASCII art.
//!
//! A [`Raster`] holds the decoded pixels of an image. [`resize`] resamples it
//! to a requested size, and [`convert`] maps every pixel to a glyph of a
//! character ramp by its luminance, one line of text per pixel row.

pub mod convert;
pub mod files;
pub mod ramp;
pub mod raster;
pub mod resize;
pub mod resolution;
pub mod text;

pub use convert::convert;
pub use files::{output_file_name, supported_extension};
pub use ramp::{glyph_index, luminance, quantize, ramp_chars, Charset, LARGE_RAMP, SMALL_RAMP};
pub use raster::{Grid, Raster};
pub use resize::{preprocessing, preview, resize};
pub use resolution::{parse_resolution, ConfigError};
