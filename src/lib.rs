//! Turns an encoded raster image into a compact palette-indexed PNG.
//!
//! The pipeline decodes the input, checks and normalises the raster, has an
//! external engine pick a palette of at most 256 colours and an index per
//! pixel, splits that palette into colour and opacity tables, and assembles
//! an 8-bit indexed PNG whose every chunk is checked against an exact model
//! (order, lengths, checksums, header and tables) before the bytes are handed
//! back.
use vstd::prelude::*;

pub mod types;
pub mod params;
pub mod raster;
pub mod palette;
pub mod png_layout;
pub mod engine;
pub mod pipeline;

