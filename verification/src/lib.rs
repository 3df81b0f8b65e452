//! Image-to-text art: converts a decoded raster image into a grid of
//! characters, each approximating the brightness of one block of source
//! pixels.
//!
//! The pipeline: plan the target raster size that preserves the source's
//! aspect ratio under non-square character cells (`geometry`), have the
//! image-processing crate grayscale and resample the image to that size
//! (`raster`, the trusted boundary), sample and quantize every pixel into
//! a glyph of the caller's charset and serialize the grid (`quantize`,
//! `ascii`, `render`). Where the image comes from a fetched response,
//! `acquire` decides the decode format and decodes the bytes; the fetching
//! itself, like all I/O, is the caller's.

pub mod acquire;
pub mod ascii;
pub mod geometry;
pub mod params;
pub mod quantize;
pub mod raster;
pub mod render;
