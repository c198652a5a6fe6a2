//! Assembly of animated GIF byte streams from raw RGBA frames.
//!
//! The library validates the caller's parameters and buffer geometry, derives
//! the uniform inter-frame delay, partitions the flat pixel buffer into
//! per-frame rasters, and submits each raster in order to a palette/LZW
//! encoding engine that writes one timed image block into the growing
//! container stream. The encoding engine itself (color quantization and LZW
//! compression, provided by the `gif` crate) is consumed as a capability
//! behind a small set of trusted wrappers; everything around it is verified.

pub mod codec;
pub mod errors;
pub mod numfmt;
pub mod pipeline;
pub mod request;
pub mod timing;
