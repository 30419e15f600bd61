//! Scheduling and canvas rendering for a low-power e-ink picture frame.
//!
//! The library decides which stored artwork the frame shows next, fits an
//! arbitrary source image into the panel's canvas (aspect-preserving scale,
//! centered over a solid background), optionally reduces it to black and
//! white by ordered dithering, and frames the result for transmission.

pub mod geometry;
pub mod ingest;
pub mod model;
pub mod render;
pub mod raster;
pub mod codec;
pub mod dither;
pub mod error;
pub mod gallery;
pub mod sequencer;
pub mod service;
