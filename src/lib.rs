//! Image recompression previews: pixel extraction, candidate selection,
//! response packaging and uniform error envelopes.

pub mod error;
pub mod pixels;
pub mod engine;
pub mod package;
pub mod lossless;
