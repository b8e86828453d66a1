//! Pixel color transforms (luminosity grayscale and opacity blending) and the
//! PNG to GIF conversion around them.

pub mod color;
pub mod buffer;
pub mod codec;
