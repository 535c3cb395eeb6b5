//! Terminal raster graphics: converts RGBA pixel buffers into truecolor
//! escape-coded text, in single-pixel or half-pixel density, and paces
//! real-time video playback with adaptive frame skipping.
pub mod buffer;
pub mod cell;
pub mod encode;
pub mod media;
pub mod pacer;
pub mod raster;
pub mod render;
pub mod session;

