//! Turns an RGB raster into ASCII art: downsample, reduce to gray
//! intensities, map each intensity onto a glyph ramp, and lay the glyphs
//! out as text.
pub mod glyph;
pub mod grid;
pub mod gray;
pub mod render;
pub mod resample;
pub mod pipeline;
