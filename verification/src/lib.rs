//! Deterministic 16-color terminal theme generator.
//!
//! From eight scalar parameters (given as the bit patterns of `f32` values)
//! the library computes the 16 ANSI palette slots — 8 "normal" and 8
//! "bright" — in the Oklch perceptual color space, converts each to an
//! 8-bit sRGB display color, picks a legible ink color for each slot, and
//! renders the palette as structured `name = "#rrggbb"` text.
pub mod color;
pub mod floatbits;
pub mod render;
pub mod theme;
