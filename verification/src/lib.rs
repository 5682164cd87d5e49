//! Colour model and palette engine: colour components, an RGBA colour with
//! perceptual accessors, selection utilities over collections of colours,
//! contrast correction and the derivation of terminal palettes.

pub mod args;
pub mod color;
pub mod config;
pub mod extract;
pub mod extrapolate;
pub mod plop;
