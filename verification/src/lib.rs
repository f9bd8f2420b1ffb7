//! Plays an animated raster image as coloured terminal glyphs.
//!
//! The crate holds the frame pipeline (decode, fit to the terminal, map
//! pixels to glyphs) and the decisions of the playback loop; the terminal
//! itself is driven by the caller.
//!
//! - `loader` decodes the bytes of a GIF file into raw frames.
//! - `geometry`, `resample`, `render` and `glyph` are the steps of fitting
//!   one frame; `fitter` puts them together for a whole animation.
//! - `screen` measures what a text takes of the terminal.
//! - `player` decides what the playback loop does next.
//! - `session` holds the rules around a run: which file is accepted, and
//!   which exit code a run ends with.

pub mod fitter;
pub mod frame;
pub mod geometry;
pub mod glyph;
pub mod loader;
pub mod player;
pub mod render;
pub mod resample;
pub mod screen;
pub mod session;
