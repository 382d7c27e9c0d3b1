//! A verified layout engine for an immediate-mode timeline/sequencer widget.
//!
//! The library maps an abstract frame range onto pixel space, decimates
//! ruler ticks as the zoom changes, and derives the full ordered list of
//! draw primitives (rectangles, lines, text) for one rendered frame.
//! The host GUI toolkit is kept outside: it supplies the canvas geometry
//! and performs the actual draw calls.

pub mod decimation;
pub mod geometry;
pub mod layout;
pub mod model;
pub mod options;
pub mod searchbar;
pub mod style;
pub mod wrap;
