//! Core of a scrolling-text driver for a small LED matrix.
//!
//! The library is split into two cooperating state machines:
//! a scrolling-text animator that advances a logical text window once per
//! animation tick and renders it into a brightness frame, and a display
//! multiplexer that owns the current frame and, on each high-frequency timer
//! event, drives exactly one scan-line of the physical matrix.
//! Board initialisation, timers and the electrical outputs stay outside; the
//! library exposes plain state transitions and scan-line data to that layer.

pub mod display;
pub mod font;
pub mod frame;
pub mod laws;
pub mod scroll;
pub mod system;

use vstd::prelude::*;

verus! {

/// Number of rows of the physical LED matrix.
pub const ROWS: usize = 5;

/// Number of columns of the physical LED matrix.
pub const COLS: usize = 5;

/// Width of one glyph in columns; the scroll offset advances one column per tick.
pub const GLYPH_WIDTH: usize = 5;

/// Number of blank columns appended after the last glyph, so that the text
/// scrolls fully off the matrix before a pass is considered complete.
pub const TRAILING_BLANK_COLUMNS: usize = 5;

/// Largest brightness level of a pixel; level 0 is dark. A pixel of level `b`
/// is lit during `b` of the `MAX_BRIGHTNESS` pulse-width-modulation slots of a
/// full refresh cycle, so level `MAX_BRIGHTNESS` is lit in every slot.
pub const MAX_BRIGHTNESS: u8 = 9;

/// Capacity of the animator's message buffer in bytes; longer messages are
/// truncated to this prefix.
pub const MESSAGE_CAPACITY: usize = 64;

} // verus!
