//! The display multiplexer: owns the current frame, a scan-line cursor and a
//! pulse-width-modulation phase, and on each high-frequency timer event
//! produces the outputs for exactly one scan-line of the matrix.

use vstd::prelude::*;

use crate::frame::pixel_index;
use crate::frame::Frame;
use crate::COLS;
use crate::MAX_BRIGHTNESS;
use crate::ROWS;

verus! {

/// Mathematical state of the multiplexer: the current image, the scan-line
/// cursor and the pulse-width-modulation phase.
#[verifier::ext_equal]
pub struct DisplayState {
    pub frame: Seq<u8>,
    pub cursor: int,
    pub phase: int,
}

/// The multiplexer's invariant: a well-formed frame, a cursor within the
/// matrix rows, and a phase within the pulse-width-modulation slots.
pub open spec fn display_inv(d: DisplayState) -> bool {
    &&& d.frame.len() == ROWS * COLS
    &&& forall|i: int| 0 <= i < d.frame.len() ==> d.frame[i] <= MAX_BRIGHTNESS
    &&& 0 <= d.cursor < ROWS
    &&& 0 <= d.phase < MAX_BRIGHTNESS
}

/// The scan-line cursor after one display event: one row further, wrapping
/// over the matrix rows.
pub open spec fn next_cursor(c: int) -> int {
    if c + 1 < ROWS {
        c + 1
    } else {
        0
    }
}

/// The pulse-width-modulation phase after one display event: it advances,
/// wrapping over the slots, each time the cursor wraps to row zero.
pub open spec fn next_phase(cursor_now: int, phase: int) -> int {
    if cursor_now == 0 {
        if phase + 1 < MAX_BRIGHTNESS {
            phase + 1
        } else {
            0
        }
    } else {
        phase
    }
}

/// Whether the LED of the scanned row at the given column is asserted: a
/// pixel of level `b` is lit during exactly `b` of the `MAX_BRIGHTNESS`
/// phases.
pub open spec fn lit_at(d: DisplayState, col: int) -> bool {
    d.frame[pixel_index(d.cursor, col)] > d.phase
}

/// The outputs to drive for one scan-line: the row to activate and, for each
/// column, whether its LED is asserted during this event.
pub struct ScanLine {
    pub row: usize,
    pub lit: Vec<bool>,
}

/// The display multiplexer. It owns the frame being shown; `show_frame`
/// installs a new image, and `handle_display_event` advances the scan-line
/// cursor and yields the outputs for exactly that row.
pub struct Display {
    frame: Frame,
    cursor: usize,
    phase: u8,
}

impl View for Display {
    type V = DisplayState;

    closed spec fn view(&self) -> DisplayState {
        DisplayState { frame: self.frame@, cursor: self.cursor as int, phase: self.phase as int }
    }
}

impl Display {
    /// A multiplexer showing a dark frame, positioned so that the first
    /// display event scans row zero.
    pub fn new() -> (d: Display)
        ensures
            display_inv(d@),
            d@.cursor == ROWS - 1,
            d@.phase == 0,
            forall|i: int| 0 <= i < d@.frame.len() ==> d@.frame[i] == 0,
    {
        Display { frame: Frame::new(), cursor: ROWS - 1, phase: 0 }
    }

    /// Installs a new frame as the source for subsequent scan-line rendering;
    /// the scan position is kept.
    pub fn show_frame(&mut self, frame: Frame)
        requires
            display_inv(old(self)@),
            frame.wf(),
        ensures
            display_inv(final(self)@),
            final(self)@.frame == frame@,
            final(self)@.cursor == old(self)@.cursor,
            final(self)@.phase == old(self)@.phase,
    {
        self.frame = frame;
    }

    /// Handles one high-frequency timer event: advances the scan-line cursor
    /// (wrapping over the rows, and stepping the pulse-width-modulation phase
    /// on each wrap) and returns the outputs to drive for exactly that row.
    pub fn handle_display_event(&mut self) -> (line: ScanLine)
        requires
            display_inv(old(self)@),
        ensures
            display_inv(final(self)@),
            final(self)@.frame == old(self)@.frame,
            final(self)@.cursor == next_cursor(old(self)@.cursor),
            final(self)@.phase == next_phase(final(self)@.cursor, old(self)@.phase),
            line.row == final(self)@.cursor,
            line.lit@.len() == COLS,
            forall|c: int| 0 <= c < COLS ==> line.lit@[c] == lit_at(final(self)@, c),
    {
        let row: usize = if self.cursor + 1 < ROWS {
            self.cursor + 1
        } else {
            0
        };
        let phase: u8 = if row == 0 {
            if self.phase + 1 < MAX_BRIGHTNESS {
                self.phase + 1
            } else {
                0
            }
        } else {
            self.phase
        };
        let mut lit: Vec<bool> = Vec::new();
        let mut c: usize = 0;
        while c < COLS
            invariant
                display_inv(self@),
                row < ROWS,
                phase < MAX_BRIGHTNESS,
                c <= COLS,
                lit@.len() == c,
                forall|k: int|
                    0 <= k < c ==> lit@[k] == (self@.frame[pixel_index(row as int, k)]
                        > phase as int),
            decreases COLS - c,
        {
            let level: u8 = self.frame.get(row, c);
            lit.push(level > phase);
            c = c + 1;
        }
        self.cursor = row;
        self.phase = phase;
        ScanLine { row, lit }
    }
}

} // verus!
