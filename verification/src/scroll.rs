//! The scrolling-text animator: a message buffer, a scroll offset and a
//! completion flag, with rendering of the visible window into a frame.

use vstd::prelude::*;

use crate::font::glyph_pixel;
use crate::font::glyph_pixel_at;
use crate::frame::Frame;
use crate::COLS;
use crate::GLYPH_WIDTH;
use crate::MAX_BRIGHTNESS;
use crate::MESSAGE_CAPACITY;
use crate::ROWS;
use crate::TRAILING_BLANK_COLUMNS;

verus! {

/// Mathematical state of the animator: the stored message, the scroll offset
/// in columns, and the completion flag.
#[verifier::ext_equal]
pub struct ScrollState {
    pub message: Seq<u8>,
    pub offset: int,
    pub finished: bool,
}

/// Number of column-steps of one full pass: every column of every glyph,
/// followed by the configured run of trailing blank columns. An empty message
/// has nothing to scroll.
pub open spec fn total_scroll_len(message: Seq<u8>) -> int {
    if message.len() == 0 {
        0
    } else {
        message.len() * (GLYPH_WIDTH as int) + (TRAILING_BLANK_COLUMNS as int)
    }
}

/// The animator's invariant: the message fits the buffer, the offset stays
/// within one pass, and the completion flag is set only at the end of a pass.
pub open spec fn state_inv(s: ScrollState) -> bool {
    &&& s.message.len() <= MESSAGE_CAPACITY
    &&& 0 <= s.offset <= total_scroll_len(s.message)
    &&& s.finished ==> s.offset == total_scroll_len(s.message)
}

/// Truncation policy: a message longer than the buffer keeps exactly the
/// prefix that fits.
pub open spec fn truncate_message(message: Seq<u8>) -> Seq<u8> {
    if message.len() <= MESSAGE_CAPACITY {
        message
    } else {
        message.take(MESSAGE_CAPACITY as int)
    }
}

/// State right after a message is loaded: offset zero, not finished.
pub open spec fn loaded(message: Seq<u8>) -> ScrollState {
    ScrollState { message: truncate_message(message), offset: 0, finished: false }
}

/// One tick: the offset advances one column-step until the end of the pass;
/// the completion flag is set once the offset has reached the end.
pub open spec fn spec_ticked(s: ScrollState) -> ScrollState {
    let total = total_scroll_len(s.message);
    let advanced = if s.offset < total {
        s.offset + 1
    } else {
        s.offset
    };
    ScrollState { message: s.message, offset: advanced, finished: s.finished || advanced >= total }
}

/// State after a reset: the message is kept, the offset returns to zero and
/// the completion flag is cleared.
pub open spec fn reset_of(s: ScrollState) -> ScrollState {
    ScrollState { message: s.message, offset: 0, finished: false }
}

/// Whether the pixel at frame coordinate (row, col) is lit when the message
/// is shown at the given scroll offset: frame column `col` shows column
/// `offset + col` of the strip of glyphs, and columns past the end of the
/// strip are blank.
pub open spec fn rendered_on(message: Seq<u8>, offset: int, row: int, col: int) -> bool {
    let strip_col = offset + col;
    let glyph_at = strip_col / (GLYPH_WIDTH as int);
    let glyph_col = strip_col % (GLYPH_WIDTH as int);
    &&& 0 <= glyph_at < message.len()
    &&& glyph_pixel(message[glyph_at], row, glyph_col)
}

/// Brightness of the pixel at frame coordinate (row, col): lit glyph pixels
/// at full brightness, everything else dark.
pub open spec fn rendered_level(message: Seq<u8>, offset: int, row: int, col: int) -> u8 {
    if rendered_on(message, offset, row, col) {
        MAX_BRIGHTNESS
    } else {
        0
    }
}

/// The full image shown at the given scroll offset, row-major.
pub open spec fn render_view(message: Seq<u8>, offset: int) -> Seq<u8> {
    Seq::new(
        (ROWS * COLS) as nat,
        |i: int| rendered_level(message, offset, i / (COLS as int), i % (COLS as int)),
    )
}

/// The scrolling-text animator. It owns a fixed-capacity message buffer, a
/// scroll offset counting the column-steps already applied, and a completion
/// flag; `tick` advances the offset, `render_into` draws the visible window.
pub struct ScrollingText {
    message: Vec<u8>,
    offset: usize,
    finished: bool,
}

impl View for ScrollingText {
    type V = ScrollState;

    closed spec fn view(&self) -> ScrollState {
        ScrollState { message: self.message@, offset: self.offset as int, finished: self.finished }
    }
}

impl ScrollingText {
    /// An animator with an empty message.
    pub fn new() -> (s: ScrollingText)
        ensures
            s@ == loaded(Seq::<u8>::empty()),
            state_inv(s@),
    {
        ScrollingText { message: Vec::new(), offset: 0, finished: false }
    }

    /// Replaces the message with the given bytes, truncated to the buffer
    /// capacity; the offset returns to zero and the completion flag is
    /// cleared.
    pub fn set_message(&mut self, bytes: &[u8])
        ensures
            final(self)@ == loaded(bytes@),
            state_inv(final(self)@),
    {
        let keep: usize = if bytes.len() < MESSAGE_CAPACITY {
            bytes.len()
        } else {
            MESSAGE_CAPACITY
        };
        self.message = Vec::new();
        let mut i: usize = 0;
        while i < keep
            invariant
                i <= keep,
                keep <= bytes@.len(),
                self.message@ == bytes@.take(i as int),
            decreases keep - i,
        {
            let b: u8 = bytes[i];
            self.message.push(b);
            i = i + 1;
        }
        self.offset = 0;
        self.finished = false;
    }

    /// Number of column-steps in one full pass over the current message.
    pub fn total_scroll_columns(&self) -> (n: usize)
        requires
            state_inv(self@),
        ensures
            n == total_scroll_len(self@.message),
    {
        if self.message.len() == 0 {
            0
        } else {
            self.message.len() * GLYPH_WIDTH + TRAILING_BLANK_COLUMNS
        }
    }

    /// Advances the scroll by one column-step; once the offset has reached
    /// the end of the pass, sets the completion flag and advances no further.
    pub fn tick(&mut self)
        requires
            state_inv(old(self)@),
        ensures
            final(self)@ == spec_ticked(old(self)@),
            state_inv(final(self)@),
    {
        let total: usize = self.total_scroll_columns();
        if self.offset < total {
            self.offset = self.offset + 1;
        }
        if self.offset >= total {
            self.finished = true;
        }
    }

    /// Whether the scroll has fully passed.
    pub fn is_finished(&self) -> (r: bool)
        ensures
            r == self@.finished,
    {
        self.finished
    }

    /// Returns the offset to zero and clears the completion flag, enabling a
    /// new pass without re-supplying the message.
    pub fn reset(&mut self)
        requires
            state_inv(old(self)@),
        ensures
            final(self)@ == reset_of(old(self)@),
            state_inv(final(self)@),
    {
        self.offset = 0;
        self.finished = false;
    }

    /// Draws the window of the message visible at the current offset into the
    /// frame: every in-bounds coordinate receives a level, glyph pixels at
    /// full brightness and all other columns blank.
    pub fn render_into(&self, frame: &mut Frame)
        requires
            state_inv(self@),
            old(frame).wf(),
        ensures
            final(frame).wf(),
            final(frame)@ == render_view(self@.message, self@.offset),
    {
        let mut i: usize = 0;
        while i < ROWS * COLS
            invariant
                state_inv(self@),
                frame.wf(),
                i <= ROWS * COLS,
                forall|k: int|
                    0 <= k < i ==> frame@[k] == render_view(self@.message, self@.offset)[k],
            decreases ROWS * COLS - i,
        {
            let row: usize = i / COLS;
            let col: usize = i % COLS;
            let strip_col: usize = self.offset + col;
            let glyph_at: usize = strip_col / GLYPH_WIDTH;
            let glyph_col: usize = strip_col % GLYPH_WIDTH;
            let level: u8 = if glyph_at < self.message.len() {
                if glyph_pixel_at(self.message[glyph_at], row, glyph_col) {
                    MAX_BRIGHTNESS
                } else {
                    0
                }
            } else {
                0
            };
            frame.set(row, col, level);
            i = i + 1;
        }
        proof {
            assert(frame@ =~= render_view(self@.message, self@.offset));
        }
    }
}

impl Default for ScrollingText {
    /// An animator with an empty message.
    fn default() -> (s: Self)
        ensures
            s@ == loaded(Seq::<u8>::empty()),
            state_inv(s@),
    {
        ScrollingText::new()
    }
}

} // verus!
