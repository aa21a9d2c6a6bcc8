//! A brightness frame: one complete still image for the LED matrix.

use vstd::prelude::*;

use crate::COLS;
use crate::MAX_BRIGHTNESS;
use crate::ROWS;

verus! {

/// One complete brightness image for the LED matrix, stored row-major:
/// one level per LED, row 0 first.
pub struct Frame {
    levels: Vec<u8>,
}

/// Position of coordinate (row, col) in the row-major level sequence.
pub open spec fn pixel_index(row: int, col: int) -> int {
    row * (COLS as int) + col
}

impl View for Frame {
    type V = Seq<u8>;

    closed spec fn view(&self) -> Seq<u8> {
        self.levels@
    }
}

impl Frame {
    /// Every coordinate within bounds has a defined brightness level in range.
    pub open spec fn wf(&self) -> bool {
        &&& self@.len() == ROWS * COLS
        &&& forall|i: int| 0 <= i < self@.len() ==> self@[i] <= MAX_BRIGHTNESS
    }

    /// A frame with every pixel dark.
    pub fn new() -> (frame: Frame)
        ensures
            frame.wf(),
            forall|i: int| 0 <= i < frame@.len() ==> frame@[i] == 0,
    {
        let mut levels: Vec<u8> = Vec::new();
        let mut i: usize = 0;
        while i < ROWS * COLS
            invariant
                i <= ROWS * COLS,
                levels@.len() == i,
                forall|j: int| 0 <= j < i ==> levels@[j] == 0,
            decreases ROWS * COLS - i,
        {
            levels.push(0);
            i = i + 1;
        }
        Frame { levels }
    }

    /// Brightness level of the pixel at (row, col).
    pub fn get(&self, row: usize, col: usize) -> (level: u8)
        requires
            self.wf(),
            row < ROWS,
            col < COLS,
        ensures
            level == self@[pixel_index(row as int, col as int)],
    {
        self.levels[row * COLS + col]
    }

    /// Sets the pixel at (row, col) to the given brightness level.
    pub fn set(&mut self, row: usize, col: usize, level: u8)
        requires
            old(self).wf(),
            row < ROWS,
            col < COLS,
            level <= MAX_BRIGHTNESS,
        ensures
            final(self).wf(),
            final(self)@ == old(self)@.update(pixel_index(row as int, col as int), level),
    {
        let i: usize = row * COLS + col;
        self.levels.set(i, level);
    }

    /// Whether two frames hold the same image, pixel for pixel.
    pub fn eq_frame(&self, other: &Frame) -> (r: bool)
        requires
            self.wf(),
            other.wf(),
        ensures
            r == (self@ == other@),
    {
        let mut i: usize = 0;
        while i < ROWS * COLS
            invariant
                self.wf(),
                other.wf(),
                i <= ROWS * COLS,
                forall|j: int| 0 <= j < i ==> self@[j] == other@[j],
            decreases ROWS * COLS - i,
        {
            if self.levels[i] != other.levels[i] {
                return false;
            }
            i = i + 1;
        }
        proof {
            assert(self@ =~= other@);
        }
        true
    }
}

} // verus!
