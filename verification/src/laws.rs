//! Laws of the two state machines, stated over the spec-level transitions and
//! proved once and for all: totality of rendering, the completion boundary,
//! what reset restores, the empty-message and truncation policies, and the
//! scan-line cursor cycle.

use vstd::prelude::*;

use crate::display::next_cursor;
use crate::scroll::loaded;
use crate::scroll::render_view;
use crate::scroll::reset_of;
use crate::scroll::spec_ticked;
use crate::scroll::state_inv;
use crate::scroll::total_scroll_len;
use crate::scroll::ScrollState;
use crate::COLS;
use crate::MAX_BRIGHTNESS;
use crate::MESSAGE_CAPACITY;
use crate::ROWS;

verus! {

/// The animator state after `n` ticks.
pub open spec fn ticked_n(s: ScrollState, n: nat) -> ScrollState
    decreases n,
{
    if n == 0 {
        s
    } else {
        spec_ticked(ticked_n(s, (n - 1) as nat))
    }
}

/// The scan-line cursor after `k` display events.
pub open spec fn cursor_after(c0: int, k: nat) -> int
    decreases k,
{
    if k == 0 {
        c0
    } else {
        next_cursor(cursor_after(c0, (k - 1) as nat))
    }
}

/// Rendering is total: at every offset the image defines, for every
/// coordinate of the matrix, one brightness level within range.
pub proof fn lemma_render_total(message: Seq<u8>, offset: int)
    ensures
        render_view(message, offset).len() == ROWS * COLS,
        forall|i: int|
            0 <= i < render_view(message, offset).len() ==> render_view(message, offset)[i]
                <= MAX_BRIGHTNESS,
{
}

/// Ticking from a fresh pass: after `n` ticks the offset has advanced `n`
/// column-steps, capped at the pass length, and the pass is finished exactly
/// once at least one tick has reached that length.
pub proof fn lemma_ticked_n_state(s: ScrollState, n: nat)
    requires
        state_inv(s),
        s.offset == 0,
        !s.finished,
    ensures
        state_inv(ticked_n(s, n)),
        ticked_n(s, n).message == s.message,
        ticked_n(s, n).offset == if n <= total_scroll_len(s.message) {
            n as int
        } else {
            total_scroll_len(s.message)
        },
        ticked_n(s, n).finished == (n >= 1 && n >= total_scroll_len(s.message)),
    decreases n,
{
    if n > 0 {
        lemma_ticked_n_state(s, (n - 1) as nat);
    }
}

/// Completion boundary of a non-empty message: ticking exactly the total
/// scroll length finishes the pass, and one tick fewer leaves it unfinished.
pub proof fn lemma_completion_boundary(s: ScrollState, n: nat)
    requires
        state_inv(s),
        s.offset == 0,
        !s.finished,
        s.message.len() > 0,
    ensures
        n == total_scroll_len(s.message) ==> ticked_n(s, n).finished,
        n < total_scroll_len(s.message) ==> !ticked_n(s, n).finished,
{
    lemma_ticked_n_state(s, n);
}

/// A tick of a finished pass changes nothing: the state machine holds at the
/// end of the pass until an explicit reset.
pub proof fn lemma_finished_is_stable(s: ScrollState)
    requires
        state_inv(s),
        s.finished,
    ensures
        spec_ticked(s) == s,
{
}

/// The ticks never change the message.
pub proof fn lemma_ticked_n_message(s: ScrollState, n: nat)
    ensures
        ticked_n(s, n).message == s.message,
    decreases n,
{
    if n > 0 {
        lemma_ticked_n_message(s, (n - 1) as nat);
    }
}

/// Reset after any number of ticks restores exactly the freshly loaded state,
/// and with it an image identical to the one before any tick.
pub proof fn lemma_reset_restores_initial(message: Seq<u8>, n: nat)
    ensures
        reset_of(ticked_n(loaded(message), n)) == loaded(message),
        render_view(reset_of(ticked_n(loaded(message), n)).message, 0) == render_view(
            loaded(message).message,
            loaded(message).offset,
        ),
{
    lemma_ticked_n_message(loaded(message), n);
}

/// Empty-message policy: a freshly loaded empty message is not yet finished,
/// and finishes after exactly one tick.
pub proof fn lemma_empty_message_one_tick()
    ensures
        !loaded(Seq::<u8>::empty()).finished,
        spec_ticked(loaded(Seq::<u8>::empty())).finished,
{
}

/// Truncation policy: loading a message longer than the buffer gives exactly
/// the state loaded from its truncated prefix, and so renders the identical
/// sequence of images.
pub proof fn lemma_truncation(message: Seq<u8>)
    requires
        message.len() > MESSAGE_CAPACITY,
    ensures
        loaded(message) == loaded(message.take(MESSAGE_CAPACITY as int)),
        forall|offset: int|
            render_view(loaded(message).message, offset) == render_view(
                loaded(message.take(MESSAGE_CAPACITY as int)).message,
                offset,
            ),
{
}

/// Closed form of the cursor cycle: within one cycle the cursor is the start
/// row moved `k` rows onward, wrapped once over the bottom of the matrix.
pub proof fn lemma_cursor_after_closed(c0: int, k: nat)
    requires
        0 <= c0 < ROWS,
        k <= ROWS,
    ensures
        cursor_after(c0, k) == if c0 + k < ROWS {
            c0 + k
        } else {
            c0 + k - ROWS
        },
    decreases k,
{
    if k > 0 {
        lemma_cursor_after_closed(c0, (k - 1) as nat);
    }
}

/// Within one cycle of display events the cursor never repeats a row.
pub proof fn lemma_cursor_distinct(c0: int, i: nat, j: nat)
    requires
        0 <= c0 < ROWS,
        i < j < ROWS,
    ensures
        cursor_after(c0, i) != cursor_after(c0, j),
{
    lemma_cursor_after_closed(c0, i);
    lemma_cursor_after_closed(c0, j);
}

/// Within one cycle of display events the cursor reaches every row.
pub proof fn lemma_cursor_covers(c0: int, row: int)
    requires
        0 <= c0 < ROWS,
        0 <= row < ROWS,
    ensures
        exists|k: nat| k < ROWS && cursor_after(c0, k) == row,
{
    let k: nat = if row >= c0 {
        (row - c0) as nat
    } else {
        (row + ROWS - c0) as nat
    };
    lemma_cursor_after_closed(c0, k);
    assert(k < ROWS && cursor_after(c0, k) == row);
}

/// After exactly one full cycle of display events the cursor repeats.
pub proof fn lemma_cursor_period(c0: int)
    requires
        0 <= c0 < ROWS,
    ensures
        cursor_after(c0, ROWS as nat) == c0,
{
    lemma_cursor_after_closed(c0, ROWS as nat);
}

} // verus!
