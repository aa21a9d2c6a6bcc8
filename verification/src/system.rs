//! The decision taken on each low-frequency animation tick, binding the
//! animator to the multiplexer. The surrounding interrupt layer only clears
//! the pending timer event and calls this step under the lock that guards the
//! display.

use vstd::prelude::*;

use crate::display::display_inv;
use crate::display::Display;
use crate::frame::Frame;
use crate::scroll::render_view;
use crate::scroll::reset_of;
use crate::scroll::spec_ticked;
use crate::scroll::state_inv;
use crate::scroll::ScrollingText;

verus! {

/// One animation step. While the pass is not finished, the animator advances
/// one column-step and the freshly rendered window becomes the multiplexer's
/// image; once the pass has finished, the animator is reset instead and the
/// shown image is left alone, so the same message scrolls again.
pub fn animation_step(scroller: &mut ScrollingText, display: &mut Display)
    requires
        state_inv(old(scroller)@),
        display_inv(old(display)@),
    ensures
        state_inv(final(scroller)@),
        display_inv(final(display)@),
        !old(scroller)@.finished ==> final(scroller)@ == spec_ticked(old(scroller)@),
        !old(scroller)@.finished ==> final(display)@.frame == render_view(
            final(scroller)@.message,
            final(scroller)@.offset,
        ),
        !old(scroller)@.finished ==> final(display)@.cursor == old(display)@.cursor
            && final(display)@.phase == old(display)@.phase,
        old(scroller)@.finished ==> final(scroller)@ == reset_of(old(scroller)@)
            && final(display)@ == old(display)@,
{
    if !scroller.is_finished() {
        scroller.tick();
        let mut frame = Frame::new();
        scroller.render_into(&mut frame);
        display.show_frame(frame);
    } else {
        scroller.reset();
    }
}

} // verus!
