use led_scroll::frame::Frame;
use led_scroll::scroll::ScrollingText;

// "HI" is two glyphs of five columns plus five trailing blank columns.
const HI_TOTAL: usize = 2 * 5 + 5;

fn render(s: &ScrollingText) -> Frame {
    let mut frame = Frame::new();
    s.render_into(&mut frame);
    frame
}

#[test]
fn new_animator_is_empty_and_unfinished() {
    let s = ScrollingText::new();
    assert!(!s.is_finished());
    assert_eq!(s.total_scroll_columns(), 0);
}

#[test]
fn empty_message_finishes_after_exactly_one_tick() {
    let mut s = ScrollingText::new();
    s.set_message(b"");
    assert!(!s.is_finished());
    s.tick();
    assert!(s.is_finished());
    s.tick();
    assert!(s.is_finished());
}

#[test]
fn completion_after_exactly_total_scroll_length() {
    let mut s = ScrollingText::new();
    s.set_message(b"HI");
    assert_eq!(s.total_scroll_columns(), HI_TOTAL);
    for _ in 0..HI_TOTAL - 1 {
        s.tick();
        assert!(!s.is_finished());
    }
    s.tick();
    assert!(s.is_finished());
}

#[test]
fn finished_state_holds_until_reset() {
    let mut s = ScrollingText::new();
    s.set_message(b"HI");
    for _ in 0..HI_TOTAL {
        s.tick();
    }
    assert!(s.is_finished());
    let at_end = render(&s);
    s.tick();
    assert!(s.is_finished());
    assert!(render(&s).eq_frame(&at_end));
}

#[test]
fn reset_restores_initial_rendering() {
    let mut s = ScrollingText::new();
    s.set_message(b"HI");
    let initial = render(&s);
    for _ in 0..HI_TOTAL {
        s.tick();
    }
    assert!(s.is_finished());
    s.reset();
    assert!(!s.is_finished());
    let after_reset = render(&s);
    assert!(after_reset.eq_frame(&initial));
}

#[test]
fn truncation_renders_like_the_truncated_prefix() {
    let mut long_bytes = Vec::new();
    for i in 0..70u8 {
        long_bytes.push(b'A' + i % 26);
    }
    let prefix: Vec<u8> = long_bytes[..64].to_vec();

    let mut long = ScrollingText::new();
    long.set_message(&long_bytes);
    let mut short = ScrollingText::new();
    short.set_message(&prefix);

    assert_eq!(long.total_scroll_columns(), short.total_scroll_columns());
    assert!(render(&long).eq_frame(&render(&short)));
    for _ in 0..17 {
        long.tick();
        short.tick();
        assert_eq!(long.is_finished(), short.is_finished());
        assert!(render(&long).eq_frame(&render(&short)));
    }
}

#[test]
fn message_exactly_at_capacity_is_kept_whole() {
    let bytes = [b'Z'; 64];
    let mut s = ScrollingText::new();
    s.set_message(&bytes);
    assert_eq!(s.total_scroll_columns(), 64 * 5 + 5);
}

#[test]
fn hi_at_offset_zero_shows_the_leading_glyph() {
    let mut s = ScrollingText::new();
    s.set_message(b"HI");
    let frame = render(&s);
    // The left edge and right stroke of 'H' are lit in every row ...
    for row in 0..5 {
        assert_eq!(frame.get(row, 0), 9);
        assert_eq!(frame.get(row, 3), 9);
    }
    // ... the crossbar only in the middle row, and the spacing column is blank.
    assert_eq!(frame.get(2, 1), 9);
    assert_eq!(frame.get(2, 2), 9);
    for row in 0..5 {
        if row != 2 {
            assert_eq!(frame.get(row, 1), 0);
            assert_eq!(frame.get(row, 2), 0);
        }
        assert_eq!(frame.get(row, 4), 0);
    }
}

#[test]
fn one_glyph_width_of_ticks_scrolls_the_leading_glyph_off() {
    let mut hi = ScrollingText::new();
    hi.set_message(b"HI");
    for _ in 0..5 {
        hi.tick();
    }
    let mut just_i = ScrollingText::new();
    just_i.set_message(b"I");
    assert!(render(&hi).eq_frame(&render(&just_i)));
}

#[test]
fn unsupported_characters_render_blank() {
    let mut s = ScrollingText::new();
    s.set_message(b"~");
    let frame = render(&s);
    for row in 0..5 {
        for col in 0..5 {
            assert_eq!(frame.get(row, col), 0);
        }
    }
}

#[test]
fn lowercase_letters_share_the_uppercase_glyphs() {
    let mut lower = ScrollingText::new();
    lower.set_message(b"hi");
    let mut upper = ScrollingText::new();
    upper.set_message(b"HI");
    for _ in 0..8 {
        assert!(render(&lower).eq_frame(&render(&upper)));
        lower.tick();
        upper.tick();
    }
}

#[test]
fn columns_past_the_strip_render_blank() {
    let mut s = ScrollingText::new();
    s.set_message(b"I");
    // Advance until only the last glyph column is still on the matrix.
    for _ in 0..4 {
        s.tick();
    }
    let frame = render(&s);
    // Column 0 shows the last glyph column; the glyph 'I' is blank there.
    // Everything right of the strip is blank as well.
    for row in 0..5 {
        for col in 1..5 {
            assert_eq!(frame.get(row, col), 0);
        }
    }
}

#[test]
fn default_matches_new() {
    let d = ScrollingText::default();
    let n = ScrollingText::new();
    assert_eq!(d.is_finished(), n.is_finished());
    assert_eq!(d.total_scroll_columns(), n.total_scroll_columns());
    assert!(render(&d).eq_frame(&render(&n)));
}
