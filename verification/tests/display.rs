use led_scroll::display::Display;
use led_scroll::frame::Frame;
use led_scroll::scroll::ScrollingText;
use led_scroll::system::animation_step;

#[test]
fn frame_starts_dark_and_keeps_levels() {
    let mut frame = Frame::new();
    for row in 0..5 {
        for col in 0..5 {
            assert_eq!(frame.get(row, col), 0);
        }
    }
    frame.set(1, 3, 7);
    assert_eq!(frame.get(1, 3), 7);
    assert_eq!(frame.get(3, 1), 0);
}

#[test]
fn frame_equality_is_pixel_for_pixel() {
    let mut a = Frame::new();
    let b = Frame::new();
    assert!(a.eq_frame(&b));
    a.set(4, 4, 1);
    assert!(!a.eq_frame(&b));
    a.set(4, 4, 0);
    assert!(a.eq_frame(&b));
}

#[test]
fn cursor_cycles_over_all_rows_without_repeats() {
    let mut display = Display::new();
    let mut seen = [false; 5];
    let mut rows = Vec::new();
    for _ in 0..5 {
        let line = display.handle_display_event();
        assert!(line.row < 5);
        assert!(!seen[line.row], "row repeated within one cycle");
        seen[line.row] = true;
        rows.push(line.row);
    }
    assert!(seen.iter().all(|&s| s), "a row was skipped within one cycle");
    let line = display.handle_display_event();
    assert_eq!(line.row, rows[0], "the cycle must repeat from its start");
}

#[test]
fn scan_line_has_one_output_per_column() {
    let mut display = Display::new();
    for _ in 0..12 {
        let line = display.handle_display_event();
        assert_eq!(line.lit.len(), 5);
    }
}

#[test]
fn brightness_levels_set_the_duty_cycle() {
    let mut frame = Frame::new();
    frame.set(0, 0, 9);
    frame.set(0, 1, 5);
    frame.set(0, 2, 1);
    let mut display = Display::new();
    display.show_frame(frame);
    let mut lit_full = 0;
    let mut lit_half = 0;
    let mut lit_faint = 0;
    let mut lit_dark = 0;
    // Nine full refresh cycles visit every pulse-width-modulation phase once.
    for _ in 0..45 {
        let line = display.handle_display_event();
        if line.row == 0 {
            if line.lit[0] {
                lit_full += 1;
            }
            if line.lit[1] {
                lit_half += 1;
            }
            if line.lit[2] {
                lit_faint += 1;
            }
            if line.lit[3] {
                lit_dark += 1;
            }
        }
    }
    assert_eq!(lit_full, 9);
    assert_eq!(lit_half, 5);
    assert_eq!(lit_faint, 1);
    assert_eq!(lit_dark, 0);
}

#[test]
fn show_frame_replaces_the_scanned_image() {
    let mut display = Display::new();
    let mut frame = Frame::new();
    for col in 0..5 {
        frame.set(0, col, 9);
    }
    display.show_frame(frame);
    let line = display.handle_display_event();
    assert_eq!(line.row, 0);
    assert!(line.lit.iter().all(|&l| l));
    let line = display.handle_display_event();
    assert_eq!(line.row, 1);
    assert!(line.lit.iter().all(|&l| !l));
}

#[test]
fn animation_step_drives_the_display_from_the_ticked_state() {
    let mut scroller = ScrollingText::new();
    scroller.set_message(b"HI");
    let mut display = Display::new();
    animation_step(&mut scroller, &mut display);

    // The image now installed must match the animator one tick in.
    let mut expected = ScrollingText::new();
    expected.set_message(b"HI");
    expected.tick();
    let mut expected_frame = Frame::new();
    expected.render_into(&mut expected_frame);

    for _ in 0..5 {
        let line = display.handle_display_event();
        for col in 0..5 {
            // Rendered levels are either full or dark, so one scan suffices.
            assert_eq!(line.lit[col], expected_frame.get(line.row, col) == 9);
        }
    }
}

#[test]
fn animation_step_resets_a_finished_pass() {
    let mut scroller = ScrollingText::new();
    scroller.set_message(b"HI");
    let mut display = Display::new();
    for _ in 0..15 {
        animation_step(&mut scroller, &mut display);
    }
    assert!(scroller.is_finished());
    animation_step(&mut scroller, &mut display);
    assert!(!scroller.is_finished());
}
