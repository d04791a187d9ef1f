use epd_console::{ConsoleBuffer, MonoBuf, RefreshStrategy, BUF_SIZE};

#[test]
fn stamped_line_format() {
    let mut b = ConsoleBuffer::new();
    let s = b.push_line_at("hello", 1500);
    assert_eq!(s, RefreshStrategy::Partial { new_lines: 1 });
    assert_eq!(b.history[0].as_str(), "[1.500] hello");

    let s2 = b.push_line_at("zero", 0);
    assert_eq!(s2, RefreshStrategy::Partial { new_lines: 2 });
    assert_eq!(b.history[1].as_str(), "[0.000] zero");

    let s3 = b.push_line_at("big", 987_654_321);
    assert_eq!(s3, RefreshStrategy::Partial { new_lines: 3 });
    assert_eq!(b.history[2].as_str(), "[987654.321] big");
}

#[test]
fn stamped_line_truncates_at_the_cap() {
    let mut b = ConsoleBuffer::new();
    let long: String = "x".repeat(200);
    b.push_line_at(&long, 2000);
    let line = b.history[0].as_str();
    assert_eq!(line.chars().count(), 96);
    assert!(line.starts_with("[2.000] xxx"));
}

#[test]
fn eviction_is_oldest_first() {
    let mut b = ConsoleBuffer::new();
    for i in 0..128usize {
        let msg = format!("line {}", i);
        let s = b.push_line_at(&msg, 0);
        assert_eq!(s, RefreshStrategy::Partial { new_lines: i + 1 });
    }
    assert_eq!(b.history.len(), 128);
    assert_eq!(b.history[0].as_str(), "[0.000] line 0");

    // The eviction push reports a full repaint, drops the oldest entry and
    // resets the new-line counter.
    let s = b.push_line_at("overflow", 0);
    assert_eq!(s, RefreshStrategy::Full);
    assert_eq!(b.history.len(), 127);
    assert_eq!(b.history[0].as_str(), "[0.000] line 1");
    assert_eq!(b.new_lines_count(), 0);
}

#[test]
fn push_with_real_clock() {
    let mut b = ConsoleBuffer::new();
    let s = b.push_line("stamped now");
    assert_eq!(s, RefreshStrategy::Partial { new_lines: 1 });
    let line = b.history[0].as_str();
    assert!(line.starts_with('['));
    assert!(line.ends_with("] stamped now"));
}

#[test]
fn render_resets_new_line_counter() {
    let mut b = ConsoleBuffer::new();
    for i in 0..5usize {
        let msg = format!("m{}", i);
        b.push_line_at(&msg, 0);
    }
    assert_eq!(b.new_lines_count(), 5);
    b.render();
    assert_eq!(b.new_lines_count(), 0);
    // Rendering again keeps it at zero.
    b.render();
    assert_eq!(b.new_lines_count(), 0);
}

#[test]
fn render_strokes_the_border() {
    let mut b = ConsoleBuffer::new();
    b.render();
    let fb = b.buffer();
    assert_eq!(fb.len(), BUF_SIZE);
    // Top and bottom rows are fully set.
    assert!(fb[0..100].iter().all(|x| *x == 0xFF));
    assert!(fb[47900..48000].iter().all(|x| *x == 0xFF));
    // A middle row has only its outermost pixels set.
    assert_eq!(fb[240 * 100], 0x80);
    assert_eq!(fb[240 * 100 + 99], 0x01);
    assert_eq!(fb[240 * 100 + 50], 0x00);
}

#[test]
fn render_without_border_is_blank_when_empty() {
    let mut b = ConsoleBuffer::new();
    b.set_border(false);
    b.render();
    assert!(b.buffer().iter().all(|x| *x == 0));
}

#[test]
fn render_draws_text_glyphs() {
    let mut b = ConsoleBuffer::new();
    b.set_border(false);
    b.push_line_at("A", 0);
    b.render();
    let fb = b.buffer();
    // The first line's band (rows 9..27) holds glyph pixels.
    let band: u32 = fb[9 * 100..27 * 100].iter().map(|x| *x as u32).sum();
    assert!(band > 0);
    // Below the band nothing is drawn.
    assert!(fb[27 * 100..].iter().all(|x| *x == 0));
}

#[test]
fn visible_line_count_caps_at_the_window() {
    let mut b = ConsoleBuffer::new();
    assert_eq!(b.visible_line_count(), 0);
    for i in 0..30usize {
        let msg = format!("m{}", i);
        b.push_line_at(&msg, 0);
    }
    assert_eq!(b.visible_line_count(), 25);
}

#[test]
fn partial_update_geometry() {
    let mut b = ConsoleBuffer::new();
    for i in 0..5usize {
        let msg = format!("m{}", i);
        b.push_line_at(&msg, 0);
    }
    // Five visible lines: repainting the last two starts under the first
    // three.
    assert_eq!(b.partial_update_height(2), 36);
    assert_eq!(b.partial_update_y_start(2), 9 + 3 * 18);
    // Repainting everything (and more) starts at the top margin, never
    // above it.
    assert_eq!(b.partial_update_y_start(5), 9);
    assert_eq!(b.partial_update_y_start(25), 9);
    assert_eq!(b.partial_update_height(0), 0);
    // The height formula holds far beyond the visible window, up to the
    // result type's range.
    assert_eq!(b.partial_update_height(10_000_000), 180_000_000);
    assert_eq!(b.partial_update_y_start(0), 9 + 5 * 18);
}

#[test]
fn extract_rect_matches_the_framebuffer() {
    let mut b = ConsoleBuffer::new();
    b.push_line_at("content", 0);
    b.render();
    let fb: Vec<u8> = b.buffer().to_vec();

    // A two-row, two-byte window away from the origin.
    let r = b.extract_rect_data(8, 100, 16, 2);
    assert_eq!(r.len(), 4);
    assert_eq!(r[0], fb[100 * 100 + 1]);
    assert_eq!(r[1], fb[100 * 100 + 2]);
    assert_eq!(r[2], fb[101 * 100 + 1]);
    assert_eq!(r[3], fb[101 * 100 + 2]);

    // A full-width band.
    let band = b.extract_rect_data(0, 9, 800, 2);
    assert_eq!(band.len(), 200);
    assert_eq!(band.as_slice(), &fb[900..1100]);
}

#[test]
fn extract_rect_empty_and_clipped() {
    let b = ConsoleBuffer::new();
    assert!(b.extract_rect_data(0, 0, 0, 5).is_empty());
    assert!(b.extract_rect_data(0, 0, 16, 0).is_empty());
    assert!(b.extract_rect_data(0, 480, 16, 3).is_empty());
    // Rows past the bottom edge are dropped.
    let clipped = b.extract_rect_data(0, 478, 16, 10);
    assert_eq!(clipped.len(), 2 * 2);
    // The bounded output stops at its capacity.
    let capped = b.extract_rect_data(0, 0, 800, 480);
    assert_eq!(capped.len(), 4096);
}

#[test]
fn clear_history_resets_everything_but_the_frame() {
    let mut b = ConsoleBuffer::new();
    b.push_line_at("gone", 0);
    b.render();
    let fb_before: Vec<u8> = b.buffer().to_vec();
    b.clear_history();
    assert_eq!(b.history.len(), 0);
    assert_eq!(b.new_lines_count(), 0);
    assert_eq!(b.buffer(), fb_before.as_slice());
}

#[test]
fn default_is_a_fresh_buffer() {
    let b = ConsoleBuffer::default();
    assert_eq!(b.history.len(), 0);
    assert_eq!(b.new_lines_count(), 0);
    assert_eq!(b.buffer().len(), BUF_SIZE);
}

#[test]
fn monobuf_set_pixel_msb_first() {
    let mut m = MonoBuf::new(vec![0u8; 4], 16, 2);
    m.set_pixel(0, 0, true);
    m.set_pixel(7, 0, true);
    m.set_pixel(8, 0, true);
    m.set_pixel(1, 1, true);
    assert_eq!(m.buffer(), &[0b1000_0001, 0b1000_0000, 0b0100_0000, 0]);
    m.set_pixel(0, 0, false);
    assert_eq!(m.buffer(), &[0b0000_0001, 0b1000_0000, 0b0100_0000, 0]);
    // Out-of-range coordinates are ignored.
    m.set_pixel(16, 0, true);
    m.set_pixel(0, 2, true);
    assert_eq!(m.buffer(), &[0b0000_0001, 0b1000_0000, 0b0100_0000, 0]);
}
