//! Console buffer: line history, refresh strategy and rendering.
//!
//! The buffer owns the console's framebuffer and its bounded line history.
//! Pushing a line decides the refresh strategy autonomously: while there is
//! room the line is appended and a windowed repaint suffices; once the
//! history is full the oldest entry is evicted and the whole panel must be
//! repainted.

use vstd::prelude::*;

use crate::geometry::{WIDTH, HEIGHT, BUF_SIZE};
use crate::bytes::{zeros, zeros_vec};
use crate::monobuf::MonoBuf;
use crate::stamp::{format_line, stamp_line, LINE_CAP};
use crate::clock::now_millis;
use crate::hist::{
    history_entries,
    hist_new,
    hist_len,
    hist_push,
    hist_remove_front,
    hist_clear,
    hist_get,
    extract_bytes,
    ebuf_new,
    ebuf_len,
    ebuf_push,
};
use crate::textdraw::{text_drawn, border_applied, draw_text, draw_border};

verus! {

/// Top and side margin of the console text, in pixels.
pub const MARGIN: i32 = 9;

/// Line pitch of the 9x18 font, in pixels.
pub const LINE_H: i32 = 18;

/// How many lines fit between the margins: (height - 2 * margin) / pitch.
pub const MAX_VISIBLE_LINES: usize = 25;

/// Capacity of the line history.
pub const HISTORY_CAP: usize = 128;

/// Refresh strategy decided by a push.
#[derive(Debug, Clone, Copy, PartialEq, Eq, Structural)]
pub enum RefreshStrategy {
    /// The history just evicted: content is discontinuous, repaint all.
    Full,
    /// `new_lines` lines were appended since the last render.
    Partial { new_lines: usize },
    /// No visual change.  Kept for forward compatibility; the current push
    /// logic never produces it.
    NoChange,
}

/// The visible window of a history: its last `MAX_VISIBLE_LINES` entries.
pub open spec fn visible_window(lines: Seq<Seq<char>>) -> Seq<Seq<char>> {
    if lines.len() > MAX_VISIBLE_LINES {
        lines.skip(lines.len() - MAX_VISIBLE_LINES)
    } else {
        lines
    }
}

/// The framebuffer after the lines from `idx` on are drawn top to bottom at
/// the fixed pitch, starting at pixel row `y`, stopping early once the next
/// line would run into the bottom margin.
pub open spec fn draw_from(fb: Seq<u8>, lines: Seq<Seq<char>>, idx: int, y: int) -> Seq<u8>
    decreases lines.len() - idx,
{
    if idx < 0 || idx >= lines.len() {
        fb
    } else {
        let fb1 = text_drawn(fb, MARGIN as i32, y as i32, lines[idx]);
        if y + LINE_H + LINE_H + MARGIN >= HEIGHT as int {
            fb1
        } else {
            draw_from(fb1, lines, idx + 1, y + LINE_H)
        }
    }
}

/// The framebuffer `render` produces from a border flag and a history.
pub open spec fn rendered_fb(border: bool, lines: Seq<Seq<char>>) -> Seq<u8> {
    let base = if border {
        border_applied(zeros(BUF_SIZE as nat))
    } else {
        zeros(BUF_SIZE as nat)
    };
    draw_from(base, visible_window(lines), 0, MARGIN as int)
}

/// The bytes of a byte-aligned rectangle of the framebuffer, row-major,
/// clipped to the panel's height and to the extraction buffer's capacity.
pub open spec fn extract_spec(fb: Seq<u8>, x: usize, y: usize, w: usize, h: usize) -> Seq<u8> {
    if w == 0 || h == 0 {
        Seq::<u8>::empty()
    } else {
        let rows = if y >= HEIGHT {
            0
        } else if h <= HEIGHT - y {
            h as int
        } else {
            HEIGHT - y
        };
        let wb = w as int / 8;
        let full = Seq::new(
            (rows * wb) as nat,
            |i: int| fb[(y + i / wb) * (WIDTH as int / 8) + x as int / 8 + i % wb],
        );
        if full.len() <= 4096 {
            full
        } else {
            full.take(4096)
        }
    }
}

/// Console buffer state: framebuffer, history and render bookkeeping.
pub struct ConsoleBuffer {
    /// The console's private framebuffer.
    pub draw: MonoBuf,
    /// Whether `render` strokes a border around the panel.
    pub show_border: bool,
    /// The line history, oldest first.
    pub history: heapless::Vec<String, 128>,
    /// How many lines the last render drew.
    pub last_line_count: usize,
    /// Lines appended since the last render.
    pub new_lines_since_render: usize,
}

impl ConsoleBuffer {
    /// The framebuffer has the panel's fixed geometry, the history is
    /// within its capacity and holds only capped lines, and the new-line
    /// counter never exceeds the history length.
    pub open spec fn well_formed(&self) -> bool {
        &&& self.draw.well_formed()
        &&& self.draw.w == WIDTH as u32
        &&& self.draw.h == HEIGHT as u32
        &&& self.draw.buf@.len() == BUF_SIZE
        &&& self.hist().len() <= HISTORY_CAP
        &&& self.new_lines_since_render <= self.hist().len()
        &&& forall|i: int|
            0 <= i < self.hist().len() ==> (#[trigger] self.hist()[i]).len() <= LINE_CAP
    }

    /// The history lines, oldest first.
    pub open spec fn hist(&self) -> Seq<Seq<char>> {
        history_entries(self.history)
    }

    /// The framebuffer bytes.
    pub open spec fn fbv(&self) -> Seq<u8> {
        self.draw.buf@
    }

    /// Create a console buffer with its own zeroed framebuffer.
    pub fn new() -> (r: Self)
        ensures
            r.well_formed(),
            r.hist() == Seq::<Seq<char>>::empty(),
            r.fbv() == zeros(BUF_SIZE as nat),
            r.show_border == true,
            r.new_lines_since_render == 0,
            r.last_line_count == 0,
    {
        let fb = zeros_vec(BUF_SIZE);
        let draw = MonoBuf::new(fb, WIDTH as u32, HEIGHT as u32);
        ConsoleBuffer {
            draw,
            show_border: true,
            history: hist_new(),
            last_line_count: 0,
            new_lines_since_render: 0,
        }
    }

    /// Set whether to show a border around the console.
    pub fn set_border(&mut self, on: bool)
        ensures
            *final(self) == (ConsoleBuffer { show_border: on, ..*old(self) }),
    {
        self.show_border = on;
    }

    /// Clear all history.
    pub fn clear_history(&mut self)
        requires
            old(self).well_formed(),
        ensures
            final(self).well_formed(),
            final(self).hist() == Seq::<Seq<char>>::empty(),
            final(self).new_lines_since_render == 0,
            final(self).fbv() == old(self).fbv(),
            final(self).show_border == old(self).show_border,
            final(self).last_line_count == old(self).last_line_count,
    {
        hist_clear(&mut self.history);
        self.new_lines_since_render = 0;
    }

    /// Push the line for a message that arrived at `millis` and decide the
    /// refresh strategy.  While there is room the stamped line is appended
    /// and a windowed repaint of the trailing new lines suffices.  At
    /// capacity the push evicts the oldest entry and reports that a full
    /// repaint is owed; the incoming line is deliberately not appended on
    /// that push — eviction only opens room and flags the discontinuity.
    pub fn push_line_at(&mut self, msg: &str, millis: u64) -> (r: RefreshStrategy)
        requires
            old(self).well_formed(),
        ensures
            final(self).well_formed(),
            final(self).fbv() == old(self).fbv(),
            final(self).show_border == old(self).show_border,
            final(self).last_line_count == old(self).last_line_count,
            old(self).hist().len() >= HISTORY_CAP ==> {
                &&& r == RefreshStrategy::Full
                &&& final(self).hist() == old(self).hist().drop_first()
                &&& final(self).new_lines_since_render == 0
            },
            old(self).hist().len() < HISTORY_CAP ==> {
                &&& r == (RefreshStrategy::Partial {
                    new_lines: (old(self).new_lines_since_render + 1) as usize,
                })
                &&& final(self).hist() == old(self).hist().push(format_line(millis, msg@))
                &&& final(self).new_lines_since_render == old(self).new_lines_since_render + 1
            },
    {
        let line = stamp_line(millis, msg);
        let len = hist_len(&self.history);
        if len == HISTORY_CAP {
            let _evicted = hist_remove_front(&mut self.history);
            self.new_lines_since_render = 0;
            proof {
                assert forall|i: int|
                    0 <= i < self.hist().len() implies (#[trigger] self.hist()[i]).len()
                    <= LINE_CAP by {
                    assert(self.hist()[i] == old(self).hist()[i + 1]);
                }
            }
            RefreshStrategy::Full
        } else {
            let _ = hist_push(&mut self.history, line);
            self.new_lines_since_render = self.new_lines_since_render + 1;
            proof {
                assert(format_line(millis, msg@).len() <= LINE_CAP);
                assert forall|i: int|
                    0 <= i < self.hist().len() implies (#[trigger] self.hist()[i]).len()
                    <= LINE_CAP by {
                    if i < old(self).hist().len() {
                        assert(self.hist()[i] == old(self).hist()[i]);
                    } else {
                        assert(self.hist()[i] == format_line(millis, msg@));
                    }
                }
            }
            RefreshStrategy::Partial { new_lines: self.new_lines_since_render }
        }
    }

    /// Push a line stamped with the elapsed time now.  The strategy and the
    /// shape of the history do not depend on what the clock returns.
    pub fn push_line(&mut self, msg: &str) -> (r: RefreshStrategy)
        requires
            old(self).well_formed(),
        ensures
            final(self).well_formed(),
            final(self).fbv() == old(self).fbv(),
            final(self).show_border == old(self).show_border,
            final(self).last_line_count == old(self).last_line_count,
            old(self).hist().len() >= HISTORY_CAP ==> {
                &&& r == RefreshStrategy::Full
                &&& final(self).hist() == old(self).hist().drop_first()
                &&& final(self).new_lines_since_render == 0
            },
            old(self).hist().len() < HISTORY_CAP ==> {
                &&& r == (RefreshStrategy::Partial {
                    new_lines: (old(self).new_lines_since_render + 1) as usize,
                })
                &&& exists|t: u64|
                    final(self).hist() == old(self).hist().push(format_line(t, msg@))
                &&& final(self).new_lines_since_render == old(self).new_lines_since_render + 1
            },
    {
        let millis = now_millis();
        let r = self.push_line_at(msg, millis);
        proof {
            if old(self).hist().len() < HISTORY_CAP {
                assert(final(self).hist() == old(self).hist().push(format_line(millis, msg@)));
            }
        }
        r
    }

    /// Render the history into the framebuffer: clear it, stroke the border
    /// if enabled, then draw the visible window top to bottom.  The
    /// new-line counter is reset whatever its value was.
    pub fn render(&mut self)
        requires
            old(self).well_formed(),
        ensures
            final(self).well_formed(),
            final(self).hist() == old(self).hist(),
            final(self).show_border == old(self).show_border,
            final(self).new_lines_since_render == 0,
            final(self).fbv() == rendered_fb(old(self).show_border, old(self).hist()),
            final(self).last_line_count == visible_window(old(self).hist()).len(),
    {
        self.draw.fill(0x00);
        proof {
            assert(self.draw.buf@ =~= zeros(BUF_SIZE as nat));
        }
        if self.show_border {
            draw_border(&mut self.draw.buf);
        }
        let ghost base = self.draw.buf@;
        let ghost visible = visible_window(self.hist());

        let total = hist_len(&self.history);
        let start = if total > MAX_VISIBLE_LINES {
            total - MAX_VISIBLE_LINES
        } else {
            0
        };
        proof {
            assert(visible =~= self.hist().subrange(start as int, total as int));
        }

        let mut i = start;
        let mut y: i32 = MARGIN;
        // The spec's early stop fires only on the last visible line, so
        // walking the whole window draws exactly what the spec describes.
        while i < total
            invariant
                self.draw.well_formed(),
                self.draw.w == WIDTH as u32,
                self.draw.h == HEIGHT as u32,
                self.draw.buf@.len() == BUF_SIZE,
                history_entries(self.history) == old(self).hist(),
                self.show_border == old(self).show_border,
                total == self.hist().len(),
                start <= i <= total,
                total - start <= MAX_VISIBLE_LINES,
                visible == visible_window(self.hist()),
                visible.len() == total - start,
                forall|j: int| 0 <= j < visible.len() ==> visible[j] == self.hist()[start + j],
                forall|j: int|
                    0 <= j < self.hist().len() ==> (#[trigger] self.hist()[j]).len() <= LINE_CAP,
                y == MARGIN + LINE_H * (i - start),
                draw_from(base, visible, 0, MARGIN as int) == draw_from(
                    self.draw.buf@,
                    visible,
                    i - start,
                    y as int,
                ),
            decreases total - i,
        {
            let line = hist_get(&self.history, i);
            draw_text(&mut self.draw.buf, MARGIN, y, line.as_str());
            y = y + LINE_H;
            i = i + 1;
        }
        proof {
            assert(draw_from(base, visible, 0, MARGIN as int) == self.draw.buf@);
        }
        self.last_line_count = total - start;
        self.new_lines_since_render = 0;
    }

    /// The framebuffer bytes, row-major.
    pub fn buffer(&self) -> (r: &[u8])
        ensures
            r@ == self.fbv(),
    {
        self.draw.buffer()
    }

    /// How many history lines are visible.
    pub fn visible_line_count(&self) -> (r: usize)
        ensures
            r == if self.hist().len() <= MAX_VISIBLE_LINES {
                self.hist().len() as int
            } else {
                MAX_VISIBLE_LINES as int
            },
    {
        let len = hist_len(&self.history);
        if len < MAX_VISIBLE_LINES {
            len
        } else {
            MAX_VISIBLE_LINES
        }
    }

    /// Lines appended since the last render.
    pub fn new_lines_count(&self) -> (r: usize)
        ensures
            r == self.new_lines_since_render,
    {
        self.new_lines_since_render
    }

    /// The pixel row where a repaint of the trailing `lines_to_update`
    /// visible lines starts.  Never above the top margin.
    pub fn partial_update_y_start(&self, lines_to_update: usize) -> (r: i32)
        ensures
            r == MARGIN + LINE_H * ({
                let cv = if self.hist().len() <= MAX_VISIBLE_LINES {
                    self.hist().len() as int
                } else {
                    MAX_VISIBLE_LINES as int
                };
                if lines_to_update <= cv {
                    cv - lines_to_update
                } else {
                    0
                }
            }),
            r >= MARGIN,
    {
        let current_visible = self.visible_line_count();
        let start_line = if lines_to_update > current_visible {
            0
        } else {
            current_visible - lines_to_update
        };
        MARGIN + (start_line as i32) * LINE_H
    }

    /// The pixel height of a repaint of `lines_to_update` lines: defined
    /// for every count whose pixel height fits the result type.
    pub fn partial_update_height(&self, lines_to_update: usize) -> (r: i32)
        requires
            (lines_to_update as int) * (LINE_H as int) <= i32::MAX,
        ensures
            r == LINE_H * lines_to_update,
    {
        (lines_to_update as i32) * LINE_H
    }

    /// Read the raw bytes of a byte-aligned rectangle out of the
    /// framebuffer, row-major, stopping at the panel's bottom edge and at
    /// the extraction buffer's capacity.
    pub fn extract_rect_data(&self, x: usize, y: usize, w: usize, h: usize) -> (r: heapless::Vec<
        u8,
        4096,
    >)
        requires
            self.well_formed(),
            x % 8 == 0,
            w % 8 == 0,
            x + w <= WIDTH,
        ensures
            extract_bytes(r) == extract_spec(self.fbv(), x, y, w, h),
    {
        let mut partial_buf = ebuf_new();

        if w == 0 || h == 0 {
            return partial_buf;
        }
        let rows: usize = if y >= HEIGHT {
            0
        } else if h <= HEIGHT - y {
            h
        } else {
            HEIGHT - y
        };
        let bytes_per_full_row: usize = WIDTH / 8;
        let wb: usize = w / 8;
        proof {
            assert(x as int / 8 + w as int / 8 <= WIDTH as int / 8) by (nonlinear_arith)
                requires
                    x % 8 == 0,
                    w % 8 == 0,
                    x + w <= WIDTH,
                    x >= 0,
                    w >= 0,
            ;
        }
        let ghost full = Seq::new(
            (rows as int * wb as int) as nat,
            |i: int| self.fbv()[(y + i / (wb as int)) * (WIDTH as int / 8) + x as int / 8 + i % (
            wb as int)],
        );

        let mut dy: usize = 0;
        while dy < rows
            invariant
                self.well_formed(),
                0 < wb,
                wb == w as int / 8,
                rows <= HEIGHT,
                rows == 0 || y + rows <= HEIGHT,
                x as int / 8 + wb <= WIDTH as int / 8,
                bytes_per_full_row == WIDTH as int / 8,
                dy <= rows,
                full.len() == rows * wb,
                forall|i: int|
                    0 <= i < full.len() ==> full[i] == self.fbv()[(y + i / (wb as int)) * (
                    WIDTH as int / 8) + x as int / 8 + i % (wb as int)],
                extract_bytes(partial_buf) == (if (dy * wb) as int <= 4096 {
                    full.take((dy * wb) as int)
                } else {
                    full.take(4096)
                }),
            decreases rows - dy,
        {
            proof {
                assert(dy * wb <= rows * wb && dy * wb + wb <= rows * wb && (dy + 1) * wb == dy
                    * wb + wb) by (nonlinear_arith)
                    requires
                        0 <= dy < rows,
                        wb >= 1,
                ;
            }
            let actual_y = y + dy;
            proof {
                assert(actual_y * (WIDTH as int / 8) + (WIDTH as int / 8) == (actual_y + 1) * (
                WIDTH as int / 8) && (actual_y + 1) * (WIDTH as int / 8) <= HEIGHT as int * (
                WIDTH as int / 8)) by (nonlinear_arith)
                    requires
                        0 <= actual_y,
                        actual_y + 1 <= HEIGHT,
                ;
            }
            let full_row_start = actual_y * bytes_per_full_row;
            let partial_start_byte = full_row_start + x / 8;
            let mut b: usize = 0;
            while b < wb
                invariant
                    self.well_formed(),
                    0 < wb,
                    wb == w as int / 8,
                    rows <= HEIGHT,
                    y + rows <= HEIGHT,
                    x as int / 8 + wb <= WIDTH as int / 8,
                    bytes_per_full_row == WIDTH as int / 8,
                    dy < rows,
                    b <= wb,
                    actual_y == y + dy,
                    actual_y < HEIGHT,
                    full_row_start == actual_y * (WIDTH as int / 8),
                    partial_start_byte == full_row_start + x as int / 8,
                    partial_start_byte + wb <= BUF_SIZE,
                    full.len() == rows * wb,
                    forall|i: int|
                        0 <= i < full.len() ==> full[i] == self.fbv()[(y + i / (wb as int)) * (
                        WIDTH as int / 8) + x as int / 8 + i % (wb as int)],
                    extract_bytes(partial_buf) == (if (dy * wb + b) as int <= 4096 {
                        full.take((dy * wb + b) as int)
                    } else {
                        full.take(4096)
                    }),
                    dy * wb + b <= full.len(),
                decreases wb - b,
            {
                let byte_idx = partial_start_byte + b;
                proof {
                    assert(dy * wb + b < rows * wb) by (nonlinear_arith)
                        requires
                            0 <= dy < rows,
                            0 <= b < wb,
                    ;
                    let p = (dy * wb + b) as int;
                    assert(p / (wb as int) == dy as int && p % (wb as int) == b as int)
                        by (nonlinear_arith)
                        requires
                            p == dy * wb + b,
                            0 <= b < wb,
                            0 <= dy,
                            wb > 0,
                    ;
                    assert(full[p] == self.fbv()[byte_idx as int]);
                }
                if byte_idx < BUF_SIZE && ebuf_len(&partial_buf) < 4096 {
                    let fb_byte = self.draw.buf[byte_idx];
                    let _ = ebuf_push(&mut partial_buf, fb_byte);
                    proof {
                        let p = (dy * wb + b) as int;
                        assert(extract_bytes(partial_buf) =~= (if p + 1 <= 4096 {
                            full.take(p + 1)
                        } else {
                            full.take(4096)
                        }));
                    }
                } else {
                    proof {
                        let p = (dy * wb + b) as int;
                        assert(extract_bytes(partial_buf) =~= (if p + 1 <= 4096 {
                            full.take(p + 1)
                        } else {
                            full.take(4096)
                        }));
                    }
                }
                b = b + 1;
            }
            dy = dy + 1;
        }
        proof {
            assert(extract_bytes(partial_buf) =~= extract_spec(self.fbv(), x, y, w, h));
        }
        partial_buf
    }
}

impl Default for ConsoleBuffer {
    /// A fresh console buffer, as `new` builds it.
    fn default() -> (r: Self)
        ensures
            r.well_formed(),
            r.hist() == Seq::<Seq<char>>::empty(),
            r.fbv() == zeros(BUF_SIZE as nat),
            r.show_border == true,
            r.new_lines_since_render == 0,
            r.last_line_count == 0,
    {
        ConsoleBuffer::new()
    }
}

} // verus!
