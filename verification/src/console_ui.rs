//! Console UI: translates buffer strategy decisions into panel plans.
//!
//! The UI tracks visibility and, for each push, decides what the panel must
//! be sent: nothing while hidden, a clear plus a full frame after an
//! eviction, a windowed update for a few trailing lines, or a plain full
//! frame when the whole visible region is new.

use vstd::prelude::*;
use vstd::string::*;

use crate::geometry::{Rect, WIDTH};
use crate::driver::{
    Epd800x480,
    DriverState,
    clear_plan,
    display_plan,
    display_partial_plan,
};
use crate::plan::{BusOp, BusOpV, plan_view};
use crate::console_buffer::{
    ConsoleBuffer,
    RefreshStrategy,
    rendered_fb,
    extract_spec,
    MARGIN,
    LINE_H,
    MAX_VISIBLE_LINES,
    HISTORY_CAP,
};
use crate::stamp::format_line;
use crate::hist::{ebuf_len, ebuf_as_slice};

verus! {

/// The strategy a push decides, given the buffer before the push.
pub open spec fn push_strategy(pre: ConsoleBuffer) -> RefreshStrategy {
    if pre.hist().len() >= HISTORY_CAP {
        RefreshStrategy::Full
    } else {
        RefreshStrategy::Partial { new_lines: (pre.new_lines_since_render + 1) as usize }
    }
}

/// The history after a push at time `t`: eviction drops the oldest entry
/// (and the new line with it); otherwise the stamped line is appended.
pub open spec fn pushed_hist(pre: Seq<Seq<char>>, t: u64, msg: Seq<char>) -> Seq<Seq<char>> {
    if pre.len() >= HISTORY_CAP {
        pre.drop_first()
    } else {
        pre.push(format_line(t, msg))
    }
}

/// How many history lines are visible.
pub open spec fn visible_count(hist: Seq<Seq<char>>) -> int {
    if hist.len() <= MAX_VISIBLE_LINES {
        hist.len() as int
    } else {
        MAX_VISIBLE_LINES as int
    }
}

/// The plan of a windowed update of the trailing `n` lines over the
/// rendered framebuffer `fb`: nothing for zero lines, a plain full frame
/// when the whole visible region is new, otherwise a windowed repaint of
/// the extracted rows (skipped if nothing could be extracted).
pub open spec fn ui_partial_plan(hist: Seq<Seq<char>>, fb: Seq<u8>, n: usize) -> Seq<BusOpV> {
    let cv = visible_count(hist);
    if n == 0 {
        Seq::<BusOpV>::empty()
    } else if n >= cv {
        display_plan(fb)
    } else {
        let y_start = MARGIN + LINE_H * (cv - n);
        let hh = LINE_H * n;
        let rect = Rect { x: 0, y: y_start as usize, w: WIDTH, h: hh as usize };
        let data = extract_spec(fb, 0, y_start as usize, WIDTH, hh as usize);
        if data.len() > 0 {
            display_partial_plan(data, rect)
        } else {
            Seq::<BusOpV>::empty()
        }
    }
}

/// The plan a visible refresh issues for a strategy, over the rendered
/// framebuffer.
pub open spec fn ui_refresh_plan(hist: Seq<Seq<char>>, fb: Seq<u8>, strat: RefreshStrategy) -> Seq<
    BusOpV,
> {
    match strat {
        RefreshStrategy::Full => clear_plan() + display_plan(fb),
        RefreshStrategy::Partial { new_lines } => ui_partial_plan(hist, fb, new_lines),
        RefreshStrategy::NoChange => Seq::<BusOpV>::empty(),
    }
}

/// The severity tag of an information line.
pub open spec fn info_tag() -> Seq<char> {
    seq!['I', 'N', 'F', 'O', ':', ' ']
}

/// The severity tag of a warning line.
pub open spec fn warn_tag() -> Seq<char> {
    seq!['W', 'A', 'R', 'N', ':', ' ']
}

/// The severity tag of an error line.
pub open spec fn error_tag() -> Seq<char> {
    seq!['E', 'R', 'R', 'O', 'R', ':', ' ']
}

/// Console UI controller: a buffer plus a visibility flag.
pub struct ConsoleUI {
    pub buffer: ConsoleBuffer,
    pub visible: bool,
}

/// What one push does to the UI and which plan it issues, for the stamp
/// time `t`: the buffer moves per the push rules; while hidden nothing is
/// planned; while visible the buffer is re-rendered and the strategy's plan
/// is issued, followed by the settle delay.
pub open spec fn push_outcome(
    pre: ConsoleUI,
    t: u64,
    msg: Seq<char>,
    post: ConsoleUI,
    plan: Seq<BusOpV>,
) -> bool {
    let strat = push_strategy(pre.buffer);
    let hist2 = pushed_hist(pre.buffer.hist(), t, msg);
    &&& post.visible == pre.visible
    &&& post.buffer.hist() == hist2
    &&& post.buffer.show_border == pre.buffer.show_border
    &&& if pre.visible {
        &&& post.buffer.fbv() == rendered_fb(pre.buffer.show_border, hist2)
        &&& post.buffer.new_lines_since_render == 0
        &&& plan == ui_refresh_plan(hist2, rendered_fb(pre.buffer.show_border, hist2), strat)
            + seq![BusOpV::DelayMs(50)]
    } else {
        &&& post.buffer.fbv() == pre.buffer.fbv()
        &&& post.buffer.new_lines_since_render == (match strat {
            RefreshStrategy::Full => 0int,
            RefreshStrategy::Partial { new_lines } => new_lines as int,
            RefreshStrategy::NoChange => pre.buffer.new_lines_since_render as int,
        })
        &&& plan == Seq::<BusOpV>::empty()
    }
}

impl ConsoleUI {
    /// A fresh, hidden console.
    pub fn new() -> (r: Self)
        ensures
            r.buffer.well_formed(),
            r.buffer.hist() == Seq::<Seq<char>>::empty(),
            r.buffer.new_lines_since_render == 0,
            r.buffer.show_border == true,
            r.visible == false,
    {
        ConsoleUI { buffer: ConsoleBuffer::new(), visible: false }
    }

    /// Mutable access to the buffer for configuration.
    pub fn buffer_mut(&mut self) -> (r: &mut ConsoleBuffer)
        ensures
            *r == old(self).buffer,
            *final(self) == (ConsoleUI { buffer: *final(r), visible: old(self).visible }),
    {
        &mut self.buffer
    }

    /// Read access to the buffer.
    pub fn buffer(&self) -> (r: &ConsoleBuffer)
        ensures
            *r == self.buffer,
    {
        &self.buffer
    }

    /// Set border visibility.
    pub fn set_border(&mut self, on: bool)
        ensures
            *final(self) == (ConsoleUI {
                buffer: ConsoleBuffer { show_border: on, ..old(self).buffer },
                visible: old(self).visible,
            }),
    {
        self.buffer.set_border(on);
    }

    /// Clear history and reset the new-line counter.
    pub fn clear_history(&mut self)
        requires
            old(self).buffer.well_formed(),
        ensures
            final(self).buffer.well_formed(),
            final(self).buffer.hist() == Seq::<Seq<char>>::empty(),
            final(self).buffer.new_lines_since_render == 0,
            final(self).buffer.fbv() == old(self).buffer.fbv(),
            final(self).buffer.show_border == old(self).buffer.show_border,
            final(self).visible == old(self).visible,
    {
        self.buffer.clear_history();
    }

    /// Show the console: mark it visible, render, and plan one full-frame
    /// display of the fresh render, whatever was on the panel before.
    pub fn show<SPI, CS, DC, RST, BUSY, LED>(
        &mut self,
        epd: &mut Epd800x480<SPI, CS, DC, RST, BUSY, LED>,
    ) -> (p: Vec<BusOp>)
        requires
            old(self).buffer.well_formed(),
            old(epd).driver_state() == DriverState::Ready,
        ensures
            *final(epd) == *old(epd),
            final(self).visible == true,
            final(self).buffer.well_formed(),
            final(self).buffer.hist() == old(self).buffer.hist(),
            final(self).buffer.show_border == old(self).buffer.show_border,
            final(self).buffer.new_lines_since_render == 0,
            final(self).buffer.fbv() == rendered_fb(
                old(self).buffer.show_border,
                old(self).buffer.hist(),
            ),
            plan_view(p@) == display_plan(final(self).buffer.fbv()) + seq![BusOpV::DelayMs(50)],
    {
        self.visible = true;
        self.buffer.render();
        let mut p = match epd.display(self.buffer.buffer()) {
            Ok(p) => p,
            Err(_) => {
                proof {
                    assert(false);
                }
                Vec::new()
            },
        };
        p.push(BusOp::DelayMs(50));
        proof {
            assert(plan_view(p@) =~~= display_plan(final(self).buffer.fbv()) + seq![
                BusOpV::DelayMs(50),
            ]);
        }
        p
    }

    /// Hide the console.  No panel plan: the bistable panel keeps showing
    /// the last rendered image.
    pub fn conceal(&mut self)
        ensures
            *final(self) == (ConsoleUI { buffer: old(self).buffer, visible: false }),
    {
        self.visible = false;
    }

    /// Whether the console is visible.
    pub fn is_visible(&self) -> (r: bool)
        ensures
            r == self.visible,
    {
        self.visible
    }

    /// Push a line into history; while visible, also render and plan the
    /// matching panel update.  While hidden, nothing at all is planned.
    pub fn push<SPI, CS, DC, RST, BUSY, LED>(
        &mut self,
        msg: &str,
        epd: &mut Epd800x480<SPI, CS, DC, RST, BUSY, LED>,
    ) -> (p: Vec<BusOp>)
        requires
            old(self).buffer.well_formed(),
            old(epd).driver_state() == DriverState::Ready,
        ensures
            *final(epd) == *old(epd),
            final(self).buffer.well_formed(),
            !old(self).visible ==> p@.len() == 0,
            exists|t: u64|
                #[trigger] push_outcome(*old(self), t, msg@, *final(self), plan_view(p@)),
    {
        let ghost pre = *old(self);
        let strategy = self.buffer.push_line(msg);
        proof {
            if pre.buffer.hist().len() < HISTORY_CAP {
                let t = choose|t: u64|
                    self.buffer.hist() == pre.buffer.hist().push(format_line(t, msg@));
                assert(self.buffer.hist() == pushed_hist(pre.buffer.hist(), t, msg@));
            }
        }
        let ghost t_wit = choose|t: u64|
            self.buffer.hist() == pushed_hist(pre.buffer.hist(), t, msg@);
        proof {
            assert(self.buffer.hist() == pushed_hist(pre.buffer.hist(), t_wit, msg@));
            assert(strategy == push_strategy(pre.buffer));
        }

        if self.visible {
            let p = self.refresh_display(epd, strategy);
            proof {
                assert(push_outcome(pre, t_wit, msg@, *final(self), plan_view(p@)));
            }
            p
        } else {
            let p: Vec<BusOp> = Vec::new();
            proof {
                assert(plan_view(p@) =~= Seq::<BusOpV>::empty());
                assert(push_outcome(pre, t_wit, msg@, *final(self), plan_view(p@)));
            }
            p
        }
    }

    /// Render, then plan the panel update a strategy calls for, with the
    /// settle delay at the end.
    fn refresh_display<SPI, CS, DC, RST, BUSY, LED>(
        &mut self,
        epd: &mut Epd800x480<SPI, CS, DC, RST, BUSY, LED>,
        strategy: RefreshStrategy,
    ) -> (p: Vec<BusOp>)
        requires
            old(self).buffer.well_formed(),
            old(epd).driver_state() == DriverState::Ready,
        ensures
            *final(epd) == *old(epd),
            final(self).visible == old(self).visible,
            final(self).buffer.well_formed(),
            final(self).buffer.hist() == old(self).buffer.hist(),
            final(self).buffer.show_border == old(self).buffer.show_border,
            final(self).buffer.new_lines_since_render == 0,
            final(self).buffer.fbv() == rendered_fb(
                old(self).buffer.show_border,
                old(self).buffer.hist(),
            ),
            plan_view(p@) == ui_refresh_plan(
                old(self).buffer.hist(),
                rendered_fb(old(self).buffer.show_border, old(self).buffer.hist()),
                strategy,
            ) + seq![BusOpV::DelayMs(50)],
    {
        self.buffer.render();

        let mut p: Vec<BusOp> = match strategy {
            RefreshStrategy::Full => {
                let mut p = epd.clear();
                let mut d = match epd.display(self.buffer.buffer()) {
                    Ok(d) => d,
                    Err(_) => {
                        proof {
                            assert(false);
                        }
                        Vec::new()
                    },
                };
                p.append(&mut d);
                proof {
                    assert(plan_view(p@) =~~= clear_plan() + display_plan(
                        final(self).buffer.fbv(),
                    ));
                }
                p
            },
            RefreshStrategy::Partial { new_lines } => self.partial_update(epd, new_lines),
            RefreshStrategy::NoChange => Vec::new(),
        };
        p.push(BusOp::DelayMs(50));
        proof {
            assert(plan_view(p@) =~~= ui_refresh_plan(
                old(self).buffer.hist(),
                rendered_fb(old(self).buffer.show_border, old(self).buffer.hist()),
                strategy,
            ) + seq![BusOpV::DelayMs(50)]);
        }
        p
    }

    /// Plan a windowed update of the trailing `new_lines` lines of the
    /// framebuffer as last rendered.
    fn partial_update<SPI, CS, DC, RST, BUSY, LED>(
        &mut self,
        epd: &mut Epd800x480<SPI, CS, DC, RST, BUSY, LED>,
        new_lines: usize,
    ) -> (p: Vec<BusOp>)
        requires
            old(self).buffer.well_formed(),
            old(epd).driver_state() == DriverState::Ready,
        ensures
            *final(epd) == *old(epd),
            *final(self) == *old(self),
            plan_view(p@) == ui_partial_plan(
                old(self).buffer.hist(),
                old(self).buffer.fbv(),
                new_lines,
            ),
    {
        if new_lines == 0 {
            let p: Vec<BusOp> = Vec::new();
            proof {
                assert(plan_view(p@) =~= Seq::<BusOpV>::empty());
            }
            return p;
        }
        let current_visible = self.buffer.visible_line_count();

        if new_lines >= current_visible {
            let p = match epd.display(self.buffer.buffer()) {
                Ok(p) => p,
                Err(_) => {
                    proof {
                        assert(false);
                    }
                    Vec::new()
                },
            };
            return p;
        }
        let lines_to_update = if new_lines < current_visible {
            new_lines
        } else {
            current_visible
        };
        let y_start = self.buffer.partial_update_y_start(lines_to_update);
        let y_height = self.buffer.partial_update_height(lines_to_update);

        let rect = Rect { x: 0, y: y_start as usize, w: WIDTH, h: y_height as usize };

        let partial_buf = self.buffer.extract_rect_data(rect.x, rect.y, rect.w, rect.h);

        if ebuf_len(&partial_buf) > 0 {
            let p = epd.display_partial(ebuf_as_slice(&partial_buf), rect);
            p
        } else {
            let p: Vec<BusOp> = Vec::new();
            proof {
                assert(plan_view(p@) =~= Seq::<BusOpV>::empty());
            }
            p
        }
    }

    /// Push a line tagged as information.
    pub fn log_info<SPI, CS, DC, RST, BUSY, LED>(
        &mut self,
        msg: &str,
        epd: &mut Epd800x480<SPI, CS, DC, RST, BUSY, LED>,
    ) -> (p: Vec<BusOp>)
        requires
            old(self).buffer.well_formed(),
            old(epd).driver_state() == DriverState::Ready,
        ensures
            *final(epd) == *old(epd),
            final(self).buffer.well_formed(),
            !old(self).visible ==> p@.len() == 0,
            exists|t: u64|
                #[trigger] push_outcome(
                    *old(self),
                    t,
                    info_tag() + msg@,
                    *final(self),
                    plan_view(p@),
                ),
    {
        proof {
            reveal_strlit("INFO: ");
        }
        let mut full_msg = String::from_str("INFO: ");
        full_msg.append(msg);
        proof {
            assert(full_msg@ =~= info_tag() + msg@);
        }
        self.push(full_msg.as_str(), epd)
    }

    /// Push a line tagged as a warning.
    pub fn log_warn<SPI, CS, DC, RST, BUSY, LED>(
        &mut self,
        msg: &str,
        epd: &mut Epd800x480<SPI, CS, DC, RST, BUSY, LED>,
    ) -> (p: Vec<BusOp>)
        requires
            old(self).buffer.well_formed(),
            old(epd).driver_state() == DriverState::Ready,
        ensures
            *final(epd) == *old(epd),
            final(self).buffer.well_formed(),
            !old(self).visible ==> p@.len() == 0,
            exists|t: u64|
                #[trigger] push_outcome(
                    *old(self),
                    t,
                    warn_tag() + msg@,
                    *final(self),
                    plan_view(p@),
                ),
    {
        proof {
            reveal_strlit("WARN: ");
        }
        let mut full_msg = String::from_str("WARN: ");
        full_msg.append(msg);
        proof {
            assert(full_msg@ =~= warn_tag() + msg@);
        }
        self.push(full_msg.as_str(), epd)
    }

    /// Push a line tagged as an error.
    pub fn log_error<SPI, CS, DC, RST, BUSY, LED>(
        &mut self,
        msg: &str,
        epd: &mut Epd800x480<SPI, CS, DC, RST, BUSY, LED>,
    ) -> (p: Vec<BusOp>)
        requires
            old(self).buffer.well_formed(),
            old(epd).driver_state() == DriverState::Ready,
        ensures
            *final(epd) == *old(epd),
            final(self).buffer.well_formed(),
            !old(self).visible ==> p@.len() == 0,
            exists|t: u64|
                #[trigger] push_outcome(
                    *old(self),
                    t,
                    error_tag() + msg@,
                    *final(self),
                    plan_view(p@),
                ),
    {
        proof {
            reveal_strlit("ERROR: ");
        }
        let mut full_msg = String::from_str("ERROR: ");
        full_msg.append(msg);
        proof {
            assert(full_msg@ =~= error_tag() + msg@);
        }
        self.push(full_msg.as_str(), epd)
    }
}

impl Default for ConsoleUI {
    /// A fresh, hidden console, as `new` builds it.
    fn default() -> (r: Self)
        ensures
            r.buffer.well_formed(),
            r.buffer.hist() == Seq::<Seq<char>>::empty(),
            r.visible == false,
    {
        ConsoleUI::new()
    }
}

} // verus!
