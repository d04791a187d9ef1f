//! Simplified panel console: a UI bound to the driver it draws on.
//!
//! The console owns the driver.  Each operation returns the plan the panel
//! must be sent; the unverified executor replays it on the hardware held in
//! `epd.bus` and `epd.led`, stopping at the first failure.

use vstd::prelude::*;

use crate::driver::{Epd800x480, DriverState, display_plan};
use crate::plan::{BusOp, BusOpV, plan_view};
use crate::console_ui::{ConsoleUI, push_outcome};
use crate::console_buffer::rendered_fb;

verus! {

/// A console bound to the panel driver it draws on.
pub struct EpdConsole<SPI, CS, DC, RST, BUSY, LED> {
    pub ui: ConsoleUI,
    pub epd: Epd800x480<SPI, CS, DC, RST, BUSY, LED>,
}

impl<SPI, CS, DC, RST, BUSY, LED> EpdConsole<SPI, CS, DC, RST, BUSY, LED> {
    /// A console with its own framebuffer, bound to an initialised driver.
    pub fn new(epd: Epd800x480<SPI, CS, DC, RST, BUSY, LED>) -> (r: Self)
        ensures
            r.ui.buffer.well_formed(),
            r.ui.buffer.hist() == Seq::<Seq<char>>::empty(),
            r.ui.visible == false,
            r.epd == epd,
    {
        EpdConsole { ui: ConsoleUI::new(), epd }
    }

    /// Push a line into history and plan the matching panel update.
    pub fn push(&mut self, s: &str) -> (p: Vec<BusOp>)
        requires
            old(self).ui.buffer.well_formed(),
            old(self).epd.driver_state() == DriverState::Ready,
        ensures
            final(self).epd == old(self).epd,
            final(self).ui.buffer.well_formed(),
            !old(self).ui.visible ==> p@.len() == 0,
            exists|t: u64|
                #[trigger] push_outcome(old(self).ui, t, s@, final(self).ui, plan_view(p@)),
    {
        self.ui.push(s, &mut self.epd)
    }

    /// Show the console: render and plan one full-frame display.
    pub fn show(&mut self) -> (p: Vec<BusOp>)
        requires
            old(self).ui.buffer.well_formed(),
            old(self).epd.driver_state() == DriverState::Ready,
        ensures
            final(self).epd == old(self).epd,
            final(self).ui.visible == true,
            final(self).ui.buffer.well_formed(),
            final(self).ui.buffer.hist() == old(self).ui.buffer.hist(),
            final(self).ui.buffer.fbv() == rendered_fb(
                old(self).ui.buffer.show_border,
                old(self).ui.buffer.hist(),
            ),
            plan_view(p@) == display_plan(final(self).ui.buffer.fbv()) + seq![
                BusOpV::DelayMs(50),
            ],
    {
        self.ui.show(&mut self.epd)
    }

    /// Hide the console; the bistable panel keeps its last image.
    pub fn conceal(&mut self)
        ensures
            final(self).epd == old(self).epd,
            final(self).ui == (ConsoleUI { buffer: old(self).ui.buffer, visible: false }),
    {
        self.ui.conceal();
    }
}

} // verus!
