//! Panel driver: lifecycle sequencing for the 800x480 panel.
//!
//! Each operation computes the exact plan (sequence of [`BusOp`]) that must
//! be driven onto the bus, and the driver tracks the panel's protocol state
//! so that operations cannot be sequenced out of order: the panel must be
//! initialised before it is drawn on, and a sleeping panel accepts nothing
//! until it is reset and initialised again.
//!
//! The executor that replays a plan stops at the first failing operation and
//! reports the underlying bus error; no retries happen at this level.

use vstd::prelude::*;

use crate::command::{Command, command_code};
use crate::geometry::{Rect, WIDTH, HEIGHT, BUF_SIZE};
use crate::error::EpdDriverError;
use crate::plan::{BusOp, BusOpV, plan_view};
use crate::bytes::{zeros, zeros_vec};

verus! {

/// The serial bus and its control pins, owned exclusively by one driver.
///
/// The fields are public so that the unverified executor can reach the
/// hardware when it replays a plan.
pub struct EpdBus<SPI, CS, DC, RST, BUSY> {
    pub spi: SPI,
    pub cs: CS,
    pub dc: DC,
    pub rst: RST,
    pub busy: BUSY,
}

impl<SPI, CS, DC, RST, BUSY> EpdBus<SPI, CS, DC, RST, BUSY> {
    pub fn new(spi: SPI, cs: CS, dc: DC, rst: RST, busy: BUSY) -> (r: Self)
        ensures
            r == (EpdBus { spi, cs, dc, rst, busy }),
    {
        EpdBus { spi, cs, dc, rst, busy }
    }

    /// Plan of a reset pulse with caller-chosen hold times: high, low, high
    /// again, pausing after each edge.
    pub fn reset(&mut self, t1_high_ms: u64, t_low_ms: u64, t2_high_ms: u64) -> (p: Vec<BusOp>)
        ensures
            *final(self) == *old(self),
            p@ =~= seq![
                BusOp::RstHigh,
                BusOp::DelayMs(t1_high_ms),
                BusOp::RstLow,
                BusOp::DelayMs(t_low_ms),
                BusOp::RstHigh,
                BusOp::DelayMs(t2_high_ms),
            ],
            plan_view(p@) == reset_plan(t1_high_ms, t_low_ms, t2_high_ms),
    {
        let mut p: Vec<BusOp> = Vec::new();
        p.push(BusOp::RstHigh);
        p.push(BusOp::DelayMs(t1_high_ms));
        p.push(BusOp::RstLow);
        p.push(BusOp::DelayMs(t_low_ms));
        p.push(BusOp::RstHigh);
        p.push(BusOp::DelayMs(t2_high_ms));
        proof {
            assert(plan_view(p@) =~~= reset_plan(t1_high_ms, t_low_ms, t2_high_ms));
        }
        p
    }
}

/// The panel's protocol state.
#[derive(Copy, Clone, Debug, PartialEq, Eq, Structural)]
pub enum DriverState {
    /// Powered but never initialised: only `init` is meaningful.
    Uninitialized,
    /// Initialised and accepting display operations.
    Ready,
    /// In deep sleep: only a hardware reset (via `init`) wakes the panel.
    Sleeping,
}

/// High byte of a 16-bit value.
pub fn hb(x: u16) -> (r: u8)
    ensures
        r == ((x >> 8) as u8),
{
    (x >> 8) as u8
}

/// Low byte of a 16-bit value.
pub fn lb(x: u16) -> (r: u8)
    ensures
        r == ((x & 0xFF) as u8),
{
    (x & 0xFF) as u8
}

/// Plan of a hardware reset pulse with the given hold times.
pub open spec fn reset_plan(t1_high_ms: u64, t_low_ms: u64, t2_high_ms: u64) -> Seq<BusOpV> {
    seq![
        BusOpV::RstHigh,
        BusOpV::DelayMs(t1_high_ms),
        BusOpV::RstLow,
        BusOpV::DelayMs(t_low_ms),
        BusOpV::RstHigh,
        BusOpV::DelayMs(t2_high_ms),
    ]
}

/// Plan of a ready-wait: query status, settle, then await the busy line,
/// with the activity indicator held high for the duration.
pub open spec fn wait_ready_plan() -> Seq<BusOpV> {
    seq![
        BusOpV::LedHigh,
        BusOpV::Cmd(command_code(Command::GetStatus)),
        BusOpV::DelayMs(20),
        BusOpV::WaitBusy,
        BusOpV::LedLow,
    ]
}

/// Plan of a refresh cycle.
pub open spec fn refresh_plan() -> Seq<BusOpV> {
    seq![BusOpV::Cmd(command_code(Command::DisplayRefresh))] + wait_ready_plan()
}

/// Plan of the power-up command sequence, after the hardware reset.
pub open spec fn init_command_plan() -> Seq<BusOpV> {
    seq![
        BusOpV::Cmd(command_code(Command::PowerSetting)),
        BusOpV::Data(seq![0x17u8, 0x17u8, 0x3fu8, 0x3fu8, 0x11u8]),
        BusOpV::Cmd(command_code(Command::VcomDc)),
        BusOpV::Data(seq![0x24u8]),
        BusOpV::Cmd(command_code(Command::Btst)),
        BusOpV::Data(seq![0x27u8, 0x27u8, 0x2Fu8, 0x17u8]),
        BusOpV::Cmd(command_code(Command::Pll)),
        BusOpV::Data(seq![0x06u8]),
        BusOpV::Cmd(command_code(Command::PowerOn)),
    ] + wait_ready_plan() + seq![
        BusOpV::Cmd(command_code(Command::PanelSetting)),
        BusOpV::Data(seq![0x1Fu8]),
        BusOpV::Cmd(command_code(Command::TRes)),
        BusOpV::Data(
            seq![
                ((WIDTH as u16) >> 8) as u8,
                ((WIDTH as u16) & 0xFF) as u8,
                ((HEIGHT as u16) >> 8) as u8,
                ((HEIGHT as u16) & 0xFF) as u8,
            ],
        ),
        BusOpV::Cmd(command_code(Command::DualSPI)),
        BusOpV::Data(seq![0x00u8]),
        BusOpV::Cmd(command_code(Command::VcomAndDataInterval)),
        BusOpV::Data(seq![0x10u8, 0x07u8]),
        BusOpV::Cmd(command_code(Command::TconSetting)),
        BusOpV::Data(seq![0x22u8]),
    ]
}

/// Plan of `init`: hardware reset, then the power-up command sequence.
pub open spec fn init_plan() -> Seq<BusOpV> {
    reset_plan(20, 2, 20) + init_command_plan()
}

/// Plan of a full-frame display: zero plane 1, real data to plane 2, refresh.
pub open spec fn display_plan(buf: Seq<u8>) -> Seq<BusOpV> {
    wait_ready_plan() + seq![
        BusOpV::Cmd(command_code(Command::DataStartTransmission1)),
        BusOpV::Data(zeros(BUF_SIZE as nat)),
        BusOpV::Cmd(command_code(Command::DataStartTransmission2)),
        BusOpV::Data(buf),
    ] + refresh_plan()
}

/// The nine-byte partial-window payload: four big-endian 16-bit inclusive
/// bounds followed by the fixed selector byte.
pub open spec fn partial_window_payload(r: Rect) -> Seq<u8>
    recommends
        r.is_partial_window(),
{
    let x_end = (r.x + r.w - 1) as usize;
    let y_end = (r.y + r.h - 1) as usize;
    seq![
        ((r.x >> 8) as u8),
        ((r.x & 0xFF) as u8),
        ((x_end >> 8) as u8),
        ((x_end & 0xFF) as u8),
        ((r.y >> 8) as u8),
        ((r.y & 0xFF) as u8),
        ((y_end >> 8) as u8),
        ((y_end & 0xFF) as u8),
        0x01u8,
    ]
}

/// Plan of a windowed display: enter partial mode, set the window, write the
/// packed bytes to plane 2, refresh, leave partial mode.
pub open spec fn display_partial_plan(buf: Seq<u8>, r: Rect) -> Seq<BusOpV> {
    wait_ready_plan() + seq![
        BusOpV::Cmd(command_code(Command::PartialIn)),
        BusOpV::Cmd(command_code(Command::PartialWindow)),
        BusOpV::Data(partial_window_payload(r)),
        BusOpV::Cmd(command_code(Command::DataStartTransmission2)),
        BusOpV::Data(buf),
    ] + refresh_plan() + seq![BusOpV::Cmd(command_code(Command::PartialOut))]
}

/// Plan of `clear`: zero-fill both transmission planes, then refresh.
pub open spec fn clear_plan() -> Seq<BusOpV> {
    wait_ready_plan() + seq![
        BusOpV::Cmd(command_code(Command::DataStartTransmission1)),
        BusOpV::Data(zeros(BUF_SIZE as nat)),
        BusOpV::Cmd(command_code(Command::DataStartTransmission2)),
        BusOpV::Data(zeros(BUF_SIZE as nat)),
    ] + refresh_plan()
}

/// Plan of `sleep`: power off, await ready, then the deep-sleep command with
/// its fixed confirmation byte.
pub open spec fn sleep_plan() -> Seq<BusOpV> {
    seq![BusOpV::Cmd(command_code(Command::PowerOff))] + wait_ready_plan() + seq![
        BusOpV::Cmd(command_code(Command::DeepSleep)),
        BusOpV::Data(seq![0xA5u8]),
    ]
}

/// Plan of an indicator blink.
pub open spec fn flash_led_plan() -> Seq<BusOpV> {
    seq![
        BusOpV::DelayMs(500),
        BusOpV::LedHigh,
        BusOpV::DelayMs(500),
        BusOpV::LedLow,
    ]
}

/// The driver of one 800x480 panel.  It owns the bus and the activity
/// indicator for its lifetime, and tracks the panel's protocol state.
pub struct Epd800x480<SPI, CS, DC, RST, BUSY, LED> {
    pub bus: EpdBus<SPI, CS, DC, RST, BUSY>,
    pub led: LED,
    pub state: DriverState,
}

impl<SPI, CS, DC, RST, BUSY, LED> Epd800x480<SPI, CS, DC, RST, BUSY, LED> {
    /// The panel's protocol state, as the driver tracks it.
    pub open spec fn driver_state(&self) -> DriverState {
        self.state
    }

    /// A new driver for an uninitialised panel.
    pub fn new(bus: EpdBus<SPI, CS, DC, RST, BUSY>, led: LED) -> (r: Self)
        ensures
            r.bus == bus,
            r.led == led,
            r.driver_state() == DriverState::Uninitialized,
    {
        Self { bus, led, state: DriverState::Uninitialized }
    }

    /// The panel's protocol state.
    pub fn state(&self) -> (s: DriverState)
        ensures
            s == self.driver_state(),
    {
        self.state
    }

    /// Plan of a hardware reset with the driver's hold times.  The panel
    /// forgets its configuration, so it must be initialised again.
    pub fn hw_reset(&mut self) -> (r: Vec<BusOp>)
        ensures
            plan_view(r@) == reset_plan(20, 2, 20),
            final(self).bus == old(self).bus,
            final(self).led == old(self).led,
            final(self).driver_state() == DriverState::Uninitialized,
    {
        self.state = DriverState::Uninitialized;
        self.bus.reset(20, 2, 20)
    }

    /// Plan of a ready-wait.  May be issued in any state; it only queries.
    pub fn wait_ready(&self) -> (r: Vec<BusOp>)
        ensures
            plan_view(r@) == wait_ready_plan(),
    {
        let mut p: Vec<BusOp> = Vec::new();
        push_wait_ready(&mut p);
        proof {
            assert(plan_view(p@) =~~= wait_ready_plan());
        }
        p
    }

    /// Plan of the full initialisation sequence.  Wakes the panel from any
    /// state (the reset pulse leaves deep sleep) and leaves it ready.
    pub fn init(&mut self) -> (r: Vec<BusOp>)
        ensures
            plan_view(r@) == init_plan(),
            final(self).bus == old(self).bus,
            final(self).led == old(self).led,
            final(self).driver_state() == DriverState::Ready,
    {
        self.state = DriverState::Ready;
        let mut p: Vec<BusOp> = self.bus.reset(20, 2, 20);
        p.push(BusOp::Cmd(Command::PowerSetting.code()));
        p.push(BusOp::Data(vec![0x17, 0x17, 0x3f, 0x3f, 0x11]));
        p.push(BusOp::Cmd(Command::VcomDc.code()));
        p.push(BusOp::Data(vec![0x24]));
        p.push(BusOp::Cmd(Command::Btst.code()));
        p.push(BusOp::Data(vec![0x27, 0x27, 0x2F, 0x17]));
        p.push(BusOp::Cmd(Command::Pll.code()));
        p.push(BusOp::Data(vec![0x06]));
        p.push(BusOp::Cmd(Command::PowerOn.code()));
        push_wait_ready(&mut p);
        p.push(BusOp::Cmd(Command::PanelSetting.code()));
        p.push(BusOp::Data(vec![0x1F]));
        p.push(BusOp::Cmd(Command::TRes.code()));
        p.push(BusOp::Data(vec![
            hb(WIDTH as u16),
            lb(WIDTH as u16),
            hb(HEIGHT as u16),
            lb(HEIGHT as u16),
        ]));
        p.push(BusOp::Cmd(Command::DualSPI.code()));
        p.push(BusOp::Data(vec![0x00]));
        p.push(BusOp::Cmd(Command::VcomAndDataInterval.code()));
        p.push(BusOp::Data(vec![0x10, 0x07]));
        p.push(BusOp::Cmd(Command::TconSetting.code()));
        p.push(BusOp::Data(vec![0x22]));
        proof {
            assert(plan_view(p@) =~~= init_plan());
        }
        p
    }

    /// Plan of a full-frame display of `buf`, which must hold exactly one
    /// full frame; a buffer of any other size is rejected before any bus
    /// operation is planned.
    pub fn display(&mut self, buf: &[u8]) -> (r: Result<Vec<BusOp>, EpdDriverError>)
        requires
            old(self).driver_state() == DriverState::Ready,
        ensures
            *final(self) == *old(self),
            buf@.len() == BUF_SIZE ==> (r matches Ok(p) && plan_view(p@) == display_plan(buf@)),
            buf@.len() != BUF_SIZE ==> r == Err::<Vec<BusOp>, EpdDriverError>(
                EpdDriverError::BadBufferLen { expected: BUF_SIZE, got: buf@.len() as usize },
            ),
    {
        if buf.len() != BUF_SIZE {
            return Err(EpdDriverError::BadBufferLen { expected: BUF_SIZE, got: buf.len() });
        }
        let mut p: Vec<BusOp> = Vec::new();
        push_wait_ready(&mut p);
        p.push(BusOp::Cmd(Command::DataStartTransmission1.code()));
        p.push(BusOp::Data(zeros_vec(BUF_SIZE)));
        p.push(BusOp::Cmd(Command::DataStartTransmission2.code()));
        p.push(BusOp::Data(vstd::slice::slice_to_vec(buf)));
        push_refresh(&mut p);
        proof {
            assert(plan_view(p@) =~~= display_plan(buf@));
        }
        Ok(p)
    }

    /// Plan of a windowed display.  The window must be byte-aligned and lie
    /// within the panel; `buf` is the packed content for that window, and its
    /// size is deliberately not validated against the window (the caller has
    /// already packed it; the asymmetry with `display` is kept).
    pub fn display_partial(&mut self, buf: &[u8], r: Rect) -> (p: Vec<BusOp>)
        requires
            old(self).driver_state() == DriverState::Ready,
            r.is_partial_window(),
        ensures
            *final(self) == *old(self),
            plan_view(p@) == display_partial_plan(buf@, r),
    {
        let x_start = r.x;
        let x_end = r.x + r.w - 1;
        let y_start = r.y;
        let y_end = r.y + r.h - 1;
        let payload: Vec<u8> = vec![
            (x_start >> 8) as u8,
            (x_start & 0xFF) as u8,
            (x_end >> 8) as u8,
            (x_end & 0xFF) as u8,
            (y_start >> 8) as u8,
            (y_start & 0xFF) as u8,
            (y_end >> 8) as u8,
            (y_end & 0xFF) as u8,
            0x01,
        ];
        proof {
            assert(payload@ =~= partial_window_payload(r));
        }
        let mut p: Vec<BusOp> = Vec::new();
        push_wait_ready(&mut p);
        p.push(BusOp::Cmd(Command::PartialIn.code()));
        p.push(BusOp::Cmd(Command::PartialWindow.code()));
        p.push(BusOp::Data(payload));
        p.push(BusOp::Cmd(Command::DataStartTransmission2.code()));
        p.push(BusOp::Data(vstd::slice::slice_to_vec(buf)));
        push_refresh(&mut p);
        p.push(BusOp::Cmd(Command::PartialOut.code()));
        proof {
            assert(plan_view(p@) =~~= display_partial_plan(buf@, r));
        }
        p
    }

    /// Plan of a whole-panel clear: both planes zeroed, then a refresh.
    pub fn clear(&mut self) -> (p: Vec<BusOp>)
        requires
            old(self).driver_state() == DriverState::Ready,
        ensures
            *final(self) == *old(self),
            plan_view(p@) == clear_plan(),
    {
        let mut p: Vec<BusOp> = Vec::new();
        push_wait_ready(&mut p);
        p.push(BusOp::Cmd(Command::DataStartTransmission1.code()));
        p.push(BusOp::Data(zeros_vec(BUF_SIZE)));
        p.push(BusOp::Cmd(Command::DataStartTransmission2.code()));
        p.push(BusOp::Data(zeros_vec(BUF_SIZE)));
        push_refresh(&mut p);
        proof {
            assert(plan_view(p@) =~~= clear_plan());
        }
        p
    }

    /// Plan of the deep-sleep sequence.  The panel then accepts nothing
    /// until it is reset and initialised again.
    pub fn sleep(&mut self) -> (p: Vec<BusOp>)
        requires
            old(self).driver_state() == DriverState::Ready,
        ensures
            final(self).bus == old(self).bus,
            final(self).led == old(self).led,
            final(self).driver_state() == DriverState::Sleeping,
            plan_view(p@) == sleep_plan(),
    {
        self.state = DriverState::Sleeping;
        let mut p: Vec<BusOp> = Vec::new();
        p.push(BusOp::Cmd(Command::PowerOff.code()));
        push_wait_ready(&mut p);
        p.push(BusOp::Cmd(Command::DeepSleep.code()));
        p.push(BusOp::Data(vec![0xA5]));
        proof {
            assert(plan_view(p@) =~~= sleep_plan());
        }
        p
    }

    /// Plan of an indicator blink.
    pub fn flash_led(&self) -> (p: Vec<BusOp>)
        ensures
            plan_view(p@) == flash_led_plan(),
    {
        let mut p: Vec<BusOp> = Vec::new();
        p.push(BusOp::DelayMs(500));
        p.push(BusOp::LedHigh);
        p.push(BusOp::DelayMs(500));
        p.push(BusOp::LedLow);
        proof {
            assert(plan_view(p@) =~~= flash_led_plan());
        }
        p
    }
}

/// Append the ready-wait plan.
fn push_wait_ready(p: &mut Vec<BusOp>)
    ensures
        final(p)@ =~= old(p)@ + seq![
            BusOp::LedHigh,
            BusOp::Cmd(command_code(Command::GetStatus)),
            BusOp::DelayMs(20),
            BusOp::WaitBusy,
            BusOp::LedLow,
        ],
        plan_view(final(p)@) =~~= plan_view(old(p)@) + wait_ready_plan(),
{
    p.push(BusOp::LedHigh);
    p.push(BusOp::Cmd(Command::GetStatus.code()));
    p.push(BusOp::DelayMs(20));
    p.push(BusOp::WaitBusy);
    p.push(BusOp::LedLow);
}

/// Append the refresh-cycle plan.
fn push_refresh(p: &mut Vec<BusOp>)
    ensures
        final(p)@ =~= old(p)@ + seq![
            BusOp::Cmd(command_code(Command::DisplayRefresh)),
            BusOp::LedHigh,
            BusOp::Cmd(command_code(Command::GetStatus)),
            BusOp::DelayMs(20),
            BusOp::WaitBusy,
            BusOp::LedLow,
        ],
        plan_view(final(p)@) =~~= plan_view(old(p)@) + refresh_plan(),
{
    p.push(BusOp::Cmd(Command::DisplayRefresh.code()));
    push_wait_ready(p);
}

} // verus!
