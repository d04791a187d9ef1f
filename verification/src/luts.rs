//! Waveform lookup tables.
//!
//! A mode selects an immutable bundle of seven booster/voltage-frame timing
//! bytes plus five 42-byte voltage tables.  A bundle is always loaded whole;
//! no partial mixing of tables is supported.
//!
//! Every mode currently registers the same high-contrast fast-text bundle;
//! the per-mode selection point is kept so the modes can carry distinct
//! tables without any caller changing.

use vstd::prelude::*;

use crate::command::{Command, command_code};
use crate::driver::Epd800x480;
use crate::plan::{BusOp, BusOpV, plan_view};

verus! {

/// An immutable bundle of waveform tables, selected as a whole per mode.
pub struct LutSet {
    pub voltage_frame: [u8; 7],
    pub vcom: [u8; 42],
    pub ww: [u8; 42],
    pub bw: [u8; 42],
    pub wb: [u8; 42],
    pub bb: [u8; 42],
}

/// A display refresh mode.
#[derive(Debug, Copy, Clone, PartialEq, Eq, Structural)]
pub enum DisplayMode {
    /// Full, multi-phase refresh for best image quality.
    Official,
    /// Fast refresh mode.
    Fast,
    /// Terminal optimized mode.
    Terminal,
}

/// The booster / voltage-frame timing bytes.
pub open spec fn voltage_frame_table() -> Seq<u8> {
    seq![0x06u8, 0x24, 0x24, 0x08, 0x14, 0x04, 0x10]
}

/// The VCOM voltage table.
pub open spec fn vcom_table() -> Seq<u8> {
    seq![
        0x00u8, 0x0F, 0x0F, 0x00, 0x00, 0x02, 0x00, 0x02, 0x00, 0x02, 0x00, 0x01, 0, 0, 0, 0,
        0, 0, 0, 0, 0, 0, 0, 0, 0, 0, 0, 0, 0, 0, 0, 0, 0, 0, 0, 0, 0, 0, 0, 0, 0, 0,
    ]
}

/// The white-to-white voltage table.
pub open spec fn ww_table() -> Seq<u8> {
    seq![
        0x10u8, 0x00, 0x00, 0x00, 0x00, 0x00, 0x20, 0x01, 0x00, 0x01, 0x00, 0x01, 0, 0, 0, 0,
        0, 0, 0, 0, 0, 0, 0, 0, 0, 0, 0, 0, 0, 0, 0, 0, 0, 0, 0, 0, 0, 0, 0, 0, 0, 0,
    ]
}

/// The black-to-white voltage table.
pub open spec fn bw_table() -> Seq<u8> {
    seq![
        0x10u8, 0x0F, 0x0F, 0x00, 0x00, 0x03, 0x84, 0x05, 0x00, 0x05, 0x00, 0x01, 0, 0, 0, 0,
        0, 0, 0, 0, 0, 0, 0, 0, 0, 0, 0, 0, 0, 0, 0, 0, 0, 0, 0, 0, 0, 0, 0, 0, 0, 0,
    ]
}

/// The white-to-black voltage table.
pub open spec fn wb_table() -> Seq<u8> {
    seq![
        0x80u8, 0x0F, 0x0F, 0x00, 0x00, 0x01, 0x40, 0x05, 0x00, 0x05, 0x00, 0x01, 0, 0, 0, 0,
        0, 0, 0, 0, 0, 0, 0, 0, 0, 0, 0, 0, 0, 0, 0, 0, 0, 0, 0, 0, 0, 0, 0, 0, 0, 0,
    ]
}

/// The black-to-black voltage table.
pub open spec fn bb_table() -> Seq<u8> {
    seq![
        0x80u8, 0x00, 0x00, 0x00, 0x00, 0x00, 0x40, 0x01, 0x00, 0x01, 0x00, 0x01, 0, 0, 0, 0,
        0, 0, 0, 0, 0, 0, 0, 0, 0, 0, 0, 0, 0, 0, 0, 0, 0, 0, 0, 0, 0, 0, 0, 0, 0, 0,
    ]
}

/// A bundle holds exactly the registered waveform tables.
pub open spec fn lut_set_well_formed(l: LutSet) -> bool {
    &&& l.voltage_frame@ == voltage_frame_table()
    &&& l.vcom@ == vcom_table()
    &&& l.ww@ == ww_table()
    &&& l.bw@ == bw_table()
    &&& l.wb@ == wb_table()
    &&& l.bb@ == bb_table()
}

impl DisplayMode {
    /// The waveform bundle of this mode.
    pub fn lut_set(&self) -> (r: LutSet)
        ensures
            lut_set_well_formed(r),
    {
        let voltage_frame: [u8; 7] = [0x06, 0x24, 0x24, 0x08, 0x14, 0x04, 0x10];
        let vcom: [u8; 42] = [
            0x00, 0x0F, 0x0F, 0x00, 0x00, 0x02, 0x00, 0x02, 0x00, 0x02, 0x00, 0x01, 0, 0, 0, 0,
            0, 0, 0, 0, 0, 0, 0, 0, 0, 0, 0, 0, 0, 0, 0, 0, 0, 0, 0, 0, 0, 0, 0, 0, 0, 0,
        ];
        let ww: [u8; 42] = [
            0x10, 0x00, 0x00, 0x00, 0x00, 0x00, 0x20, 0x01, 0x00, 0x01, 0x00, 0x01, 0, 0, 0, 0,
            0, 0, 0, 0, 0, 0, 0, 0, 0, 0, 0, 0, 0, 0, 0, 0, 0, 0, 0, 0, 0, 0, 0, 0, 0, 0,
        ];
        let bw: [u8; 42] = [
            0x10, 0x0F, 0x0F, 0x00, 0x00, 0x03, 0x84, 0x05, 0x00, 0x05, 0x00, 0x01, 0, 0, 0, 0,
            0, 0, 0, 0, 0, 0, 0, 0, 0, 0, 0, 0, 0, 0, 0, 0, 0, 0, 0, 0, 0, 0, 0, 0, 0, 0,
        ];
        let wb: [u8; 42] = [
            0x80, 0x0F, 0x0F, 0x00, 0x00, 0x01, 0x40, 0x05, 0x00, 0x05, 0x00, 0x01, 0, 0, 0, 0,
            0, 0, 0, 0, 0, 0, 0, 0, 0, 0, 0, 0, 0, 0, 0, 0, 0, 0, 0, 0, 0, 0, 0, 0, 0, 0,
        ];
        let bb: [u8; 42] = [
            0x80, 0x00, 0x00, 0x00, 0x00, 0x00, 0x40, 0x01, 0x00, 0x01, 0x00, 0x01, 0, 0, 0, 0,
            0, 0, 0, 0, 0, 0, 0, 0, 0, 0, 0, 0, 0, 0, 0, 0, 0, 0, 0, 0, 0, 0, 0, 0, 0, 0,
        ];
        let r = LutSet { voltage_frame, vcom, ww, bw, wb, bb };
        proof {
            assert(r.voltage_frame@ =~= voltage_frame_table());
            assert(r.vcom@ =~= vcom_table());
            assert(r.ww@ =~= ww_table());
            assert(r.bw@ =~= bw_table());
            assert(r.wb@ =~= wb_table());
            assert(r.bb@ =~= bb_table());
        }
        r
    }
}

/// Plan of a mode switch: force the register-LUT sub-mode, then rewrite the
/// booster bytes and all five voltage tables in their fixed order.
pub open spec fn set_mode_plan(mode: DisplayMode) -> Seq<BusOpV> {
    seq![
        BusOpV::Cmd(command_code(Command::PanelSetting)),
        BusOpV::Data(seq![0x3Fu8]),
        BusOpV::Cmd(command_code(Command::Btst)),
        BusOpV::Data(voltage_frame_table()),
        BusOpV::Cmd(command_code(Command::Vcom)),
        BusOpV::Data(vcom_table()),
        BusOpV::Cmd(command_code(Command::LutWw)),
        BusOpV::Data(ww_table()),
        BusOpV::Cmd(command_code(Command::LutBw)),
        BusOpV::Data(bw_table()),
        BusOpV::Cmd(command_code(Command::LutWb)),
        BusOpV::Data(wb_table()),
        BusOpV::Cmd(command_code(Command::LutBb)),
        BusOpV::Data(bb_table()),
    ]
}

impl<SPI, CS, DC, RST, BUSY, LED> Epd800x480<SPI, CS, DC, RST, BUSY, LED> {
    /// Plan of a whole-bundle mode switch.
    pub fn set_mode(&mut self, mode: DisplayMode) -> (p: Vec<BusOp>)
        requires
            old(self).driver_state() == crate::driver::DriverState::Ready,
        ensures
            *final(self) == *old(self),
            plan_view(p@) == set_mode_plan(mode),
    {
        let luts = mode.lut_set();
        let mut p: Vec<BusOp> = Vec::new();
        p.push(BusOp::Cmd(Command::PanelSetting.code()));
        p.push(BusOp::Data(vec![0x3F]));
        p.push(BusOp::Cmd(Command::Btst.code()));
        p.push(BusOp::Data(vstd::slice::slice_to_vec(luts.voltage_frame.as_slice())));
        p.push(BusOp::Cmd(Command::Vcom.code()));
        p.push(BusOp::Data(vstd::slice::slice_to_vec(luts.vcom.as_slice())));
        p.push(BusOp::Cmd(Command::LutWw.code()));
        p.push(BusOp::Data(vstd::slice::slice_to_vec(luts.ww.as_slice())));
        p.push(BusOp::Cmd(Command::LutBw.code()));
        p.push(BusOp::Data(vstd::slice::slice_to_vec(luts.bw.as_slice())));
        p.push(BusOp::Cmd(Command::LutWb.code()));
        p.push(BusOp::Data(vstd::slice::slice_to_vec(luts.wb.as_slice())));
        p.push(BusOp::Cmd(Command::LutBb.code()));
        p.push(BusOp::Data(vstd::slice::slice_to_vec(luts.bb.as_slice())));
        proof {
            assert(plan_view(p@) =~~= set_mode_plan(mode));
        }
        p
    }
}

} // verus!
