//! The panel's command set.

use vstd::prelude::*;

verus! {

/// A command byte of the panel's serial protocol.
#[derive(Copy, Clone, Debug, Eq, PartialEq, Structural)]
pub enum Command {
    PanelSetting,
    PowerSetting,
    PowerOff,
    PowerOn,
    /// Booster soft start.
    Btst,
    DeepSleep,
    DataStartTransmission1,
    DisplayRefresh,
    DataStartTransmission2,
    DualSPI,
    Vcom,
    LutWw,
    LutBw,
    LutWb,
    LutBb,
    LutOpt,
    Pll,
    Tsc,
    Tse,
    VcomAndDataInterval,
    Evs,
    TconSetting,
    TRes,
    ResolutionSetting,
    GetStatus,
    VcomDc,
    PartialWindow,
    PartialIn,
    PartialOut,
}

/// The wire byte of each command.
pub open spec fn command_code(c: Command) -> u8 {
    match c {
        Command::PanelSetting => 0x00,
        Command::PowerSetting => 0x01,
        Command::PowerOff => 0x02,
        Command::PowerOn => 0x04,
        Command::Btst => 0x06,
        Command::DeepSleep => 0x07,
        Command::DataStartTransmission1 => 0x10,
        Command::DisplayRefresh => 0x12,
        Command::DataStartTransmission2 => 0x13,
        Command::DualSPI => 0x15,
        Command::Vcom => 0x20,
        Command::LutWw => 0x21,
        Command::LutBw => 0x22,
        Command::LutWb => 0x23,
        Command::LutBb => 0x24,
        Command::LutOpt => 0x2A,
        Command::Pll => 0x30,
        Command::Tsc => 0x40,
        Command::Tse => 0x41,
        Command::VcomAndDataInterval => 0x50,
        Command::Evs => 0x52,
        Command::TconSetting => 0x60,
        Command::TRes => 0x61,
        Command::ResolutionSetting => 0x65,
        Command::GetStatus => 0x71,
        Command::VcomDc => 0x82,
        Command::PartialWindow => 0x90,
        Command::PartialIn => 0x91,
        Command::PartialOut => 0x92,
    }
}

impl Command {
    /// The byte sent on the bus for this command.
    pub fn code(self) -> (r: u8)
        ensures
            r == command_code(self),
    {
        match self {
            Command::PanelSetting => 0x00,
            Command::PowerSetting => 0x01,
            Command::PowerOff => 0x02,
            Command::PowerOn => 0x04,
            Command::Btst => 0x06,
            Command::DeepSleep => 0x07,
            Command::DataStartTransmission1 => 0x10,
            Command::DisplayRefresh => 0x12,
            Command::DataStartTransmission2 => 0x13,
            Command::DualSPI => 0x15,
            Command::Vcom => 0x20,
            Command::LutWw => 0x21,
            Command::LutBw => 0x22,
            Command::LutWb => 0x23,
            Command::LutBb => 0x24,
            Command::LutOpt => 0x2A,
            Command::Pll => 0x30,
            Command::Tsc => 0x40,
            Command::Tse => 0x41,
            Command::VcomAndDataInterval => 0x50,
            Command::Evs => 0x52,
            Command::TconSetting => 0x60,
            Command::TRes => 0x61,
            Command::ResolutionSetting => 0x65,
            Command::GetStatus => 0x71,
            Command::VcomDc => 0x82,
            Command::PartialWindow => 0x90,
            Command::PartialIn => 0x91,
            Command::PartialOut => 0x92,
        }
    }
}

} // verus!
