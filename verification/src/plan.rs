//! Bus operations.
//!
//! A plan is a `Vec<BusOp>`: the exact sequence of operations that an
//! executor must drive onto the hardware, in order, stopping at the first
//! failure.  Command and data framing (data/command select, chip select and
//! its unconditional release) belongs to the executor; the plan fixes which
//! bytes go out and in what order.

use vstd::prelude::*;

verus! {

/// One operation on the panel bus.
#[derive(Debug, Clone, PartialEq, Eq)]
pub enum BusOp {
    /// Frame one command byte (data/command select low).
    Cmd(u8),
    /// Frame a data payload (data/command select high).
    Data(Vec<u8>),
    /// Suspend until the busy line reports ready.
    WaitBusy,
    /// Pause for the given number of milliseconds.
    DelayMs(u64),
    /// Drive the reset line high.
    RstHigh,
    /// Drive the reset line low.
    RstLow,
    /// Drive the activity indicator high.  Indicator failures are ignored.
    LedHigh,
    /// Drive the activity indicator low.  Indicator failures are ignored.
    LedLow,
}

/// The mathematical value of a bus operation.
#[verifier::ext_equal]
pub enum BusOpV {
    Cmd(u8),
    Data(Seq<u8>),
    WaitBusy,
    DelayMs(u64),
    RstHigh,
    RstLow,
    LedHigh,
    LedLow,
}

impl View for BusOp {
    type V = BusOpV;

    open spec fn view(&self) -> BusOpV {
        match self {
            BusOp::Cmd(b) => BusOpV::Cmd(*b),
            BusOp::Data(d) => BusOpV::Data(d@),
            BusOp::WaitBusy => BusOpV::WaitBusy,
            BusOp::DelayMs(t) => BusOpV::DelayMs(*t),
            BusOp::RstHigh => BusOpV::RstHigh,
            BusOp::RstLow => BusOpV::RstLow,
            BusOp::LedHigh => BusOpV::LedHigh,
            BusOp::LedLow => BusOpV::LedLow,
        }
    }
}

/// The mathematical value of a whole plan.
pub open spec fn plan_view(p: Seq<BusOp>) -> Seq<BusOpV> {
    p.map(|i: int, op: BusOp| op@)
}

} // verus!
