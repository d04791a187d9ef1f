//! Error taxonomy of the driver and of the bit packer.

use vstd::prelude::*;

verus! {

/// A failure of the serial bus: either the transfer itself or one of the
/// control pins.  The concrete hardware error values stay with the executor
/// that drives the pins; the library records which kind occurred.
#[derive(Copy, Clone, Debug, PartialEq, Eq, Structural)]
pub enum EpdBusError {
    /// The serial transfer failed.
    Spi,
    /// A pin write or read failed.
    Gpio,
}

/// A failure reported by the panel driver.
#[derive(Copy, Clone, Debug, PartialEq, Eq, Structural)]
pub enum EpdDriverError {
    /// The bus failed underneath the driver.
    Bus(EpdBusError),
    /// A full-frame buffer of the wrong size was supplied.
    BadBufferLen { expected: usize, got: usize },
}

/// A failure of the bit packer.
#[derive(Debug, Clone, Copy, PartialEq, Eq, Structural)]
pub enum PackError {
    /// The source bit count does not equal `w * h`.
    BadInputLen { expected: usize, got: usize },
    /// The output does not fit the destination buffer.
    OutBufTooSmall { needed: usize, got: usize },
    /// A pixel-count computation overflowed.
    Overflow,
}

} // verus!
