//! Driver library for an 800x480 bistable reflective display panel, with a
//! scrolling text console and the bit packer that marshals pixel regions
//! into the panel's byte-aligned wire format.
//!
//! The hardware-facing pieces are modelled as plans: every panel operation
//! is a verified function that computes the exact sequence of bus
//! operations (command bytes, data payloads, waits and delays) that must be
//! driven onto the serial bus.  An unverified executor outside this crate
//! replays a plan against the real pins and transfers, stopping at the
//! first failure.

pub mod geometry;
pub mod command;
pub mod error;
pub mod plan;
pub mod bytes;
pub mod driver;
pub mod luts;
pub mod pack;
pub mod stamp;
pub mod clock;
pub mod hist;
pub mod monobuf;
pub mod textdraw;
pub mod console_buffer;
pub mod console_ui;
pub mod console;

pub use geometry::{Rect, WIDTH, HEIGHT, BUF_SIZE};
pub use command::Command;
pub use error::{EpdBusError, EpdDriverError, PackError};
pub use plan::{BusOp, BusOpV};
pub use driver::{EpdBus, Epd800x480, DriverState, hb, lb};
pub use luts::{LutSet, DisplayMode};
pub use pack::pack_bitmap;
pub use monobuf::MonoBuf;
pub use console_buffer::{ConsoleBuffer, RefreshStrategy};
pub use console_ui::ConsoleUI;
pub use console::EpdConsole;
