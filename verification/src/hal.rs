//! The capabilities of the board that the driver consumes.
//!
//! The caller implements these for its pins, its link and its timer. They
//! have the shape of the `embedded-hal` traits they are named after, so an
//! implementation over one of those is a few lines. The driver promises
//! nothing about what an implementation does; it states which calls it
//! makes, and in which order.

use vstd::prelude::*;
use crate::error::{BusError, PinError};

verus! {

/// A digital push-pull output line.
pub trait OutputPin {
    /// Drives the line high.
    fn set_high(&mut self) -> Result<(), PinError>;

    /// Drives the line low.
    fn set_low(&mut self) -> Result<(), PinError>;
}

/// A byte-wide serial link to the controller, such as an SPI bus with the
/// controller selected.
pub trait SerialWrite {
    /// Writes `bytes` to the link, in order.
    fn write(&mut self, bytes: &[u8]) -> Result<(), BusError>;
}

/// A blocking delay.
pub trait DelayMs {
    /// Returns after at least `ms` milliseconds.
    fn delay_ms(&mut self, ms: u32);
}

} // verus!
