//! Driver for the ILI9486 TFT LCD controller.
//!
//! The driver turns drawing requests into the controller's command and data
//! transfers. It reaches the hardware only through capabilities that the
//! caller supplies: the lines and the timer of [`hal`], and a bus that
//! implements [`interface::Interface`]. Two buses come with the crate, an
//! eight-bit parallel one and a serial one.
//!
//! The driver and the two buses each keep a ghost record of the operations
//! they have completed on the hardware, and the contracts of their functions
//! say how that record grows: by which operations, in which order, and how
//! far when a line or a transfer fails. Each record lives beside the
//! capabilities it speaks of in a module of its own, whose operations make
//! one call each, so that nothing is recorded without the call and nothing
//! is called without the record. What an implementation of a capability does
//! with a call is outside these contracts.

mod board;

pub mod command;
pub mod config;
pub mod driver;
pub mod error;
pub mod graphics;
pub mod hal;
pub mod interface;
pub mod protocol;
pub mod sequencer;
pub mod trace;
pub mod words;

pub use command::Command;
pub use config::{Config, Orientation, PixelFormat};
pub use driver::ILI9486;
pub use error::{BusError, DisplayError, PinError};
pub use graphics::{Pixel, Rgb565};
pub use interface::Interface;
pub use words::Words;
