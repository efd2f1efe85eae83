//! The bus between the driver and the controller.

mod lines;
mod wires;

pub mod parallel;
pub mod serial;

use vstd::prelude::*;
use crate::error::BusError;
use crate::words::Words;

verus! {

/// A bus that frames bytes as commands or as data.
///
/// The driver is written against this trait alone, so it works over any bus
/// that can tell the controller a command from data.
pub trait Interface {
    /// Sends `opcode`, marked as a command.
    fn write_command(&mut self, opcode: u8) -> Result<(), BusError>;

    /// Sends `bytes`, marked as data, in one burst.
    fn write_data(&mut self, bytes: &[u8]) -> Result<(), BusError>;

    /// Sends `words`, marked as data, in one burst: two bytes for each word,
    /// the more significant one first. The words are taken from the run one
    /// at a time.
    fn write_data_16be(&mut self, words: &mut Words<'_>) -> Result<(), BusError>;

    /// Reads the controller's status. A bus without a read line returns 0.
    fn read_status(&mut self) -> u8;

    /// Reads a byte of data. A bus without a read line returns 0.
    fn read_data(&mut self) -> u8;
}

} // verus!
