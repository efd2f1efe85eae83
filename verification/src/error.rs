//! The failures the driver and its transports report.

use vstd::prelude::*;

verus! {

/// A digital output line could not be driven.
#[derive(Clone, Copy, PartialEq, Eq, Structural, Debug)]
pub struct PinError;

/// A transfer on the command/data bus did not complete.
#[derive(Clone, Copy, PartialEq, Eq, Structural, Debug)]
pub struct BusError;

/// Why an operation of the driver stopped: the line or the transfer that
/// failed.
#[derive(Clone, Copy, PartialEq, Eq, Structural, Debug)]
pub enum DisplayError {
    /// The chip-select line could not be driven.
    ChipSelect,
    /// The reset line could not be driven.
    Reset,
    /// A command or data transfer failed on the bus.
    Bus,
}

impl DisplayError {
    /// The driver's result once the chip-select line has answered `outcome`.
    pub fn from_chip_select(outcome: Result<(), PinError>) -> (r: Result<(), DisplayError>)
        ensures
            outcome is Ok ==> r == Ok::<(), DisplayError>(()),
            outcome is Err ==> r == Err::<(), DisplayError>(DisplayError::ChipSelect),
    {
        match outcome {
            Ok(()) => Ok(()),
            Err(_) => Err(DisplayError::ChipSelect),
        }
    }

    /// The driver's result once the reset line has answered `outcome`.
    pub fn from_reset(outcome: Result<(), PinError>) -> (r: Result<(), DisplayError>)
        ensures
            outcome is Ok ==> r == Ok::<(), DisplayError>(()),
            outcome is Err ==> r == Err::<(), DisplayError>(DisplayError::Reset),
    {
        match outcome {
            Ok(()) => Ok(()),
            Err(_) => Err(DisplayError::Reset),
        }
    }

    /// The driver's result once the bus has answered `outcome`.
    pub fn from_bus(outcome: Result<(), BusError>) -> (r: Result<(), DisplayError>)
        ensures
            outcome is Ok ==> r == Ok::<(), DisplayError>(()),
            outcome is Err ==> r == Err::<(), DisplayError>(DisplayError::Bus),
    {
        match outcome {
            Ok(()) => Ok(()),
            Err(_) => Err(DisplayError::Bus),
        }
    }
}

impl BusError {
    /// A transport's result once one of its lines has answered `outcome`.
    pub fn from_pin(outcome: Result<(), PinError>) -> (r: Result<(), BusError>)
        ensures
            outcome is Ok <==> r is Ok,
    {
        match outcome {
            Ok(()) => Ok(()),
            Err(_) => Err(BusError),
        }
    }
}

} // verus!
