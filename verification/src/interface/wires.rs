//! The link and the select line of a serial bus, kept together with the
//! record of what was done to them.
//!
//! The link, the pin and the record are private to this module, and each of
//! the two operations here makes one call. So the bus can neither reach the
//! link or the pin without leaving a transfer in the record nor add a
//! transfer without making the call that it stands for.

use vstd::prelude::*;
use crate::error::{BusError, PinError};
use crate::hal::{OutputPin, SerialWrite};
use crate::interface::serial::Transfer;

verus! {

/// The link `SPI` and the data/command line `DCX` of a serial bus, and the
/// record of every operation that has completed on them.
pub struct Wires<SPI, DCX> {
    spi: SPI,
    dcx: DCX,
    sent: Ghost<Seq<Transfer>>,
}

impl<SPI: SerialWrite, DCX: OutputPin> Wires<SPI, DCX> {
    /// Every operation that has completed since the link and the line were
    /// taken, oldest first.
    pub closed spec fn sent(&self) -> Seq<Transfer> {
        self.sent@
    }

    /// Takes the link and the line. Nothing has been done to them yet.
    pub fn new(spi: SPI, dcx: DCX) -> (wires: Self)
        ensures
            wires.sent() == Seq::<Transfer>::empty(),
    {
        Wires { spi, dcx, sent: Ghost(Seq::empty()) }
    }

    /// Drives the data/command line: calls its pin and hands the pin's
    /// answer to [`settle_select`](Self::settle_select).
    pub fn select(&mut self, high: bool) -> (r: Result<(), BusError>)
        ensures
            r is Ok ==> final(self).sent() == old(self).sent().push(
                Transfer::DataCommand { high },
            ),
            r is Err ==> final(self).sent() == old(self).sent(),
    {
        let outcome = if high {
            self.dcx.set_high()
        } else {
            self.dcx.set_low()
        };
        self.settle_select(high, outcome)
    }

    /// What follows the attempt to drive the data/command line, whose pin
    /// answered `outcome`: if the pin reported success, the drive is recorded
    /// and the bus goes on; if it reported a fault, nothing is recorded and
    /// the bus reports a fault of its own.
    fn settle_select(&mut self, high: bool, outcome: Result<(), PinError>) -> (r: Result<
        (),
        BusError,
    >)
        ensures
            r is Ok <==> outcome is Ok,
            final(self).sent() == if outcome is Ok {
                old(self).sent().push(Transfer::DataCommand { high })
            } else {
                old(self).sent()
            },
    {
        let r = BusError::from_pin(outcome);
        proof {
            if r is Ok {
                self.sent@ = self.sent@.push(Transfer::DataCommand { high });
            }
        }
        r
    }

    /// Writes `bytes` to the link: calls the link and hands its answer to
    /// [`settle_write`](Self::settle_write).
    pub fn write(&mut self, bytes: &[u8]) -> (r: Result<(), BusError>)
        ensures
            r is Ok ==> final(self).sent() == old(self).sent().push(
                Transfer::Bytes { bytes: bytes@ },
            ),
            r is Err ==> final(self).sent() == old(self).sent(),
    {
        let outcome = self.spi.write(bytes);
        self.settle_write(bytes, outcome)
    }

    /// What follows the attempt to write `bytes`, which the link answered
    /// with `outcome`: if the link reported success, the write is recorded;
    /// if it reported a fault, nothing is recorded. Either way the link's
    /// answer is the bus's answer.
    fn settle_write(&mut self, bytes: &[u8], outcome: Result<(), BusError>) -> (r: Result<
        (),
        BusError,
    >)
        ensures
            r == outcome,
            final(self).sent() == if outcome is Ok {
                old(self).sent().push(Transfer::Bytes { bytes: bytes@ })
            } else {
                old(self).sent()
            },
    {
        proof {
            if outcome is Ok {
                self.sent@ = self.sent@.push(Transfer::Bytes { bytes: bytes@ });
            }
        }
        outcome
    }
}

} // verus!
