//! The lines of a parallel bus, kept together with the record of what was
//! done to them.
//!
//! The pins and the record are private to this module, and the one
//! operation here drives one pin. So the bus can neither reach a pin without
//! leaving a drive in the record nor add a drive without calling the pin.

use vstd::prelude::*;
use crate::error::{BusError, PinError};
use crate::hal::OutputPin;
use crate::interface::parallel::{Drive, Line};

verus! {

/// The write strobe `WRX`, the read strobe `RDX`, the data/command line
/// `DCX` and the eight data lines `DB` of a parallel bus, and the record of
/// every drive that has completed on them.
pub struct Lines<WRX, RDX, DCX, DB> {
    wrx: WRX,
    rdx: RDX,
    dcx: DCX,
    dbus: [DB; 8],
    driven: Ghost<Seq<Drive>>,
}

impl<WRX: OutputPin, RDX: OutputPin, DCX: OutputPin, DB: OutputPin> Lines<WRX, RDX, DCX, DB> {
    /// Every drive that has completed since the lines were taken, oldest
    /// first.
    pub closed spec fn driven(&self) -> Seq<Drive> {
        self.driven@
    }

    /// Takes the lines. Nothing has been done to them yet.
    pub fn new(wrx: WRX, rdx: RDX, dcx: DCX, dbus: [DB; 8]) -> (lines: Self)
        ensures
            lines.driven() == Seq::<Drive>::empty(),
    {
        Lines { wrx, rdx, dcx, dbus, driven: Ghost(Seq::empty()) }
    }

    /// Drives one line: calls its pin and hands the pin's answer to
    /// [`settle`](Self::settle).
    pub fn drive(&mut self, line: Line, high: bool) -> (r: Result<(), BusError>)
        requires
            line matches Line::Data { bit } ==> bit < 8,
        ensures
            r is Ok ==> final(self).driven() == old(self).driven().push(Drive { line, high }),
            r is Err ==> final(self).driven() == old(self).driven(),
    {
        let outcome = match line {
            Line::Write => if high {
                self.wrx.set_high()
            } else {
                self.wrx.set_low()
            },
            Line::Read => if high {
                self.rdx.set_high()
            } else {
                self.rdx.set_low()
            },
            Line::DataCommand => if high {
                self.dcx.set_high()
            } else {
                self.dcx.set_low()
            },
            Line::Data { bit } => if high {
                self.dbus[bit as usize].set_high()
            } else {
                self.dbus[bit as usize].set_low()
            },
        };
        self.settle(line, high, outcome)
    }

    /// What follows the attempt to drive `line`, whose pin answered
    /// `outcome`: if the pin reported success, the drive is recorded and the
    /// bus goes on; if it reported a fault, nothing is recorded and the bus
    /// reports a fault of its own.
    fn settle(&mut self, line: Line, high: bool, outcome: Result<(), PinError>) -> (r: Result<
        (),
        BusError,
    >)
        ensures
            r is Ok <==> outcome is Ok,
            final(self).driven() == if outcome is Ok {
                old(self).driven().push(Drive { line, high })
            } else {
                old(self).driven()
            },
    {
        let r = BusError::from_pin(outcome);
        proof {
            if r is Ok {
                self.driven@ = self.driven@.push(Drive { line, high });
            }
        }
        r
    }
}

} // verus!
