//! The driver's hardware, kept together with the record of what was done to
//! it.
//!
//! The lines, the bus and the record are private to this module, and every
//! operation here makes exactly one call. So the rest of the crate can
//! neither reach the hardware without leaving an event in the record nor
//! add an event without making the call that it stands for.

use vstd::prelude::*;
use crate::error::DisplayError;
use crate::hal::{DelayMs, OutputPin};
use crate::interface::Interface;
use crate::trace::{fault_of, performed, Event};
use crate::words::{big_endian, Words};

verus! {

/// The bus `IF`, the chip-select line `CSX` and the reset line `RSX` of a
/// controller, and the record of every operation that has completed on them
/// or on the timer.
pub struct Board<CSX, RSX, IF> {
    interface: IF,
    chip_select: CSX,
    reset: RSX,
    trace: Ghost<Seq<Event>>,
}

impl<CSX, RSX, IF> Board<CSX, RSX, IF> where IF: Interface, CSX: OutputPin, RSX: OutputPin {
    /// Everything that has been done to the lines, the timer and the bus
    /// since the board was made, oldest first.
    pub closed spec fn trace(&self) -> Seq<Event> {
        self.trace@
    }

    /// Takes the bus and the lines. Nothing has been done to them yet.
    pub fn new(interface: IF, chip_select: CSX, reset: RSX) -> (board: Self)
        ensures
            board.trace() == Seq::<Event>::empty(),
    {
        Board { interface, chip_select, reset, trace: Ghost(Seq::empty()) }
    }

    /// Drives the chip-select line.
    pub fn select(&mut self, high: bool) -> (r: Result<(), DisplayError>)
        ensures
            performed(
                old(self).trace(),
                seq![Event::ChipSelect { high }],
                final(self).trace(),
                r,
            ),
    {
        let outcome = if high {
            self.chip_select.set_high()
        } else {
            self.chip_select.set_low()
        };
        let r = DisplayError::from_chip_select(outcome);
        self.settle(Ghost(Event::ChipSelect { high }), r)
    }

    /// Drives the reset line.
    pub fn drive_reset(&mut self, high: bool) -> (r: Result<(), DisplayError>)
        ensures
            performed(old(self).trace(), seq![Event::Reset { high }], final(self).trace(), r),
    {
        let outcome = if high {
            self.reset.set_high()
        } else {
            self.reset.set_low()
        };
        let r = DisplayError::from_reset(outcome);
        self.settle(Ghost(Event::Reset { high }), r)
    }

    /// Waits `ms` milliseconds on the caller's timer.
    pub fn pause<D: DelayMs>(&mut self, delay: &mut D, ms: u32)
        ensures
            final(self).trace() == old(self).trace().push(Event::Delay { ms }),
    {
        delay.delay_ms(ms);
        proof {
            self.trace@ = self.trace@.push(Event::Delay { ms });
        }
    }

    /// Sends one opcode, framed as a command.
    pub fn command(&mut self, opcode: u8) -> (r: Result<(), DisplayError>)
        ensures
            performed(old(self).trace(), seq![Event::Command { opcode }], final(self).trace(), r),
    {
        let r = DisplayError::from_bus(self.interface.write_command(opcode));
        self.settle(Ghost(Event::Command { opcode }), r)
    }

    /// Sends `bytes`, framed as data, in one burst.
    pub fn data(&mut self, bytes: &[u8]) -> (r: Result<(), DisplayError>)
        ensures
            performed(
                old(self).trace(),
                seq![Event::Data { bytes: bytes@ }],
                final(self).trace(),
                r,
            ),
    {
        let r = DisplayError::from_bus(self.interface.write_data(bytes));
        self.settle(Ghost(Event::Data { bytes: bytes@ }), r)
    }

    /// Sends a run of words, framed as data, in one burst.
    pub fn words(&mut self, run: &mut Words<'_>) -> (r: Result<(), DisplayError>)
        ensures
            performed(
                old(self).trace(),
                seq![Event::Data { bytes: big_endian(old(run)@) }],
                final(self).trace(),
                r,
            ),
    {
        let ghost bytes = big_endian(run@);
        let r = DisplayError::from_bus(self.interface.write_data_16be(run));
        self.settle(Ghost(Event::Data { bytes }), r)
    }

    /// What follows a call that stands for `event` and ended in `result`: if
    /// it succeeded the event is recorded, if not the record stays as it
    /// was. The result is handed on.
    fn settle(&mut self, Ghost(event): Ghost<Event>, result: Result<(), DisplayError>) -> (r:
        Result<(), DisplayError>)
        requires
            result matches Err(e) ==> fault_of(event) == Some(e),
        ensures
            r == result,
            final(self).trace() == if result is Ok {
                old(self).trace().push(event)
            } else {
                old(self).trace()
            },
            performed(old(self).trace(), seq![event], final(self).trace(), r),
    {
        proof {
            if result is Ok {
                self.trace@ = self.trace@.push(event);
                assert(old(self).trace().push(event) =~= old(self).trace() + seq![event]);
            }
        }
        result
    }
}

} // verus!
