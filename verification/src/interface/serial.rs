//! A serial bus: a byte-wide link such as SPI, and a data/command select
//! line beside it.
//!
//! The data/command line is low while a command byte goes over the link and
//! high otherwise.

use vstd::prelude::*;
use crate::error::BusError;
use crate::hal::{OutputPin, SerialWrite};
use crate::interface::wires::Wires;
use crate::interface::Interface;
use crate::trace::advanced;
use crate::words::{high_byte, low_byte, split, Words};

verus! {

/// One completed operation of a serial bus.
pub enum Transfer {
    /// The data/command line was driven high or low.
    DataCommand { high: bool },
    /// The link carried `bytes` in one write.
    Bytes { bytes: Seq<u8> },
}

/// Sending a command: the data/command line goes low, the opcode goes over
/// the link, the data/command line goes back high.
pub open spec fn command_transfers(opcode: u8) -> Seq<Transfer> {
    seq![
        Transfer::DataCommand { high: false },
        Transfer::Bytes { bytes: seq![opcode] },
        Transfer::DataCommand { high: true },
    ]
}

/// Sending data: the bytes go over the link in one write.
pub open spec fn data_transfers(bytes: Seq<u8>) -> Seq<Transfer> {
    seq![Transfer::Bytes { bytes }]
}

/// Sending words: each word goes over the link in a write of its own, the
/// more significant byte first.
pub open spec fn word_transfers(words: Seq<u16>) -> Seq<Transfer> {
    Seq::new(
        words.len(),
        |i: int| Transfer::Bytes { bytes: seq![high_byte(words[i]), low_byte(words[i])] },
    )
}

/// A serial bus over the caller's link `SPI` and data/command line `DCX`.
///
/// The two are kept together with a record of every operation that has
/// completed on them: what the bus has [`sent`](Self::sent). The bus
/// reaches them only one call at a time, and each call that succeeds is
/// recorded.
pub struct Serial<SPI, DCX> {
    wires: Wires<SPI, DCX>,
}

impl<SPI, DCX> Serial<SPI, DCX> where SPI: SerialWrite, DCX: OutputPin {
    /// Everything the bus has done to its link and its line since it was
    /// made, oldest first.
    pub closed spec fn sent(&self) -> Seq<Transfer> {
        self.wires.sent()
    }

    /// Takes the link and the line, and brings the line to rest: high.
    pub fn new(spi: SPI, dcx: DCX) -> (r: Result<Self, BusError>)
        ensures
            r matches Ok(bus) ==> bus.sent() == seq![Transfer::DataCommand { high: true }],
    {
        let mut bus = Serial { wires: Wires::new(spi, dcx) };
        match bus.select(true) {
            Ok(()) => Ok(bus),
            Err(e) => Err(e),
        }
    }

    /// Drives the data/command line.
    fn select(&mut self, high: bool) -> (r: Result<(), BusError>)
        ensures
            r is Ok ==> final(self).sent() == old(self).sent().push(
                Transfer::DataCommand { high },
            ),
            r is Err ==> final(self).sent() == old(self).sent(),
    {
        self.wires.select(high)
    }

    /// Writes `bytes` to the link.
    fn write(&mut self, bytes: &[u8]) -> (r: Result<(), BusError>)
        ensures
            r is Ok ==> final(self).sent() == old(self).sent().push(
                Transfer::Bytes { bytes: bytes@ },
            ),
            r is Err ==> final(self).sent() == old(self).sent(),
    {
        self.wires.write(bytes)
    }
}

impl<SPI, DCX> Interface for Serial<SPI, DCX> where SPI: SerialWrite, DCX: OutputPin {
    /// Sends `opcode` with the data/command line low, and brings the line
    /// back high.
    fn write_command(&mut self, opcode: u8) -> (r: Result<(), BusError>)
        ensures
            advanced(old(self).sent(), command_transfers(opcode), final(self).sent(), r is Ok),
    {
        let ghost before = self.sent();
        let ghost plan = command_transfers(opcode);
        if self.select(false).is_err() {
            return Err(BusError);
        }
        let byte = [opcode];
        assert(byte@ =~= seq![opcode]);
        if self.write(&byte).is_err() {
            assert(self.sent() =~= before + plan.take(1));
            return Err(BusError);
        }
        if self.select(true).is_err() {
            assert(self.sent() =~= before + plan.take(2));
            return Err(BusError);
        }
        assert(self.sent() =~= before + plan);
        Ok(())
    }

    /// Sends `bytes` in one write. The data/command line stays high.
    fn write_data(&mut self, bytes: &[u8]) -> (r: Result<(), BusError>)
        ensures
            advanced(old(self).sent(), data_transfers(bytes@), final(self).sent(), r is Ok),
    {
        let ghost before = self.sent();
        let r = self.write(bytes);
        assert(r is Ok ==> self.sent() =~= before + data_transfers(bytes@));
        r
    }

    /// Sends `words` one after the other, the more significant byte of each
    /// first, taking them from the run as they go out. The data/command
    /// line stays high.
    fn write_data_16be(&mut self, words: &mut Words<'_>) -> (r: Result<(), BusError>)
        ensures
            advanced(
                old(self).sent(),
                word_transfers(old(words)@),
                final(self).sent(),
                r is Ok,
            ),
            r is Ok ==> final(words)@.len() == 0,
    {
        let ghost before = self.sent();
        let ghost all = words@;
        let ghost mut count: int = 0;
        let mut next = words.next();
        while next.is_some()
            invariant
                before == old(self).sent(),
                all == old(words)@,
                0 <= count <= all.len(),
                next matches Some(w) ==> count < all.len() && w == all[count] && words@
                    == all.skip(count + 1),
                next is None ==> count == all.len() && words@.len() == 0,
                self.sent() == before + word_transfers(all).take(count),
            decreases all.len() - count,
        {
            let (high, low) = split(next.unwrap());
            let pair = [high, low];
            if self.write(&pair).is_err() {
                return Err(BusError);
            }
            proof {
                count = count + 1;
            }
            next = words.next();
        }
        assert(word_transfers(all).take(count) =~= word_transfers(all));
        Ok(())
    }

    /// Reads nothing: the bus has no read path. Returns 0 and sends
    /// nothing.
    fn read_status(&mut self) -> (status: u8)
        ensures
            status == 0,
            final(self).sent() == old(self).sent(),
    {
        0
    }

    /// Reads nothing: the bus has no read path. Returns 0 and sends
    /// nothing.
    fn read_data(&mut self) -> (data: u8)
        ensures
            data == 0,
            final(self).sent() == old(self).sent(),
    {
        0
    }
}

} // verus!
