//! An eight-bit parallel bus in the style of the 8080: eight data lines, a
//! write strobe, a read strobe and a data/command select line.
//!
//! A byte goes out by putting its bits on the data lines, least significant
//! bit on the first line, and pulsing the write strobe low and high again.
//! The data/command line is low while a command byte goes out and high
//! otherwise.

use vstd::prelude::*;
use crate::error::BusError;
use crate::hal::OutputPin;
use crate::interface::lines::Lines;
use crate::interface::Interface;
use crate::trace::{advanced, advanced_continued, advanced_stopped_early, flat_map_split};
use crate::words::{big_endian, big_endian_concat, big_endian_single, split, Words};

verus! {

/// A line of the bus.
#[derive(Clone, Copy, PartialEq, Eq, Structural, Debug)]
pub enum Line {
    /// The write strobe.
    Write,
    /// The read strobe.
    Read,
    /// The data/command select line: low for a command, high for data.
    DataCommand,
    /// The data line that carries bit `bit` of a byte.
    Data { bit: u8 },
}

/// One completed operation on a line of the bus: `line` was driven high or
/// low.
pub struct Drive {
    pub line: Line,
    pub high: bool,
}

/// Whether bit `bit` of `byte` is set.
pub open spec fn bit_of(byte: u8, bit: u8) -> bool {
    byte & (1u8 << bit) != 0
}

/// Putting `byte` on the data lines: each line is driven to its bit, the
/// least significant bit first.
pub open spec fn byte_levels(byte: u8) -> Seq<Drive> {
    Seq::new(
        8,
        |i: int| Drive { line: Line::Data { bit: i as u8 }, high: bit_of(byte, i as u8) },
    )
}

/// One pulse of the write strobe.
pub open spec fn strobe() -> Seq<Drive> {
    seq![Drive { line: Line::Write, high: false }, Drive { line: Line::Write, high: true }]
}

/// Sending one byte: the byte on the data lines, then a pulse of the write
/// strobe.
pub open spec fn byte_frame(byte: u8) -> Seq<Drive> {
    byte_levels(byte) + strobe()
}

/// Sending a command: the data/command line goes low, the opcode is sent,
/// the data/command line goes back high.
pub open spec fn command_frame(opcode: u8) -> Seq<Drive> {
    seq![Drive { line: Line::DataCommand, high: false }] + byte_frame(opcode) + seq![
        Drive { line: Line::DataCommand, high: true },
    ]
}

/// Sending data: the bytes are sent one after the other. The data/command
/// line is not touched.
pub open spec fn data_frame(bytes: Seq<u8>) -> Seq<Drive> {
    bytes.flat_map(|byte: u8| byte_frame(byte))
}

/// Bringing the bus to rest: the strobes and the data/command line go high,
/// then every data line goes high.
pub open spec fn idle_levels() -> Seq<Drive> {
    seq![
        Drive { line: Line::Write, high: true },
        Drive { line: Line::Read, high: true },
        Drive { line: Line::DataCommand, high: true },
    ] + Seq::new(8, |i: int| Drive { line: Line::Data { bit: i as u8 }, high: true })
}

/// The first `i + 1` bytes are sent by sending the first `i` and then byte
/// `i`.
pub proof fn data_frame_next(bytes: Seq<u8>, i: int)
    requires
        0 <= i < bytes.len(),
    ensures
        data_frame(bytes.take(i + 1)) == data_frame(bytes.take(i)) + byte_frame(bytes[i]),
{
    bytes.lemma_flat_map_take_append(|byte: u8| byte_frame(byte), i);
}

/// Bytes are sent by sending the first `i` of them and then the others.
pub proof fn data_frame_split(bytes: Seq<u8>, i: int)
    requires
        0 <= i <= bytes.len(),
    ensures
        data_frame(bytes) == data_frame(bytes.take(i)) + data_frame(bytes.skip(i)),
{
    flat_map_split(bytes, |byte: u8| byte_frame(byte), i);
}

/// Two runs of bytes, one after the other, are sent by sending the one and
/// then the other.
pub proof fn data_frame_concat(front: Seq<u8>, back: Seq<u8>)
    ensures
        data_frame(front + back) == data_frame(front) + data_frame(back),
{
    data_frame_split(front + back, front.len() as int);
    assert((front + back).take(front.len() as int) =~= front);
    assert((front + back).skip(front.len() as int) =~= back);
}

/// Two bytes are sent by sending the one and then the other.
pub proof fn data_frame_pair(first: u8, second: u8)
    ensures
        data_frame(seq![first, second]) == byte_frame(first) + byte_frame(second),
{
    let bytes = seq![first, second];
    assert(bytes.take(2) =~= bytes);
    data_frame_next(bytes, 0);
    data_frame_next(bytes, 1);
}

/// The levels on the data lines tell the byte: two bytes that agree in
/// every bit are the same byte.
pub proof fn byte_levels_are_injective(a: u8, b: u8)
    requires
        byte_levels(a) == byte_levels(b),
    ensures
        a == b,
{
    assert(bit_of(a, 0) == byte_levels(a)[0].high && bit_of(b, 0) == byte_levels(b)[0].high);
    assert(bit_of(a, 1) == byte_levels(a)[1].high && bit_of(b, 1) == byte_levels(b)[1].high);
    assert(bit_of(a, 2) == byte_levels(a)[2].high && bit_of(b, 2) == byte_levels(b)[2].high);
    assert(bit_of(a, 3) == byte_levels(a)[3].high && bit_of(b, 3) == byte_levels(b)[3].high);
    assert(bit_of(a, 4) == byte_levels(a)[4].high && bit_of(b, 4) == byte_levels(b)[4].high);
    assert(bit_of(a, 5) == byte_levels(a)[5].high && bit_of(b, 5) == byte_levels(b)[5].high);
    assert(bit_of(a, 6) == byte_levels(a)[6].high && bit_of(b, 6) == byte_levels(b)[6].high);
    assert(bit_of(a, 7) == byte_levels(a)[7].high && bit_of(b, 7) == byte_levels(b)[7].high);
    assert(a == b) by (bit_vector)
        requires
            (a & (1u8 << 0u8) != 0) == (b & (1u8 << 0u8) != 0),
            (a & (1u8 << 1u8) != 0) == (b & (1u8 << 1u8) != 0),
            (a & (1u8 << 2u8) != 0) == (b & (1u8 << 2u8) != 0),
            (a & (1u8 << 3u8) != 0) == (b & (1u8 << 3u8) != 0),
            (a & (1u8 << 4u8) != 0) == (b & (1u8 << 4u8) != 0),
            (a & (1u8 << 5u8) != 0) == (b & (1u8 << 5u8) != 0),
            (a & (1u8 << 6u8) != 0) == (b & (1u8 << 6u8) != 0),
            (a & (1u8 << 7u8) != 0) == (b & (1u8 << 7u8) != 0),
    ;
}

/// An eight-bit parallel bus over the caller's lines: the write strobe
/// `WRX`, the read strobe `RDX`, the data/command line `DCX`, and the eight
/// data lines `DB`, least significant bit first.
///
/// The board this bus is made for does not wire the read strobe to anything
/// that answers: the bus keeps it high and reads nothing back.
///
/// The lines are kept together with a record of every drive that has
/// completed on them: what the bus has [`driven`](Self::driven). The bus
/// reaches them only one drive at a time, and each drive that succeeds is
/// recorded.
pub struct Parallel8Bit<WRX, RDX, DCX, DB> {
    lines: Lines<WRX, RDX, DCX, DB>,
}

impl<WRX: OutputPin, RDX: OutputPin, DCX: OutputPin, DB: OutputPin> Parallel8Bit<
    WRX,
    RDX,
    DCX,
    DB,
> {
    /// Everything the bus has done to its lines since it was made, oldest
    /// first.
    pub closed spec fn driven(&self) -> Seq<Drive> {
        self.lines.driven()
    }

    /// Takes the lines and brings the bus to rest: all of them high.
    pub fn new(wrx: WRX, rdx: RDX, dcx: DCX, dbus: [DB; 8]) -> (r: Result<Self, BusError>)
        ensures
            r matches Ok(bus) ==> bus.driven() == idle_levels(),
    {
        let mut bus = Parallel8Bit { lines: Lines::new(wrx, rdx, dcx, dbus) };
        if bus.drive(Line::Write, true).is_err() {
            return Err(BusError);
        }
        if bus.drive(Line::Read, true).is_err() {
            return Err(BusError);
        }
        if bus.drive(Line::DataCommand, true).is_err() {
            return Err(BusError);
        }
        let mut i: u8 = 0;
        while i < 8
            invariant
                i <= 8,
                bus.driven() == idle_levels().take(3 + i),
            decreases 8 - i,
        {
            if bus.drive(Line::Data { bit: i }, true).is_err() {
                return Err(BusError);
            }
            i = i + 1;
        }
        Ok(bus)
    }

    /// Drives one line.
    fn drive(&mut self, line: Line, high: bool) -> (r: Result<(), BusError>)
        requires
            line matches Line::Data { bit } ==> bit < 8,
        ensures
            r is Ok ==> final(self).driven() == old(self).driven().push(Drive { line, high }),
            r is Err ==> final(self).driven() == old(self).driven(),
    {
        self.lines.drive(line, high)
    }

    /// Puts `byte` on the data lines: drives each line to its bit, the least
    /// significant bit first.
    pub fn write_to_dbus(&mut self, byte: u8) -> (r: Result<(), BusError>)
        ensures
            advanced(old(self).driven(), byte_levels(byte), final(self).driven(), r is Ok),
    {
        let ghost before = self.driven();
        let mut i: u8 = 0;
        while i < 8
            invariant
                i <= 8,
                before == old(self).driven(),
                self.driven() == before + byte_levels(byte).take(i as int),
            decreases 8 - i,
        {
            let high = byte & (1u8 << i) != 0;
            if self.drive(Line::Data { bit: i }, high).is_err() {
                return Err(BusError);
            }
            i = i + 1;
        }
        assert(byte_levels(byte).take(8) =~= byte_levels(byte));
        Ok(())
    }

    /// Sends one byte: the byte on the data lines, then a pulse of the write
    /// strobe.
    fn write_byte(&mut self, byte: u8) -> (r: Result<(), BusError>)
        ensures
            advanced(old(self).driven(), byte_frame(byte), final(self).driven(), r is Ok),
    {
        let ghost before = self.driven();
        let ghost levels = byte_levels(byte);
        let r = self.write_to_dbus(byte);
        if r.is_err() {
            proof {
                advanced_stopped_early(before, levels, strobe(), self.driven());
            }
            return r;
        }
        if self.drive(Line::Write, false).is_err() {
            assert(self.driven() =~= before + byte_frame(byte).take(8));
            return Err(BusError);
        }
        if self.drive(Line::Write, true).is_err() {
            assert(self.driven() =~= before + byte_frame(byte).take(9));
            return Err(BusError);
        }
        assert(self.driven() =~= before + byte_frame(byte));
        Ok(())
    }
}

impl<WRX: OutputPin, RDX: OutputPin, DCX: OutputPin, DB: OutputPin> Interface for Parallel8Bit<
    WRX,
    RDX,
    DCX,
    DB,
> {
    /// Sends `opcode` with the data/command line low, and brings the line
    /// back high.
    fn write_command(&mut self, opcode: u8) -> (r: Result<(), BusError>)
        ensures
            advanced(old(self).driven(), command_frame(opcode), final(self).driven(), r is Ok),
    {
        let ghost before = self.driven();
        let ghost select = seq![Drive { line: Line::DataCommand, high: false }];
        let ghost release = seq![Drive { line: Line::DataCommand, high: true }];
        assert(command_frame(opcode) =~= select + (byte_frame(opcode) + release));
        if self.drive(Line::DataCommand, false).is_err() {
            return Err(BusError);
        }
        assert(self.driven() =~= before + select);
        let r = self.write_byte(opcode);
        if r.is_err() {
            proof {
                advanced_stopped_early(before + select, byte_frame(opcode), release, self.driven());
                advanced_continued(
                    before,
                    select,
                    byte_frame(opcode) + release,
                    self.driven(),
                    false,
                );
            }
            return r;
        }
        if self.drive(Line::DataCommand, true).is_err() {
            assert(self.driven() =~= before + command_frame(opcode).take(11));
            return Err(BusError);
        }
        assert(self.driven() =~= before + command_frame(opcode));
        Ok(())
    }

    /// Sends `bytes` one after the other. The data/command line stays high
    /// throughout.
    fn write_data(&mut self, bytes: &[u8]) -> (r: Result<(), BusError>)
        ensures
            advanced(old(self).driven(), data_frame(bytes@), final(self).driven(), r is Ok),
    {
        let ghost before = self.driven();
        let mut i: usize = 0;
        while i < bytes.len()
            invariant
                i <= bytes.len(),
                before == old(self).driven(),
                self.driven() == before + data_frame(bytes@.take(i as int)),
            decreases bytes.len() - i,
        {
            let ghost done = data_frame(bytes@.take(i as int));
            let ghost here = byte_frame(bytes@[i as int]);
            let ghost rest = data_frame(bytes@.skip(i + 1));
            proof {
                data_frame_next(bytes@, i as int);
                data_frame_split(bytes@, i + 1);
                assert(data_frame(bytes@) =~= done + (here + rest));
            }
            let r = self.write_byte(bytes[i]);
            if r.is_err() {
                proof {
                    advanced_stopped_early(before + done, here, rest, self.driven());
                    advanced_continued(before, done, here + rest, self.driven(), false);
                }
                return r;
            }
            i = i + 1;
        }
        assert(bytes@.take(i as int) =~= bytes@);
        Ok(())
    }

    /// Sends `words` one after the other, the more significant byte of each
    /// first, taking them from the run as they go out. The data/command
    /// line stays high throughout.
    fn write_data_16be(&mut self, words: &mut Words<'_>) -> (r: Result<(), BusError>)
        ensures
            advanced(
                old(self).driven(),
                data_frame(big_endian(old(words)@)),
                final(self).driven(),
                r is Ok,
            ),
            r is Ok ==> final(words)@.len() == 0,
    {
        let ghost before = self.driven();
        let ghost all = words@;
        let ghost mut sent = Seq::<u16>::empty();
        let mut next = words.next();
        while next.is_some()
            invariant
                before == old(self).driven(),
                all == old(words)@,
                next matches Some(w) ==> sent.push(w) + words@ == all,
                next is None ==> sent == all && words@.len() == 0,
                self.driven() == before + data_frame(big_endian(sent)),
            decreases words@.len() + if next is Some { 1nat } else { 0nat },
        {
            let word = next.unwrap();
            let (high, low) = split(word);
            let ghost rest_words = words@;
            let ghost done = data_frame(big_endian(sent));
            let ghost first = byte_frame(high);
            let ghost second = byte_frame(low);
            let ghost rest = data_frame(big_endian(rest_words));
            proof {
                big_endian_single(word);
                big_endian_concat(sent, seq![word]);
                big_endian_concat(sent.push(word), rest_words);
                assert(sent + seq![word] =~= sent.push(word));
                data_frame_pair(high, low);
                data_frame_concat(big_endian(sent), seq![high, low]);
                data_frame_concat(big_endian(sent.push(word)), big_endian(rest_words));
                assert(data_frame(big_endian(all)) =~= done + (first + (second + rest)));
            }
            let r = self.write_byte(high);
            if r.is_err() {
                proof {
                    advanced_stopped_early(before + done, first, second + rest, self.driven());
                    advanced_continued(before, done, first + (second + rest), self.driven(), false);
                }
                return r;
            }
            let r = self.write_byte(low);
            if r.is_err() {
                proof {
                    advanced_stopped_early(before + done + first, second, rest, self.driven());
                    advanced_continued(before + done, first, second + rest, self.driven(), false);
                    advanced_continued(before, done, first + (second + rest), self.driven(), false);
                }
                return r;
            }
            proof {
                sent = sent.push(word);
            }
            next = words.next();
        }
        Ok(())
    }

    /// Reads nothing: the bus has no read path. Returns 0 and touches no
    /// line.
    fn read_status(&mut self) -> (status: u8)
        ensures
            status == 0,
            final(self).driven() == old(self).driven(),
    {
        0
    }

    /// Reads nothing: the bus has no read path. Returns 0 and touches no
    /// line.
    fn read_data(&mut self) -> (data: u8)
        ensures
            data == 0,
            final(self).driven() == old(self).driven(),
    {
        0
    }
}

} // verus!
