//! The controller's instruction set.

use vstd::prelude::*;

verus! {

/// The one-byte instructions of the controller that the driver knows.
#[derive(Clone, Copy, PartialEq, Eq, Structural, Debug)]
#[non_exhaustive]
pub enum Command {
    Nop,
    SoftReset,
    SleepIn,
    SleepOut,
    NormalDisplayMode,
    DisplayInversionOff,
    DisplayInversionOn,
    DisplayOff,
    DisplayOn,
    ColumnAddressSet,
    PageAddressSet,
    MemoryWrite,
    MemoryRead,
    MemoryAccessControl,
    IdleModeOff,
    IdleModeOn,
    InterfacePixelFormat,
    DisplayInversionControl,
    DisplayFunctionControl,
    PowerControl2,
    PowerControl3,
    VCOMControl,
    PositiveGammaControl,
    NegativeGammaControl,
    WriteDisplayBrightnessValue,
}

impl Command {
    /// The byte that stands for this instruction on the bus.
    pub open spec fn spec_opcode(self) -> u8 {
        match self {
            Command::Nop => 0x00,
            Command::SoftReset => 0x01,
            Command::SleepIn => 0x10,
            Command::SleepOut => 0x11,
            Command::NormalDisplayMode => 0x13,
            Command::DisplayInversionOff => 0x20,
            Command::DisplayInversionOn => 0x21,
            Command::DisplayOff => 0x28,
            Command::DisplayOn => 0x29,
            Command::ColumnAddressSet => 0x2A,
            Command::PageAddressSet => 0x2B,
            Command::MemoryWrite => 0x2C,
            Command::MemoryRead => 0x2E,
            Command::MemoryAccessControl => 0x36,
            Command::IdleModeOff => 0x38,
            Command::IdleModeOn => 0x39,
            Command::InterfacePixelFormat => 0x3A,
            Command::DisplayInversionControl => 0xB4,
            Command::DisplayFunctionControl => 0xB6,
            Command::PowerControl2 => 0xC1,
            Command::PowerControl3 => 0xC2,
            Command::VCOMControl => 0xC5,
            Command::PositiveGammaControl => 0xE0,
            Command::NegativeGammaControl => 0xE1,
            Command::WriteDisplayBrightnessValue => 0x51,
        }
    }

    /// The byte that stands for this instruction on the bus.
    #[verifier::when_used_as_spec(spec_opcode)]
    pub fn opcode(self) -> (byte: u8)
        ensures
            byte == self.spec_opcode(),
    {
        match self {
            Command::Nop => 0x00,
            Command::SoftReset => 0x01,
            Command::SleepIn => 0x10,
            Command::SleepOut => 0x11,
            Command::NormalDisplayMode => 0x13,
            Command::DisplayInversionOff => 0x20,
            Command::DisplayInversionOn => 0x21,
            Command::DisplayOff => 0x28,
            Command::DisplayOn => 0x29,
            Command::ColumnAddressSet => 0x2A,
            Command::PageAddressSet => 0x2B,
            Command::MemoryWrite => 0x2C,
            Command::MemoryRead => 0x2E,
            Command::MemoryAccessControl => 0x36,
            Command::IdleModeOff => 0x38,
            Command::IdleModeOn => 0x39,
            Command::InterfacePixelFormat => 0x3A,
            Command::DisplayInversionControl => 0xB4,
            Command::DisplayFunctionControl => 0xB6,
            Command::PowerControl2 => 0xC1,
            Command::PowerControl3 => 0xC2,
            Command::VCOMControl => 0xC5,
            Command::PositiveGammaControl => 0xE0,
            Command::NegativeGammaControl => 0xE1,
            Command::WriteDisplayBrightnessValue => 0x51,
        }
    }

    /// No two instructions share a byte.
    pub proof fn opcode_is_injective(a: Command, b: Command)
        requires
            a.opcode() == b.opcode(),
        ensures
            a == b,
    {
    }
}

} // verus!
