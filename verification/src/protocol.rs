//! The plans of the driver's operations: the events each of them goes
//! through, in order, when nothing fails.

use vstd::prelude::*;
use crate::command::Command;
use crate::sequencer::{init_steps, table_plan};
use crate::trace::Event;
use crate::words::{big_endian, high_byte, low_byte, repeated};

verus! {

/// How long the reset line is held low, in milliseconds.
pub const RESET_HOLD_MS: u32 = 2;

/// How long the controller is left to settle after a reset, in milliseconds.
pub const RESET_SETTLE_MS: u32 = 200;

/// How long the controller is left after a soft reset before the next
/// command, in milliseconds: the longest wait its datasheet asks for there.
pub const SOFT_RESET_SETTLE_MS: u32 = 120;

/// How long the controller is left after sleep-out before the next command,
/// in milliseconds: the longest wait its datasheet asks for there.
pub const SLEEP_OUT_SETTLE_MS: u32 = 120;

/// How long the panel is left after display-on before the bring-up is over,
/// in milliseconds.
pub const DISPLAY_ON_SETTLE_MS: u32 = 150;

/// A command without parameters.
pub open spec fn command_plan(command: Command) -> Seq<Event> {
    seq![Event::Command { opcode: command.opcode() }]
}

/// A command followed by one parameter byte.
pub open spec fn parameter_plan(command: Command, parameter: u8) -> Seq<Event> {
    seq![Event::Command { opcode: command.opcode() }, Event::Data { bytes: seq![parameter] }]
}

/// Column-address-set with `x0` and `x1`, then page-address-set with `y0`
/// and `y1`, each coordinate as two bytes, the more significant one first.
pub open spec fn window_plan(x0: u16, y0: u16, x1: u16, y1: u16) -> Seq<Event> {
    seq![
        Event::Command { opcode: Command::ColumnAddressSet.opcode() },
        Event::Data { bytes: seq![high_byte(x0), low_byte(x0), high_byte(x1), low_byte(x1)] },
        Event::Command { opcode: Command::PageAddressSet.opcode() },
        Event::Data { bytes: seq![high_byte(y0), low_byte(y0), high_byte(y1), low_byte(y1)] },
    ]
}

/// Memory-write, then `words` in one burst, each as two bytes, the more
/// significant one first.
pub open spec fn pixels_plan(words: Seq<u16>) -> Seq<Event> {
    seq![
        Event::Command { opcode: Command::MemoryWrite.opcode() },
        Event::Data { bytes: big_endian(words) },
    ]
}

/// A window over a whole screen of `width` by `height` pixels, then that
/// many copies of `color`, then a no-op that ends the burst.
pub open spec fn fill_plan(width: u16, height: u16, color: u16) -> Seq<Event> {
    window_plan(0, 0, (width - 1) as u16, (height - 1) as u16) + pixels_plan(
        repeated(color, (width * height) as nat),
    ) + command_plan(Command::Nop)
}

/// Filling a screen, event by event: seven of them, whatever the size of
/// the screen.
pub proof fn fill_plan_events(width: u16, height: u16, color: u16)
    requires
        0 < width,
        0 < height,
    ensures
        fill_plan(width, height, color) == seq![
            Event::Command { opcode: 0x2A },
            Event::Data {
                bytes: seq![
                    0,
                    0,
                    high_byte((width - 1) as u16),
                    low_byte((width - 1) as u16),
                ],
            },
            Event::Command { opcode: 0x2B },
            Event::Data {
                bytes: seq![
                    0,
                    0,
                    high_byte((height - 1) as u16),
                    low_byte((height - 1) as u16),
                ],
            },
            Event::Command { opcode: 0x2C },
            Event::Data { bytes: big_endian(repeated(color, (width * height) as nat)) },
            Event::Command { opcode: 0x00 },
        ],
{
}

/// The hardware reset: deselect the controller, pull reset low and hold it,
/// release reset and let the controller settle, select the controller.
pub open spec fn reset_plan() -> Seq<Event> {
    seq![
        Event::ChipSelect { high: true },
        Event::Reset { high: false },
        Event::Delay { ms: RESET_HOLD_MS },
        Event::Reset { high: true },
        Event::Delay { ms: RESET_SETTLE_MS },
        Event::ChipSelect { high: false },
    ]
}

/// The bring-up of the controller: the hardware reset, then the bring-up
/// table.
pub open spec fn init_plan() -> Seq<Event> {
    reset_plan() + table_plan(init_steps())
}

} // verus!
