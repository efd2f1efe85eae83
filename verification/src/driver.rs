//! The controller driver.

use vstd::prelude::*;
use crate::board::Board;
use crate::command::Command;
use crate::config::{Config, Orientation, PixelFormat, PANEL_HEIGHT, PANEL_PIXELS, PANEL_WIDTH};
use crate::error::DisplayError;
use crate::hal::{DelayMs, OutputPin};
use crate::interface::Interface;
use crate::protocol::{
    command_plan, fill_plan, init_plan, parameter_plan, pixels_plan, reset_plan, window_plan,
    RESET_HOLD_MS, RESET_SETTLE_MS,
};
use crate::sequencer::{
    init_steps, init_table, step_plan, steps_of, table_plan, table_plan_next, table_plan_split,
    InitStep,
};
use crate::trace::{continued, performed, stopped_early, Event};
use crate::words::{big_endian, big_endian_pair, repeated, Words};

verus! {

/// An ILI9486 behind a bus of type `IF`, with its chip-select line `CSX` and
/// its reset line `RSX`.
///
/// The driver owns the three for as long as it lives. Every operation
/// returns at the first line or transfer that fails and reports it; nothing
/// is retried.
///
/// The three are kept on a board that records every operation that has
/// completed on them: the [`trace`](Self::trace). The driver reaches them
/// only through the board, one call and one event at a time.
pub struct ILI9486<CSX, RSX, IF> {
    board: Board<CSX, RSX, IF>,
    config: Config,
}

impl<CSX, RSX, IF> ILI9486<CSX, RSX, IF> where IF: Interface, CSX: OutputPin, RSX: OutputPin {
    /// The driver's configuration.
    pub closed spec fn config(&self) -> Config {
        self.config
    }

    /// Everything the driver has done to its lines, its timer and its bus
    /// since it was made, oldest first.
    pub closed spec fn trace(&self) -> Seq<Event> {
        self.board.trace()
    }

    /// Binds the driver to its bus and lines, and drives chip-select and
    /// reset to their inactive, high level. The controller is not reset yet:
    /// that is [`init`](Self::init)'s work.
    pub fn new(interface: IF, chip_select: CSX, reset: RSX) -> (r: Result<Self, DisplayError>)
        ensures
            match r {
                Ok(driver) => {
                    &&& driver.trace() == seq![
                        Event::ChipSelect { high: true },
                        Event::Reset { high: true },
                    ]
                    &&& driver.config().orientation() == Orientation::Portrait
                    &&& driver.config().pixel_format() == PixelFormat::Rgb666
                    &&& driver.config().width() == PANEL_WIDTH
                    &&& driver.config().height() == PANEL_HEIGHT
                },
                Err(e) => e == DisplayError::ChipSelect || e == DisplayError::Reset,
            },
    {
        let mut board = Board::new(interface, chip_select, reset);
        match board.select(true) {
            Ok(()) => {},
            Err(e) => {
                return Err(e);
            },
        }
        match board.drive_reset(true) {
            Ok(()) => {},
            Err(e) => {
                return Err(e);
            },
        }
        assert(board.trace() =~= seq![
            Event::ChipSelect { high: true },
            Event::Reset { high: true },
        ]);
        Ok(ILI9486 { board, config: Config::new() })
    }

    /// Pulls the reset line low.
    pub fn assert_reset(&mut self) -> (r: Result<(), DisplayError>)
        ensures
            performed(
                old(self).trace(),
                seq![Event::Reset { high: false }],
                final(self).trace(),
                r,
            ),
            final(self).config() == old(self).config(),
    {
        self.board.drive_reset(false)
    }

    /// Releases the reset line.
    pub fn deassert_reset(&mut self) -> (r: Result<(), DisplayError>)
        ensures
            performed(
                old(self).trace(),
                seq![Event::Reset { high: true }],
                final(self).trace(),
                r,
            ),
            final(self).config() == old(self).config(),
    {
        self.board.drive_reset(true)
    }

    /// Selects the controller: pulls chip-select low.
    pub fn enable(&mut self) -> (r: Result<(), DisplayError>)
        ensures
            performed(
                old(self).trace(),
                seq![Event::ChipSelect { high: false }],
                final(self).trace(),
                r,
            ),
            final(self).config() == old(self).config(),
    {
        self.board.select(false)
    }

    /// Deselects the controller: releases chip-select.
    pub fn disable(&mut self) -> (r: Result<(), DisplayError>)
        ensures
            performed(
                old(self).trace(),
                seq![Event::ChipSelect { high: true }],
                final(self).trace(),
                r,
            ),
            final(self).config() == old(self).config(),
    {
        self.board.select(true)
    }

    /// Sends `command` without parameters.
    pub fn send_command(&mut self, command: Command) -> (r: Result<(), DisplayError>)
        ensures
            performed(old(self).trace(), command_plan(command), final(self).trace(), r),
            final(self).config() == old(self).config(),
    {
        self.board.command(command.opcode())
    }

    /// Sends `data` as the parameters or the payload of the command before
    /// it.
    pub fn send_data(&mut self, data: &[u8]) -> (r: Result<(), DisplayError>)
        ensures
            performed(
                old(self).trace(),
                seq![Event::Data { bytes: data@ }],
                final(self).trace(),
                r,
            ),
            final(self).config() == old(self).config(),
    {
        self.board.data(data)
    }

    /// Sends `opcode` as a command, then `data` as its parameters.
    fn send(&mut self, opcode: u8, data: &[u8]) -> (r: Result<(), DisplayError>)
        ensures
            performed(
                old(self).trace(),
                seq![Event::Command { opcode }, Event::Data { bytes: data@ }],
                final(self).trace(),
                r,
            ),
            final(self).config() == old(self).config(),
    {
        let ghost before = self.trace();
        let ghost first = seq![Event::Command { opcode }];
        let ghost rest = seq![Event::Data { bytes: data@ }];
        assert(seq![Event::Command { opcode }, Event::Data { bytes: data@ }] =~= first + rest);
        let r = self.board.command(opcode);
        if r.is_err() {
            proof {
                stopped_early(before, first, rest, self.trace(), r->Err_0);
            }
            return r;
        }
        let r = self.send_data(data);
        proof {
            continued(before, first, rest, self.trace(), r);
        }
        r
    }

    /// Sends `command` with the one parameter byte `parameter`.
    fn send_parameter(&mut self, command: Command, parameter: u8) -> (r: Result<
        (),
        DisplayError,
    >)
        ensures
            performed(
                old(self).trace(),
                parameter_plan(command, parameter),
                final(self).trace(),
                r,
            ),
            final(self).config() == old(self).config(),
    {
        let bytes = [parameter];
        assert(bytes@ =~= seq![parameter]);
        self.send(command.opcode(), &bytes)
    }

    /// Resets the controller by its reset line, with the controller
    /// deselected while the line moves.
    fn power_cycle<D: DelayMs>(&mut self, delay: &mut D) -> (r: Result<(), DisplayError>)
        ensures
            performed(old(self).trace(), reset_plan(), final(self).trace(), r),
            final(self).config() == old(self).config(),
    {
        let ghost before = self.trace();
        let ghost plan = reset_plan();
        let r = self.disable();
        if r.is_err() {
            assert(self.trace() =~= before + plan.take(0));
            return r;
        }
        let r = self.assert_reset();
        if r.is_err() {
            assert(self.trace() =~= before + plan.take(1));
            return r;
        }
        self.board.pause(delay, RESET_HOLD_MS);
        let r = self.deassert_reset();
        if r.is_err() {
            assert(self.trace() =~= before + plan.take(3));
            return r;
        }
        self.board.pause(delay, RESET_SETTLE_MS);
        let r = self.enable();
        if r.is_err() {
            assert(self.trace() =~= before + plan.take(5));
            return r;
        }
        assert(self.trace() =~= before + plan);
        r
    }

    /// Runs a bring-up table: row by row, in order, a command with its
    /// parameters over the bus or a pause on `delay`.
    pub fn execute<D: DelayMs>(&mut self, table: &[InitStep<'_>], delay: &mut D) -> (r: Result<
        (),
        DisplayError,
    >)
        ensures
            performed(
                old(self).trace(),
                table_plan(steps_of(table@)),
                final(self).trace(),
                r,
            ),
            final(self).config() == old(self).config(),
    {
        let ghost before = self.trace();
        let ghost config = self.config();
        let ghost steps = steps_of(table@);
        let mut i: usize = 0;
        while i < table.len()
            invariant
                i <= table.len(),
                steps == steps_of(table@),
                before == old(self).trace(),
                config == old(self).config(),
                self.trace() == before + table_plan(steps.take(i as int)),
                self.config() == config,
            decreases table.len() - i,
        {
            let ghost done = table_plan(steps.take(i as int));
            let ghost here = step_plan(steps[i as int]);
            let ghost rest = table_plan(steps.skip(i + 1));
            proof {
                table_plan_next(steps, i as int);
                table_plan_split(steps, i + 1);
                assert(table_plan(steps) =~= done + (here + rest));
            }
            match table[i] {
                InitStep::Send { opcode, parameters } => {
                    let r = self.send(opcode, parameters);
                    if r.is_err() {
                        proof {
                            stopped_early(before + done, here, rest, self.trace(), r->Err_0);
                            continued(before, done, here + rest, self.trace(), r);
                        }
                        return r;
                    }
                },
                InitStep::Delay { ms } => {
                    self.board.pause(delay, ms);
                },
            }
            i = i + 1;
        }
        assert(steps.take(i as int) =~= steps);
        Ok(())
    }

    /// Brings the controller up: resets it by its reset line, then runs the
    /// bring-up table, which pauses after the soft reset, after sleep-out
    /// and after display-on. No other operation means anything to the
    /// controller before this one has succeeded.
    pub fn init<D: DelayMs>(&mut self, delay: &mut D) -> (r: Result<(), DisplayError>)
        ensures
            performed(old(self).trace(), init_plan(), final(self).trace(), r),
            final(self).config() == old(self).config(),
    {
        let ghost before = self.trace();
        let r = self.power_cycle(delay);
        if r.is_err() {
            proof {
                stopped_early(
                    before,
                    reset_plan(),
                    table_plan(init_steps()),
                    self.trace(),
                    r->Err_0,
                );
            }
            return r;
        }
        let table = init_table();
        let r = self.execute(table.as_slice(), delay);
        proof {
            continued(before, reset_plan(), table_plan(init_steps()), self.trace(), r);
        }
        r
    }

    /// Sets the rectangle of display memory that the next pixels go to: the
    /// columns `x0` to `x1` and the rows `y0` to `y1`, both ends included.
    pub fn set_window(&mut self, x0: u16, y0: u16, x1: u16, y1: u16) -> (r: Result<
        (),
        DisplayError,
    >)
        ensures
            performed(old(self).trace(), window_plan(x0, y0, x1, y1), final(self).trace(), r),
            final(self).config() == old(self).config(),
    {
        let ghost before = self.trace();
        let ghost columns = seq![
            Event::Command { opcode: Command::ColumnAddressSet.opcode() },
            Event::Data { bytes: big_endian(seq![x0, x1]) },
        ];
        let ghost rows = seq![
            Event::Command { opcode: Command::PageAddressSet.opcode() },
            Event::Data { bytes: big_endian(seq![y0, y1]) },
        ];
        proof {
            big_endian_pair(x0, x1);
            big_endian_pair(y0, y1);
            assert(window_plan(x0, y0, x1, y1) =~= columns + rows);
        }
        let column_data = [x0, x1];
        let r = self.send_words(Command::ColumnAddressSet, &column_data);
        if r.is_err() {
            proof {
                stopped_early(before, columns, rows, self.trace(), r->Err_0);
            }
            return r;
        }
        let page_data = [y0, y1];
        let r = self.send_words(Command::PageAddressSet, &page_data);
        proof {
            continued(before, columns, rows, self.trace(), r);
        }
        r
    }

    /// Sends `command`, then `words` in one burst.
    fn send_words(&mut self, command: Command, words: &[u16]) -> (r: Result<(), DisplayError>)
        ensures
            performed(
                old(self).trace(),
                seq![
                    Event::Command { opcode: command.opcode() },
                    Event::Data { bytes: big_endian(words@) },
                ],
                final(self).trace(),
                r,
            ),
            final(self).config() == old(self).config(),
    {
        let ghost before = self.trace();
        let ghost first = command_plan(command);
        let ghost rest = seq![Event::Data { bytes: big_endian(words@) }];
        assert(seq![
            Event::Command { opcode: command.opcode() },
            Event::Data { bytes: big_endian(words@) },
        ] =~= first + rest);
        let r = self.send_command(command);
        if r.is_err() {
            proof {
                stopped_early(before, first, rest, self.trace(), r->Err_0);
            }
            return r;
        }
        let mut run = Words::from_slice(words);
        let r = self.board.words(&mut run);
        proof {
            continued(before, first, rest, self.trace(), r);
        }
        r
    }

    /// Streams `pixels` into the window set before: a memory-write command,
    /// then the pixels in one burst. The caller sees to it that there are as
    /// many pixels as the window holds.
    pub fn write_pixels(&mut self, pixels: &[u16]) -> (r: Result<(), DisplayError>)
        ensures
            performed(old(self).trace(), pixels_plan(pixels@), final(self).trace(), r),
            final(self).config() == old(self).config(),
    {
        self.send_words(Command::MemoryWrite, pixels)
    }

    /// Tells the controller which pixel encoding to expect, and records it
    /// once the controller has been told.
    pub fn set_pixel_format(&mut self, format: PixelFormat) -> (r: Result<(), DisplayError>)
        ensures
            performed(
                old(self).trace(),
                parameter_plan(Command::InterfacePixelFormat, format.parameter()),
                final(self).trace(),
                r,
            ),
            final(self).config().orientation() == old(self).config().orientation(),
            final(self).config().width() == old(self).config().width(),
            final(self).config().height() == old(self).config().height(),
            final(self).config().pixel_format() == if r is Ok {
                format
            } else {
                old(self).config().pixel_format()
            },
    {
        let r = self.send_parameter(Command::InterfacePixelFormat, format.parameter());
        if r.is_ok() {
            self.config = self.config.with_pixel_format(format);
        }
        r
    }

    /// Turns the panel. The driver's width and height become those of
    /// `orientation` at once, whether or not the controller can then be
    /// told.
    pub fn set_orientation(&mut self, orientation: Orientation) -> (r: Result<
        (),
        DisplayError,
    >)
        ensures
            performed(
                old(self).trace(),
                parameter_plan(Command::MemoryAccessControl, orientation.parameter()),
                final(self).trace(),
                r,
            ),
            final(self).config().orientation() == orientation,
            final(self).config().width() == orientation.width(),
            final(self).config().height() == orientation.height(),
            final(self).config().pixel_format() == old(self).config().pixel_format(),
    {
        self.config = self.config.with_orientation(orientation);
        self.send_parameter(Command::MemoryAccessControl, orientation.parameter())
    }

    /// How the panel is turned.
    pub fn orientation(&self) -> (o: Orientation)
        ensures
            o == self.config().orientation(),
    {
        self.config.orientation()
    }

    /// The pixel encoding the controller has been told to expect.
    pub fn pixel_format(&self) -> (f: PixelFormat)
        ensures
            f == self.config().pixel_format(),
    {
        self.config.pixel_format()
    }

    /// Sets the backlight level. The controller takes 0 as the brightest.
    pub fn set_brightness(&mut self, brightness: u8) -> (r: Result<(), DisplayError>)
        ensures
            performed(
                old(self).trace(),
                parameter_plan(Command::WriteDisplayBrightnessValue, brightness),
                final(self).trace(),
                r,
            ),
            final(self).config() == old(self).config(),
    {
        self.send_parameter(Command::WriteDisplayBrightnessValue, brightness)
    }

    /// Paints the whole screen in `color`: a window over all of the current
    /// width and height, a memory-write, one copy of `color` for every
    /// pixel, and a no-op that ends the burst. The copies are produced one
    /// at a time.
    pub fn fill(&mut self, color: u16) -> (r: Result<(), DisplayError>)
        ensures
            performed(
                old(self).trace(),
                fill_plan(old(self).config().width(), old(self).config().height(), color),
                final(self).trace(),
                r,
            ),
            final(self).config() == old(self).config(),
    {
        let width = self.config.width();
        let height = self.config.height();
        let ghost before = self.trace();
        let ghost window = window_plan(0, 0, (width - 1) as u16, (height - 1) as u16);
        let ghost write = command_plan(Command::MemoryWrite);
        let ghost pixels = seq![
            Event::Data { bytes: big_endian(repeated(color, (width * height) as nat)) },
        ];
        let ghost end = command_plan(Command::Nop);
        assert(fill_plan(width, height, color) =~= window + (write + (pixels + end)));
        let pixel_count: usize = PANEL_PIXELS as usize;

        let r = self.set_window(0, 0, width - 1, height - 1);
        if r.is_err() {
            proof {
                stopped_early(before, window, write + (pixels + end), self.trace(), r->Err_0);
            }
            return r;
        }
        let r = self.send_command(Command::MemoryWrite);
        if r.is_err() {
            proof {
                stopped_early(before + window, write, pixels + end, self.trace(), r->Err_0);
                continued(before, window, write + (pixels + end), self.trace(), r);
            }
            return r;
        }
        let mut run = Words::repeat(color, pixel_count);
        let r = self.board.words(&mut run);
        if r.is_err() {
            proof {
                stopped_early(before + window + write, pixels, end, self.trace(), r->Err_0);
                continued(before + window, write, pixels + end, self.trace(), r);
                continued(before, window, write + (pixels + end), self.trace(), r);
            }
            return r;
        }
        let r = self.send_command(Command::Nop);
        proof {
            continued(before + window + write, pixels, end, self.trace(), r);
            continued(before + window, write, pixels + end, self.trace(), r);
            continued(before, window, write + (pixels + end), self.trace(), r);
        }
        r
    }

    /// Columns currently addressable: 320 upright, 480 lying down.
    pub fn width(&self) -> (w: u16)
        ensures
            w == self.config().width(),
            w == self.config().orientation().width(),
            w * self.config().height() == PANEL_PIXELS,
    {
        self.config.width()
    }

    /// Rows currently addressable: 480 upright, 320 lying down.
    pub fn height(&self) -> (h: u16)
        ensures
            h == self.config().height(),
            h == self.config().orientation().height(),
            self.config().width() * h == PANEL_PIXELS,
    {
        self.config.height()
    }
}

} // verus!
