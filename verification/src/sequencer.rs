//! The bring-up sequence of the controller: a table of commands with their
//! parameters, and of pauses between them.

use vstd::prelude::*;
use crate::protocol::{DISPLAY_ON_SETTLE_MS, SLEEP_OUT_SETTLE_MS, SOFT_RESET_SETTLE_MS};
use crate::trace::{flat_map_split, Event};

verus! {

/// One row of a bring-up table, as contracts see it: its parameters are a
/// sequence of bytes.
pub enum Step {
    /// Send `opcode` as a command and `parameters` as its data.
    Send { opcode: u8, parameters: Seq<u8> },
    /// Wait `ms` milliseconds. Nothing goes over the bus.
    Delay { ms: u32 },
}

/// One row of a bring-up table.
#[derive(Clone, Copy, Debug)]
pub enum InitStep<'a> {
    /// Send `opcode` as a command and `parameters` as its data.
    Send { opcode: u8, parameters: &'a [u8] },
    /// Wait `ms` milliseconds. Nothing goes over the bus.
    Delay { ms: u32 },
}

impl<'a> View for InitStep<'a> {
    type V = Step;

    open spec fn view(&self) -> Step {
        match *self {
            InitStep::Send { opcode, parameters } => Step::Send {
                opcode,
                parameters: parameters@,
            },
            InitStep::Delay { ms } => Step::Delay { ms },
        }
    }
}

/// The rows of `table`, as contracts see them.
pub open spec fn steps_of<'a>(table: Seq<InitStep<'a>>) -> Seq<Step> {
    table.map_values(|row: InitStep<'a>| row@)
}

/// What one row does: a command and its data, or a pause.
pub open spec fn step_plan(step: Step) -> Seq<Event> {
    match step {
        Step::Send { opcode, parameters } => seq![
            Event::Command { opcode },
            Event::Data { bytes: parameters },
        ],
        Step::Delay { ms } => seq![Event::Delay { ms }],
    }
}

/// What a table does: its rows, one after the other.
pub open spec fn table_plan(steps: Seq<Step>) -> Seq<Event> {
    steps.flat_map(|step: Step| step_plan(step))
}

/// The controller's bring-up table: soft reset and a pause, sleep out and a
/// pause, display inversion off, memory access control, display inversion
/// off once more with a parameter, and display on and a last pause.
pub open spec fn init_steps() -> Seq<Step> {
    seq![
        Step::Send { opcode: 0x01, parameters: seq![] },
        Step::Delay { ms: SOFT_RESET_SETTLE_MS },
        Step::Send { opcode: 0x11, parameters: seq![] },
        Step::Delay { ms: SLEEP_OUT_SETTLE_MS },
        Step::Send { opcode: 0x20, parameters: seq![] },
        Step::Send { opcode: 0x36, parameters: seq![0x48] },
        Step::Send { opcode: 0x20, parameters: seq![0x02] },
        Step::Send { opcode: 0x29, parameters: seq![] },
        Step::Delay { ms: DISPLAY_ON_SETTLE_MS },
    ]
}

/// The controller's bring-up table.
pub fn init_table() -> (table: [InitStep<'static>; 9])
    ensures
        steps_of(table@) == init_steps(),
{
    let table = [
        InitStep::Send { opcode: 0x01, parameters: &[] },
        InitStep::Delay { ms: SOFT_RESET_SETTLE_MS },
        InitStep::Send { opcode: 0x11, parameters: &[] },
        InitStep::Delay { ms: SLEEP_OUT_SETTLE_MS },
        InitStep::Send { opcode: 0x20, parameters: &[] },
        InitStep::Send { opcode: 0x36, parameters: &[0x48] },
        InitStep::Send { opcode: 0x20, parameters: &[0x02] },
        InitStep::Send { opcode: 0x29, parameters: &[] },
        InitStep::Delay { ms: DISPLAY_ON_SETTLE_MS },
    ];
    proof {
        assert(table@[0]@->Send_parameters =~= seq![]);
        assert(table@[2]@->Send_parameters =~= seq![]);
        assert(table@[4]@->Send_parameters =~= seq![]);
        assert(table@[5]@->Send_parameters =~= seq![0x48]);
        assert(table@[6]@->Send_parameters =~= seq![0x02]);
        assert(table@[7]@->Send_parameters =~= seq![]);
        assert(steps_of(table@) =~= init_steps());
    }
    table
}

/// The first `i + 1` rows do what the first `i` rows do, and then what row
/// `i` does.
pub proof fn table_plan_next(steps: Seq<Step>, i: int)
    requires
        0 <= i < steps.len(),
    ensures
        table_plan(steps.take(i + 1)) == table_plan(steps.take(i)) + step_plan(steps[i]),
{
    steps.lemma_flat_map_take_append(|step: Step| step_plan(step), i);
}

/// A table does what its first `i` rows do, and then what the rows after
/// them do.
pub proof fn table_plan_split(steps: Seq<Step>, i: int)
    requires
        0 <= i <= steps.len(),
    ensures
        table_plan(steps) == table_plan(steps.take(i)) + table_plan(steps.skip(i)),
{
    flat_map_split(steps, |step: Step| step_plan(step), i);
}

/// The bring-up table, event by event: twelve transfers, with a pause after
/// the soft reset, a pause after sleep-out and a last pause after display-on.
pub proof fn init_table_plan()
    ensures
        table_plan(init_steps()) == seq![
            Event::Command { opcode: 0x01 },
            Event::Data { bytes: seq![] },
            Event::Delay { ms: 120 },
            Event::Command { opcode: 0x11 },
            Event::Data { bytes: seq![] },
            Event::Delay { ms: 120 },
            Event::Command { opcode: 0x20 },
            Event::Data { bytes: seq![] },
            Event::Command { opcode: 0x36 },
            Event::Data { bytes: seq![0x48] },
            Event::Command { opcode: 0x20 },
            Event::Data { bytes: seq![0x02] },
            Event::Command { opcode: 0x29 },
            Event::Data { bytes: seq![] },
            Event::Delay { ms: 150 },
        ],
{
    let s = init_steps();
    assert(s.take(9) =~= s);
    table_plan_next(s, 0);
    table_plan_next(s, 1);
    table_plan_next(s, 2);
    table_plan_next(s, 3);
    table_plan_next(s, 4);
    table_plan_next(s, 5);
    table_plan_next(s, 6);
    table_plan_next(s, 7);
    table_plan_next(s, 8);
}

} // verus!
